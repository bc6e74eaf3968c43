use vstd::prelude::*;

verus! {

/// Identity of an account (a participant or a contract instance).
pub type AccountId = u32;

/// An amount of tokens or of pool shares.
pub type Balance = u128;

} // verus!

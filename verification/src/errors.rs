use vstd::prelude::*;
use crate::types::Balance;

verus! {

/// Failure of a token-ledger transaction, as in the PSP22 standard.
#[derive(Debug, PartialEq, Eq)]
pub enum PSP22Error {
    /// A custom failure, described by a message.
    Custom(String),
    /// The account does not hold enough tokens for the requested transfer.
    InsufficientBalance,
    /// The granted allowance does not cover the requested transfer.
    InsufficientAllowance,
}

/// Failure of a trading-pair operation. Every operation aborts as a whole:
/// when one of these is returned, the share ledger and both asset ledgers
/// hold the same balances as before the call (a consumed transfer allowance
/// is the one exception, noted on the operations that pull deposits).
#[derive(Debug, Clone, Copy, PartialEq, Eq)]
pub enum TradingPairError {
    /// The caller holds fewer tokens or shares than the operation needs.
    InsufficientBalance { requested: Balance, available: Balance },
    /// The pair was granted a smaller allowance than the operation needs.
    InsufficientAllowance { requested: Balance, available: Balance },
    /// A checked arithmetic step overflowed.
    Overflow,
    /// A quotient's divisor was zero.
    DivisionByZero,
    /// The computed result deviates from the caller's expectation by more
    /// than the supplied tolerance.
    SlippageExceeded { difference: Balance, tolerance: Balance },
    /// A liquidity deposit would mint no shares at all.
    ZeroShares,
}

} // verus!

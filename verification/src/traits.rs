use vstd::prelude::*;
use crate::contract::Env;
use crate::errors::PSP22Error;
use crate::types::{AccountId, Balance};

verus! {

/// The PSP22 fungible-token call surface, with full functional contracts. A
/// conforming implementation exposes the caller it acts for and its ledger
/// state as specification views, and each transaction pins how the views
/// change and exactly when it succeeds.
pub trait PSP22: Sized {
    /// The caller on whose behalf every transaction of this value runs.
    spec fn spec_caller(&self) -> AccountId;

    /// The recorded total supply.
    spec fn spec_total_supply(&self) -> Balance;

    /// Balance of `owner`, absent accounts reading as zero.
    spec fn spec_balance_of(&self, owner: AccountId) -> Balance;

    /// Allowance granted by `owner` to `spender`, absent reading as zero.
    spec fn spec_allowance(&self, owner: AccountId, spender: AccountId) -> Balance;

    /// The implementation's internal consistency, preserved by every call.
    spec fn inv(&self) -> bool;

    /// The environment the token executes in; it carries the caller.
    fn env(&self) -> (r: &Env)
        ensures
            r.spec_caller() == self.spec_caller(),
    ;

    /// Returns the total token supply.
    fn total_supply(&self) -> (r: Balance)
        requires
            self.inv(),
        ensures
            r == self.spec_total_supply(),
    ;

    /// Returns the account balance of `owner`; zero for a non-existent
    /// account.
    fn balance_of(&self, owner: AccountId) -> (r: Balance)
        requires
            self.inv(),
        ensures
            r == self.spec_balance_of(owner),
    ;

    /// Returns the amount `spender` is still allowed to withdraw from
    /// `owner`; zero when no allowance was set.
    fn allowance(&self, owner: AccountId, spender: AccountId) -> (r: Balance)
        requires
            self.inv(),
        ensures
            r == self.spec_allowance(owner, spender),
    ;

    /// Transfers `value` tokens from the caller to `to`, with `data` in an
    /// unspecified format. A self-transfer and a zero amount succeed without
    /// moving anything; an uncovered amount fails with insufficient balance.
    fn transfer(&mut self, to: AccountId, value: Balance, data: Vec<u8>) -> (r: Result<
        (),
        PSP22Error,
    >)
        requires
            old(self).inv(),
        ensures
            final(self).inv(),
            final(self).spec_caller() == old(self).spec_caller(),
            final(self).spec_total_supply() == old(self).spec_total_supply(),
            r is Ok <==> (old(self).spec_caller() == to || value == 0 || old(self).spec_balance_of(
                old(self).spec_caller(),
            ) >= value),
            r is Err ==> r == Err::<(), PSP22Error>(PSP22Error::InsufficientBalance),
            forall|a: AccountId| #[trigger]
                final(self).spec_balance_of(a) as int == (if r is Ok && old(self).spec_caller()
                    != to && value != 0 {
                    if a == to {
                        old(self).spec_balance_of(a) + value
                    } else if a == old(self).spec_caller() {
                        old(self).spec_balance_of(a) - value
                    } else {
                        old(self).spec_balance_of(a) as int
                    }
                } else {
                    old(self).spec_balance_of(a) as int
                }),
            forall|o: AccountId, s: AccountId| #[trigger]
                final(self).spec_allowance(o, s) == old(self).spec_allowance(o, s),
    ;

    /// Transfers `value` tokens from `from` to `to` on the caller's behalf,
    /// drawing on the allowance `from` granted to the caller whenever the two
    /// differ. An uncovered allowance is reported before an uncovered
    /// balance.
    fn transfer_from(
        &mut self,
        from: AccountId,
        to: AccountId,
        value: Balance,
        data: Vec<u8>,
    ) -> (r: Result<(), PSP22Error>)
        requires
            old(self).inv(),
        ensures
            final(self).inv(),
            final(self).spec_caller() == old(self).spec_caller(),
            final(self).spec_total_supply() == old(self).spec_total_supply(),
            r is Ok <==> (from == to || value == 0 || (old(self).spec_balance_of(from) >= value
                && (old(self).spec_caller() == from || old(self).spec_allowance(
                from,
                old(self).spec_caller(),
            ) >= value))),
            (!(from == to || value == 0) && old(self).spec_caller() != from && old(
                self,
            ).spec_allowance(from, old(self).spec_caller()) < value) ==> r == Err::<
                (),
                PSP22Error,
            >(PSP22Error::InsufficientAllowance),
            (!(from == to || value == 0) && (old(self).spec_caller() == from || old(
                self,
            ).spec_allowance(from, old(self).spec_caller()) >= value) && old(self).spec_balance_of(
                from,
            ) < value) ==> r == Err::<(), PSP22Error>(PSP22Error::InsufficientBalance),
            forall|a: AccountId| #[trigger]
                final(self).spec_balance_of(a) as int == (if r is Ok && from != to && value != 0 {
                    if a == to {
                        old(self).spec_balance_of(a) + value
                    } else if a == from {
                        old(self).spec_balance_of(a) - value
                    } else {
                        old(self).spec_balance_of(a) as int
                    }
                } else {
                    old(self).spec_balance_of(a) as int
                }),
            forall|o: AccountId, s: AccountId| #[trigger]
                final(self).spec_allowance(o, s) as int == (if r is Ok && from != to && value != 0
                    && old(self).spec_caller() != from && o == from && s == old(
                    self,
                ).spec_caller() {
                    old(self).spec_allowance(o, s) - value
                } else {
                    old(self).spec_allowance(o, s) as int
                }),
    ;

    /// Sets the allowance granted by the caller to `spender` to exactly
    /// `value`, overwriting any earlier grant; granting to oneself is a
    /// no-op.
    fn approve(&mut self, spender: AccountId, value: Balance) -> (r: Result<(), PSP22Error>)
        requires
            old(self).inv(),
        ensures
            final(self).inv(),
            final(self).spec_caller() == old(self).spec_caller(),
            final(self).spec_total_supply() == old(self).spec_total_supply(),
            r is Ok,
            forall|a: AccountId| #[trigger]
                final(self).spec_balance_of(a) == old(self).spec_balance_of(a),
            forall|o: AccountId, s: AccountId| #[trigger]
                final(self).spec_allowance(o, s) == (if old(self).spec_caller() != spender && o
                    == old(self).spec_caller() && s == spender {
                    value
                } else {
                    old(self).spec_allowance(o, s)
                }),
    ;

    /// Raises the allowance granted by the caller to `spender` by
    /// `delta_value`.
    fn increase_allowance(&mut self, spender: AccountId, delta_value: Balance) -> (r: Result<
        (),
        PSP22Error,
    >)
        requires
            old(self).inv(),
            old(self).spec_caller() != spender ==> old(self).spec_allowance(
                old(self).spec_caller(),
                spender,
            ) + delta_value <= u128::MAX,
        ensures
            final(self).inv(),
            final(self).spec_caller() == old(self).spec_caller(),
            final(self).spec_total_supply() == old(self).spec_total_supply(),
            r is Ok,
            forall|a: AccountId| #[trigger]
                final(self).spec_balance_of(a) == old(self).spec_balance_of(a),
            forall|o: AccountId, s: AccountId| #[trigger]
                final(self).spec_allowance(o, s) as int == (if old(self).spec_caller() != spender
                    && o == old(self).spec_caller() && s == spender {
                    old(self).spec_allowance(o, s) + delta_value
                } else {
                    old(self).spec_allowance(o, s) as int
                }),
    ;

    /// Lowers the allowance granted by the caller to `spender` by
    /// `delta_value`, failing when the grant does not cover the reduction.
    fn decrease_allowance(&mut self, spender: AccountId, delta_value: Balance) -> (r: Result<
        (),
        PSP22Error,
    >)
        requires
            old(self).inv(),
        ensures
            final(self).inv(),
            final(self).spec_caller() == old(self).spec_caller(),
            final(self).spec_total_supply() == old(self).spec_total_supply(),
            r is Ok <==> (old(self).spec_caller() == spender || delta_value == 0 || old(
                self,
            ).spec_allowance(old(self).spec_caller(), spender) >= delta_value),
            r is Err ==> r == Err::<(), PSP22Error>(PSP22Error::InsufficientAllowance),
            forall|a: AccountId| #[trigger]
                final(self).spec_balance_of(a) == old(self).spec_balance_of(a),
            forall|o: AccountId, s: AccountId| #[trigger]
                final(self).spec_allowance(o, s) as int == (if r is Ok && old(self).spec_caller()
                    != spender && delta_value != 0 && o == old(self).spec_caller() && s == spender {
                    old(self).spec_allowance(o, s) - delta_value
                } else {
                    old(self).spec_allowance(o, s) as int
                }),
    ;
}

/// The optional metadata extension of the PSP22 standard.
pub trait PSP22Metadata: Sized {
    /// The token's human-readable name, when one was set.
    spec fn spec_token_name(&self) -> Option<String>;

    /// The token's ticker symbol, when one was set.
    spec fn spec_token_symbol(&self) -> Option<String>;

    /// The number of decimals the token's amounts are displayed with.
    spec fn spec_token_decimals(&self) -> u8;

    /// Returns the token name.
    fn token_name(&self) -> (r: Option<String>)
        ensures
            r == self.spec_token_name(),
    ;

    /// Returns the token symbol.
    fn token_symbol(&self) -> (r: Option<String>)
        ensures
            r == self.spec_token_symbol(),
    ;

    /// Returns the token's decimal count.
    fn token_decimals(&self) -> (r: u8)
        ensures
            r == self.spec_token_decimals(),
    ;
}

/// The optional burn extension of the PSP22 standard: burns `value` tokens
/// from the caller's account, failing with insufficient balance when the
/// account does not hold them.
pub trait PSP22Burnable: Sized {
    /// Burns `value` of the caller's tokens.
    fn burn(&mut self, value: Balance) -> Result<(), PSP22Error>;
}

/// The optional mint extension of the PSP22 standard: mints `value` tokens to
/// the caller's account, failing when the total supply would pass the largest
/// representable amount.
pub trait PSP22Mintable: Sized {
    /// Mints `value` new tokens to the caller.
    fn mint(&mut self, value: Balance) -> Result<(), PSP22Error>;
}

} // verus!

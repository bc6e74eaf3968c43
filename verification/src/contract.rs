use vstd::prelude::*;
use crate::data::PSP22Data;
use crate::errors::PSP22Error;
use crate::traits::{PSP22, PSP22Metadata};
use crate::types::{AccountId, Balance};

verus! {

/// The execution environment of a token contract, reduced to what the logic
/// reads from it: the identity of the account making the call.
pub struct Env(AccountId);

impl Env {
    /// The caller this environment reports.
    pub closed spec fn spec_caller(&self) -> AccountId {
        self.0
    }

    /// Returns the identity of the calling account.
    pub fn caller(&self) -> (r: AccountId)
        ensures
            r == self.spec_caller(),
    {
        self.0
    }
}

/// A token contract: a PSP22 ledger together with its metadata and the
/// environment it executes in. The ledger does the accounting; this type
/// binds each transaction to the environment's caller.
pub struct Token {
    data: PSP22Data,
    name: Option<String>,
    symbol: Option<String>,
    decimals: u8,
    env: Env,
}

impl Token {
    /// The environment this token executes in.
    pub fn env(&self) -> (r: &Env)
        ensures
            r.spec_caller() == self.spec_caller(),
    {
        &self.env
    }

    /// Creates a token with `supply` balance, initially held by `caller`,
    /// carrying the given metadata.
    pub fn new(
        supply: Balance,
        name: Option<String>,
        symbol: Option<String>,
        decimals: u8,
        caller: AccountId,
    ) -> (r: Token)
        ensures
            r.inv(),
            r.spec_caller() == caller,
            r.spec_total_supply() == supply,
            forall|a: AccountId| #[trigger] r.spec_balance_of(a) == (if a == caller {
                supply
            } else {
                0
            }),
            forall|o: AccountId, s: AccountId| #[trigger] r.spec_allowance(o, s) == 0,
            r.spec_token_name() == name,
            r.spec_token_symbol() == symbol,
            r.spec_token_decimals() == decimals,
    {
        Token { env: Env(caller), data: PSP22Data::new(supply, caller), name, symbol, decimals }
    }
}

impl PSP22 for Token {
    closed spec fn spec_caller(&self) -> AccountId {
        self.env.spec_caller()
    }

    closed spec fn spec_total_supply(&self) -> Balance {
        self.data.spec_total_supply()
    }

    closed spec fn spec_balance_of(&self, owner: AccountId) -> Balance {
        self.data.bal(owner)
    }

    closed spec fn spec_allowance(&self, owner: AccountId, spender: AccountId) -> Balance {
        self.data.alw(owner, spender)
    }

    closed spec fn inv(&self) -> bool {
        self.data.well_formed()
    }

    fn env(&self) -> (r: &Env) {
        &self.env
    }

    fn total_supply(&self) -> (r: Balance) {
        self.data.total_supply()
    }

    fn balance_of(&self, owner: AccountId) -> (r: Balance) {
        self.data.balance_of(owner)
    }

    fn allowance(&self, owner: AccountId, spender: AccountId) -> (r: Balance) {
        self.data.allowance(owner, spender)
    }

    fn transfer(&mut self, to: AccountId, value: Balance, _data: Vec<u8>) -> (r: Result<
        (),
        PSP22Error,
    >) {
        let caller: AccountId = self.env.caller();
        self.data.transfer(caller, to, value)
    }

    fn transfer_from(
        &mut self,
        from: AccountId,
        to: AccountId,
        value: Balance,
        _data: Vec<u8>,
    ) -> (r: Result<(), PSP22Error>) {
        let caller: AccountId = self.env.caller();
        self.data.transfer_from(caller, from, to, value)
    }

    fn approve(&mut self, spender: AccountId, value: Balance) -> (r: Result<(), PSP22Error>) {
        let caller: AccountId = self.env.caller();
        self.data.approve(caller, spender, value)
    }

    fn increase_allowance(&mut self, spender: AccountId, delta_value: Balance) -> (r: Result<
        (),
        PSP22Error,
    >) {
        let caller: AccountId = self.env.caller();
        self.data.increase_allowance(caller, spender, delta_value)
    }

    fn decrease_allowance(&mut self, spender: AccountId, delta_value: Balance) -> (r: Result<
        (),
        PSP22Error,
    >) {
        let caller: AccountId = self.env.caller();
        self.data.decrease_allowance(caller, spender, delta_value)
    }
}

impl PSP22Metadata for Token {
    closed spec fn spec_token_name(&self) -> Option<String> {
        self.name
    }

    closed spec fn spec_token_symbol(&self) -> Option<String> {
        self.symbol
    }

    closed spec fn spec_token_decimals(&self) -> u8 {
        self.decimals
    }

    fn token_name(&self) -> (r: Option<String>) {
        match &self.name {
            Some(s) => Some(s.clone()),
            None => None,
        }
    }

    fn token_symbol(&self) -> (r: Option<String>) {
        match &self.symbol {
            Some(s) => Some(s.clone()),
            None => None,
        }
    }

    fn token_decimals(&self) -> (r: u8) {
        self.decimals
    }
}

} // verus!

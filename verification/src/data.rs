use vstd::prelude::*;
use std::collections::HashMap;
use crate::errors::PSP22Error;
use crate::sums::{
    lemma_map_sum_entry_bound, lemma_map_sum_insert, lemma_map_sum_remove,
    lemma_map_sum_two_entries_bound, map_sum,
};
use crate::types::{AccountId, Balance};

verus! {

/// Packs an (owner, spender) pair into a single allowance-table key.
pub open spec fn spec_pair_key(owner: AccountId, spender: AccountId) -> u64 {
    ((owner as u64) * 0x1_0000_0000 + (spender as u64)) as u64
}

/// Distinct (owner, spender) pairs always pack to distinct keys.
pub proof fn lemma_pair_key_injective(o1: AccountId, s1: AccountId, o2: AccountId, s2: AccountId)
    requires
        spec_pair_key(o1, s1) == spec_pair_key(o2, s2),
    ensures
        o1 == o2 && s1 == s2,
{
    assert((o1 as u64) == (o2 as u64) && (s1 as u64) == (s2 as u64)) by (nonlinear_arith)
        requires
            (o1 as u64) * 0x1_0000_0000 + (s1 as u64) == (o2 as u64) * 0x1_0000_0000 + (s2
                as u64),
            (s1 as u64) < 0x1_0000_0000,
            (s2 as u64) < 0x1_0000_0000,
    ;
}

/// No other (owner, spender) pair packs to the key of this one.
pub proof fn lemma_pair_key_unique(owner: AccountId, spender: AccountId)
    ensures
        forall|o: AccountId, s: AccountId|
            !(o == owner && s == spender) ==> #[trigger] spec_pair_key(o, s) != spec_pair_key(
                owner,
                spender,
            ),
{
    assert forall|o: AccountId, s: AccountId|
        !(o == owner && s == spender) implies #[trigger] spec_pair_key(o, s) != spec_pair_key(
        owner,
        spender,
    ) by {
        if spec_pair_key(o, s) == spec_pair_key(owner, spender) {
            lemma_pair_key_injective(o, s, owner, spender);
        }
    }
}

pub(crate) fn pair_key(owner: AccountId, spender: AccountId) -> (r: u64)
    ensures
        r == spec_pair_key(owner, spender),
{
    (owner as u64) * 0x1_0000_0000 + (spender as u64)
}

/// The internal logic of a PSP22-style fungible token: the state of all
/// account balances and allowances, with one method per transaction kind.
///
/// The code runs outside any contract plumbing, so the caller's identity
/// cannot be read from an environment; every method that needs to know the
/// caller takes it as an argument.
pub struct PSP22Data {
    total_supply: Balance,
    balances: HashMap<AccountId, Balance>,
    allowances: HashMap<u64, Balance>,
}

impl PSP22Data {
    /// The balance table as a mathematical map.
    pub closed spec fn spec_balances(&self) -> Map<AccountId, Balance> {
        self.balances@
    }

    /// The allowance table as a mathematical map over packed keys.
    pub closed spec fn spec_allowances(&self) -> Map<u64, Balance> {
        self.allowances@
    }

    /// The recorded total supply.
    pub closed spec fn spec_total_supply(&self) -> Balance {
        self.total_supply
    }

    /// Balance of `owner`, an absent entry reading as zero.
    pub open spec fn bal(&self, owner: AccountId) -> Balance {
        if self.spec_balances().contains_key(owner) {
            self.spec_balances()[owner]
        } else {
            0
        }
    }

    /// Allowance granted by `owner` to `spender`, absent reading as zero.
    pub open spec fn alw(&self, owner: AccountId, spender: AccountId) -> Balance {
        if self.spec_allowances().contains_key(spec_pair_key(owner, spender)) {
            self.spec_allowances()[spec_pair_key(owner, spender)]
        } else {
            0
        }
    }

    /// The recorded total supply is exactly the sum of all balances, so no
    /// single balance (and no pair of them) can exceed it.
    pub open spec fn well_formed(&self) -> bool {
        map_sum(self.spec_balances()) == self.spec_total_supply()
    }
}

/// Per-account balance after `value` moved from `from` to `to` (a
/// self-transfer and a zero-amount transfer move nothing).
pub open spec fn spec_bal_after_move(
    pre: PSP22Data,
    from: AccountId,
    to: AccountId,
    value: Balance,
    a: AccountId,
) -> int {
    if from == to || value == 0 {
        pre.bal(a) as int
    } else if a == to {
        pre.bal(a) + value
    } else if a == from {
        pre.bal(a) - value
    } else {
        pre.bal(a) as int
    }
}

/// The balances of `post` are those of `pre` with `value` moved from `from`
/// to `to`; the total supply is untouched.
pub open spec fn spec_moved(
    pre: PSP22Data,
    post: PSP22Data,
    from: AccountId,
    to: AccountId,
    value: Balance,
) -> bool {
    &&& post.spec_total_supply() == pre.spec_total_supply()
    &&& forall|a: AccountId| #[trigger] post.bal(a) == spec_bal_after_move(pre, from, to, value, a)
}

/// Every allowance of `post` equals the one of `pre`.
pub open spec fn spec_allowances_unchanged(pre: PSP22Data, post: PSP22Data) -> bool {
    forall|o: AccountId, s: AccountId| #[trigger] post.alw(o, s) == pre.alw(o, s)
}

/// Every balance of `post` equals the one of `pre`, as does the total supply.
pub open spec fn spec_balances_unchanged(pre: PSP22Data, post: PSP22Data) -> bool {
    &&& post.spec_total_supply() == pre.spec_total_supply()
    &&& forall|a: AccountId| #[trigger] post.bal(a) == pre.bal(a)
}

/// The allowance granted by `owner` to `spender` fell by `value`, every other
/// allowance kept its value. Nothing changes when no tokens moved (a zero
/// amount, a self-transfer, or a spender drawing from their own account).
pub open spec fn spec_allowance_spent(
    pre: PSP22Data,
    post: PSP22Data,
    owner: AccountId,
    spender: AccountId,
    to: AccountId,
    value: Balance,
) -> bool {
    forall|o: AccountId, s: AccountId| #[trigger]
        post.alw(o, s) as int == if owner != to && value != 0 && spender != owner && o == owner
            && s == spender {
            pre.alw(o, s) - value
        } else {
            pre.alw(o, s) as int
        }
}

impl PSP22Data {
    /// Creates a token with `supply` balance, initially held by the `creator`
    /// account.
    pub fn new(supply: Balance, creator: AccountId) -> (r: PSP22Data)
        ensures
            r.well_formed(),
            r.spec_total_supply() == supply,
            forall|a: AccountId| #[trigger] r.bal(a) == (if a == creator {
                supply
            } else {
                0
            }),
            forall|o: AccountId, s: AccountId| #[trigger] r.alw(o, s) == 0,
    {
        let mut data = PSP22Data {
            total_supply: supply,
            balances: HashMap::new(),
            allowances: HashMap::new(),
        };
        data.balances.insert(creator, supply);
        proof {
            lemma_map_sum_insert(Map::<AccountId, Balance>::empty(), creator, supply);
        }
        data
    }

    /// The total token supply.
    pub fn total_supply(&self) -> (r: Balance)
        ensures
            r == self.spec_total_supply(),
    {
        self.total_supply
    }

    /// The account balance of `owner`; zero for a non-existent account.
    pub fn balance_of(&self, owner: AccountId) -> (r: Balance)
        ensures
            r == self.bal(owner),
    {
        match self.balances.get(&owner) {
            Some(balance) => *balance,
            None => 0,
        }
    }

    /// The amount `spender` may still withdraw from `owner`; zero when no
    /// allowance was set.
    pub fn allowance(&self, owner: AccountId, spender: AccountId) -> (r: Balance)
        ensures
            r == self.alw(owner, spender),
    {
        let key: u64 = pair_key(owner, spender);
        match self.allowances.get(&key) {
            Some(allowance) => *allowance,
            None => 0,
        }
    }

    /// Debits `value` from `from` and credits it to `to`; both must be
    /// distinct accounts, the amount positive and covered by `from`'s balance.
    fn move_balance(&mut self, from: AccountId, to: AccountId, value: Balance)
        requires
            old(self).well_formed(),
            from != to,
            value > 0,
            old(self).bal(from) >= value,
        ensures
            final(self).well_formed(),
            spec_moved(*old(self), *final(self), from, to, value),
            spec_allowances_unchanged(*old(self), *final(self)),
    {
        let ghost pre = *self;
        let from_balance: Balance = self.balance_of(from);
        if from_balance == value {
            self.balances.remove(&from);
            proof {
                lemma_map_sum_remove(pre.spec_balances(), from);
            }
        } else {
            self.balances.insert(from, from_balance - value);
            proof {
                lemma_map_sum_insert(pre.spec_balances(), from, (from_balance - value) as u128);
            }
        }
        let ghost mid = *self;
        let to_balance: Balance = self.balance_of(to);
        proof {
            if pre.spec_balances().dom().contains(to) {
                lemma_map_sum_two_entries_bound(pre.spec_balances(), from, to);
            }
        }
        self.balances.insert(to, to_balance + value);
        proof {
            lemma_map_sum_insert(mid.spec_balances(), to, (to_balance + value) as u128);
        }
    }

    /// Transfers `value` tokens from `caller` to `to`. A self-transfer and a
    /// zero amount succeed without moving anything.
    pub fn transfer(&mut self, caller: AccountId, to: AccountId, value: Balance) -> (r: Result<
        (),
        PSP22Error,
    >)
        requires
            old(self).well_formed(),
        ensures
            final(self).well_formed(),
            r is Ok <==> (caller == to || value == 0 || old(self).bal(caller) >= value),
            r is Err ==> *final(self) == *old(self) && r == Err::<(), PSP22Error>(
                PSP22Error::InsufficientBalance,
            ),
            r is Ok ==> spec_moved(*old(self), *final(self), caller, to, value),
            spec_allowances_unchanged(*old(self), *final(self)),
    {
        if caller == to || value == 0 {
            return Ok(());
        }
        let from_balance: Balance = self.balance_of(caller);
        if from_balance < value {
            return Err(PSP22Error::InsufficientBalance);
        }
        self.move_balance(caller, to, value);
        Ok(())
    }

    /// Transfers `value` tokens from `from` to `to` on behalf of `caller`,
    /// drawing on the allowance `from` granted to `caller` whenever the two
    /// differ. The allowance is checked, and reported, before the balance.
    pub fn transfer_from(
        &mut self,
        caller: AccountId,
        from: AccountId,
        to: AccountId,
        value: Balance,
    ) -> (r: Result<(), PSP22Error>)
        requires
            old(self).well_formed(),
        ensures
            final(self).well_formed(),
            r is Ok <==> (from == to || value == 0 || (old(self).bal(from) >= value && (caller
                == from || old(self).alw(from, caller) >= value))),
            r is Err ==> *final(self) == *old(self),
            (!(from == to || value == 0) && caller != from && old(self).alw(from, caller) < value)
                ==> r == Err::<(), PSP22Error>(PSP22Error::InsufficientAllowance),
            (!(from == to || value == 0) && (caller == from || old(self).alw(from, caller) >= value)
                && old(self).bal(from) < value) ==> r == Err::<(), PSP22Error>(
                PSP22Error::InsufficientBalance,
            ),
            r is Ok ==> spec_moved(*old(self), *final(self), from, to, value),
            r is Ok ==> spec_allowance_spent(*old(self), *final(self), from, caller, to, value),
    {
        if from == to || value == 0 {
            return Ok(());
        }
        if caller == from {
            return self.transfer(caller, to, value);
        }
        let allowance: Balance = self.allowance(from, caller);
        if allowance < value {
            return Err(PSP22Error::InsufficientAllowance);
        }
        let from_balance: Balance = self.balance_of(from);
        if from_balance < value {
            return Err(PSP22Error::InsufficientBalance);
        }

        let ghost pre = *self;
        let key: u64 = pair_key(from, caller);
        if allowance == value {
            self.allowances.remove(&key);
        } else {
            self.allowances.insert(key, allowance - value);
        }
        proof {
            lemma_pair_key_unique(from, caller);
        }
        self.move_balance(from, to, value);
        Ok(())
    }

    /// Sets the allowance granted by `owner` to `spender` to exactly `value`,
    /// overwriting any earlier grant. Granting to oneself is a no-op.
    pub fn approve(&mut self, owner: AccountId, spender: AccountId, value: Balance) -> (r: Result<
        (),
        PSP22Error,
    >)
        requires
            old(self).well_formed(),
        ensures
            final(self).well_formed(),
            r is Ok,
            spec_balances_unchanged(*old(self), *final(self)),
            forall|o: AccountId, s: AccountId| #[trigger]
                final(self).alw(o, s) == (if owner != spender && o == owner && s == spender {
                    value
                } else {
                    old(self).alw(o, s)
                }),
    {
        if owner == spender {
            return Ok(());
        }
        let key: u64 = pair_key(owner, spender);
        if value == 0 {
            self.allowances.remove(&key);
        } else {
            self.allowances.insert(key, value);
        }
        proof {
            lemma_pair_key_unique(owner, spender);
        }
        Ok(())
    }

    /// Raises the allowance granted by `owner` to `spender` by `delta_value`.
    pub fn increase_allowance(
        &mut self,
        owner: AccountId,
        spender: AccountId,
        delta_value: Balance,
    ) -> (r: Result<(), PSP22Error>)
        requires
            old(self).well_formed(),
            owner != spender ==> old(self).alw(owner, spender) + delta_value <= u128::MAX,
        ensures
            final(self).well_formed(),
            r is Ok,
            spec_balances_unchanged(*old(self), *final(self)),
            forall|o: AccountId, s: AccountId| #[trigger]
                final(self).alw(o, s) as int == if owner != spender && o == owner && s == spender {
                    old(self).alw(o, s) + delta_value
                } else {
                    old(self).alw(o, s) as int
                },
    {
        if owner == spender || delta_value == 0 {
            return Ok(());
        }
        let allowance: Balance = self.allowance(owner, spender) + delta_value;
        self.allowances.insert(pair_key(owner, spender), allowance);
        proof {
            lemma_pair_key_unique(owner, spender);
        }
        Ok(())
    }

    /// Lowers the allowance granted by `owner` to `spender` by `delta_value`,
    /// failing when the grant does not cover the reduction.
    pub fn decrease_allowance(
        &mut self,
        owner: AccountId,
        spender: AccountId,
        delta_value: Balance,
    ) -> (r: Result<(), PSP22Error>)
        requires
            old(self).well_formed(),
        ensures
            final(self).well_formed(),
            r is Ok <==> (owner == spender || delta_value == 0 || old(self).alw(owner, spender)
                >= delta_value),
            r is Err ==> *final(self) == *old(self) && r == Err::<(), PSP22Error>(
                PSP22Error::InsufficientAllowance,
            ),
            spec_balances_unchanged(*old(self), *final(self)),
            forall|o: AccountId, s: AccountId| #[trigger]
                final(self).alw(o, s) as int == if owner != spender && delta_value != 0 && old(
                    self,
                ).alw(owner, spender) >= delta_value && o == owner && s == spender {
                    old(self).alw(o, s) - delta_value
                } else {
                    old(self).alw(o, s) as int
                },
    {
        if owner == spender || delta_value == 0 {
            return Ok(());
        }
        let allowance: Balance = self.allowance(owner, spender);
        if allowance < delta_value {
            return Err(PSP22Error::InsufficientAllowance);
        }
        let amount: Balance = allowance - delta_value;
        let key: u64 = pair_key(owner, spender);
        if amount == 0 {
            self.allowances.remove(&key);
        } else {
            self.allowances.insert(key, amount);
        }
        proof {
            lemma_pair_key_unique(owner, spender);
        }
        Ok(())
    }

    /// Mints `value` new tokens to the `to` account, failing when the total
    /// supply would pass the largest representable amount.
    pub fn mint(&mut self, to: AccountId, value: Balance) -> (r: Result<(), PSP22Error>)
        requires
            old(self).well_formed(),
        ensures
            final(self).well_formed(),
            r is Ok <==> old(self).spec_total_supply() + value <= u128::MAX,
            r is Err ==> *final(self) == *old(self) && (r matches Err(e) && e is Custom),
            r is Ok ==> final(self).spec_total_supply() == old(self).spec_total_supply() + value,
            r is Ok ==> forall|a: AccountId| #[trigger]
                final(self).bal(a) as int == old(self).bal(a) + (if a == to {
                    value as int
                } else {
                    0
                }),
            spec_allowances_unchanged(*old(self), *final(self)),
    {
        if value == 0 {
            return Ok(());
        }
        if u128::MAX - self.total_supply < value {
            return Err(
                PSP22Error::Custom(
                    "Max PSP22 supply exceeded. Max supply limited to 2^128-1.".to_string(),
                ),
            );
        }
        let ghost pre = *self;
        let new_supply: Balance = self.total_supply + value;
        self.total_supply = new_supply;
        let to_balance: Balance = self.balance_of(to);
        proof {
            if pre.spec_balances().dom().contains(to) {
                lemma_map_sum_entry_bound(pre.spec_balances(), to);
            }
        }
        let new_balance: Balance = to_balance + value;
        self.balances.insert(to, new_balance);
        proof {
            lemma_map_sum_insert(pre.spec_balances(), to, new_balance);
        }
        Ok(())
    }

    /// Burns `value` tokens held by the `from` account.
    pub fn burn(&mut self, from: AccountId, value: Balance) -> (r: Result<(), PSP22Error>)
        requires
            old(self).well_formed(),
        ensures
            final(self).well_formed(),
            r is Ok <==> (value == 0 || old(self).bal(from) >= value),
            r is Err ==> *final(self) == *old(self) && r == Err::<(), PSP22Error>(
                PSP22Error::InsufficientBalance,
            ),
            r is Ok ==> final(self).spec_total_supply() == old(self).spec_total_supply() - value,
            r is Ok ==> forall|a: AccountId| #[trigger]
                final(self).bal(a) as int == old(self).bal(a) - (if a == from {
                    value as int
                } else {
                    0
                }),
            spec_allowances_unchanged(*old(self), *final(self)),
    {
        if value == 0 {
            return Ok(());
        }
        let balance: Balance = self.balance_of(from);
        if balance < value {
            return Err(PSP22Error::InsufficientBalance);
        }
        let ghost pre = *self;
        proof {
            lemma_map_sum_entry_bound(pre.spec_balances(), from);
        }
        if balance == value {
            self.balances.remove(&from);
            proof {
                lemma_map_sum_remove(pre.spec_balances(), from);
            }
        } else {
            self.balances.insert(from, balance - value);
            proof {
                lemma_map_sum_insert(pre.spec_balances(), from, (balance - value) as u128);
            }
        }
        self.total_supply = self.total_supply - value;
        Ok(())
    }
}

} // verus!

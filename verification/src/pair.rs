use vstd::prelude::*;
use std::collections::HashMap;
use crate::data::{
    lemma_pair_key_unique, pair_key, spec_pair_key, PSP22Data,
};
use crate::errors::TradingPairError;
use crate::sums::{
    lemma_map_sum_entry_bound, lemma_map_sum_insert, lemma_map_sum_two_entries_bound, map_sum,
};
use crate::types::{AccountId, Balance};

verus! {

/// One whole unit in the fixed-point representation used for fees, slippage
/// tolerances and share amounts (a denominator of 10^12).
pub const FEE_UNIT: Balance = 1000000000000;

/// Shares minted by the very first liquidity deposit, whatever its amounts.
pub const BOOTSTRAP_SHARES: Balance = 1000 * 1000000000000;

/// Holding at least this balance of the reference asset makes a caller
/// eligible for the loyalty discount on the pool fee.
pub const PANX_DISCOUNT_THRESHOLD: Balance = 3500 * 1000000000000;

/// Fee rate at or below which the loyalty discount halves the fee; above it,
/// the discount takes one percentage point off instead.
pub const DISCOUNT_FEE_CUTOFF: Balance = 1400000000000;

/// Fraction of a swap's gross output diverted to the fee vault, fixed at
/// construction by the same integer division the pool has always used.
pub const TRADERS_FEE_RATE: Balance = 25000000000 / 1000000000000;

/// The fee as a whole percentage: the fixed-point rate floored to units.
pub open spec fn spec_actual_fee(fee: Balance) -> int {
    fee as int / FEE_UNIT as int
}

/// The percentage of the incoming amount kept after the pool fee, with the
/// loyalty discount applied when the caller's reference-asset balance reaches
/// the threshold.
pub open spec fn spec_fee_multiplier(fee: Balance, panx_balance: Balance) -> int {
    if panx_balance >= PANX_DISCOUNT_THRESHOLD {
        if fee <= DISCOUNT_FEE_CUTOFF {
            100 - spec_actual_fee(fee) / 2
        } else {
            100 - (spec_actual_fee(fee) - 1)
        }
    } else {
        100 - spec_actual_fee(fee)
    }
}

/// The incoming amount scaled by the fee multiplier (a percentage, so the
/// value carries a factor of 100).
pub open spec fn spec_net_in(amount_in: Balance, fee: Balance, panx_balance: Balance) -> int {
    amount_in * spec_fee_multiplier(fee, panx_balance)
}

/// Gross output of the constant-product formula, scaled to absorb the
/// percentage factor carried by the net input.
pub open spec fn spec_amount_out(
    amount_in: Balance,
    fee: Balance,
    panx_balance: Balance,
    reserve_in: Balance,
    reserve_out: Balance,
) -> int {
    let net = spec_net_in(amount_in, fee, panx_balance);
    (net * reserve_out) / (reserve_in * 100 + net)
}

/// Exactly what a quote returns: the gross output when every checked step
/// fits, otherwise the error of the first step that does not. The checks
/// stand in the order the computation performs them.
pub open spec fn spec_quote_outcome(
    amount_in: Balance,
    fee: Balance,
    panx_balance: Balance,
    reserve_in: Balance,
    reserve_out: Balance,
) -> Result<Balance, TradingPairError> {
    let net = spec_net_in(amount_in, fee, panx_balance);
    if spec_actual_fee(fee) > 100 {
        Err(TradingPairError::Overflow)
    } else if amount_in * (100 - spec_actual_fee(fee)) > u128::MAX {
        Err(TradingPairError::Overflow)
    } else if net > u128::MAX {
        Err(TradingPairError::Overflow)
    } else if net * reserve_out > u128::MAX {
        Err(TradingPairError::Overflow)
    } else if reserve_in * 100 > u128::MAX {
        Err(TradingPairError::Overflow)
    } else if reserve_in * 100 + net > u128::MAX {
        Err(TradingPairError::Overflow)
    } else if reserve_in * 100 + net == 0 {
        Err(TradingPairError::DivisionByZero)
    } else {
        Ok(spec_amount_out(amount_in, fee, panx_balance, reserve_in, reserve_out) as u128)
    }
}

/// The absolute difference of two amounts.
pub open spec fn spec_abs_diff(value1: Balance, value2: Balance) -> int {
    if value1 >= value2 {
        value1 - value2
    } else {
        value2 - value1
    }
}

/// The percentage difference between two amounts, in the same fixed-point
/// unit as fees: one hundred times the absolute difference (carried to
/// fixed-point resolution) over the average of the two.
pub open spec fn spec_percentage_diff(value1: Balance, value2: Balance) -> int {
    100 * ((spec_abs_diff(value1, value2) * FEE_UNIT) / ((value1 + value2) / 2))
}

/// Exactly what the difference check returns: the percentage difference when
/// every checked step fits and the average is not zero, otherwise the error
/// of the first step that fails.
pub open spec fn spec_diff_outcome(value1: Balance, value2: Balance) -> Result<
    Balance,
    TradingPairError,
> {
    if spec_abs_diff(value1, value2) * FEE_UNIT > u128::MAX {
        Err(TradingPairError::Overflow)
    } else if value1 + value2 > u128::MAX {
        Err(TradingPairError::Overflow)
    } else if (value1 + value2) / 2 == 0 {
        Err(TradingPairError::DivisionByZero)
    } else if spec_percentage_diff(value1, value2) > u128::MAX {
        Err(TradingPairError::Overflow)
    } else {
        Ok(spec_percentage_diff(value1, value2) as u128)
    }
}

/// Pure pricing step of the engine: the gross amount of the outgoing asset
/// for `amount_in` of the incoming one, from the two live reserves, the pool
/// fee, and the caller's balance of the reference asset (which decides the
/// loyalty discount). Every multiplicative step is overflow-checked and any
/// failure aborts the quote.
pub fn quote_amount_out(
    amount_in: Balance,
    fee: Balance,
    panx_balance: Balance,
    reserve_in: Balance,
    reserve_out: Balance,
) -> (r: Result<Balance, TradingPairError>)
    ensures
        r == spec_quote_outcome(amount_in, fee, panx_balance, reserve_in, reserve_out),
{
    let actual_fee: Balance = fee / FEE_UNIT;
    if actual_fee > 100 {
        return Err(TradingPairError::Overflow);
    }
    let mut amount_in_with_lp_fees: Balance = match amount_in.checked_mul(100 - actual_fee) {
        Some(v) => v,
        None => {
            return Err(TradingPairError::Overflow);
        },
    };
    if panx_balance >= PANX_DISCOUNT_THRESHOLD {
        if fee <= DISCOUNT_FEE_CUTOFF {
            amount_in_with_lp_fees = match amount_in.checked_mul(100 - actual_fee / 2) {
                Some(v) => v,
                None => {
                    return Err(TradingPairError::Overflow);
                },
            };
        }
        if fee > DISCOUNT_FEE_CUTOFF {
            amount_in_with_lp_fees = match amount_in.checked_mul(100 - (actual_fee - 1)) {
                Some(v) => v,
                None => {
                    return Err(TradingPairError::Overflow);
                },
            };
        }
    }
    let numerator: Balance = match amount_in_with_lp_fees.checked_mul(reserve_out) {
        Some(v) => v,
        None => {
            return Err(TradingPairError::Overflow);
        },
    };
    let scaled_reserve: Balance = match reserve_in.checked_mul(100) {
        Some(v) => v,
        None => {
            return Err(TradingPairError::Overflow);
        },
    };
    let denominator: Balance = match scaled_reserve.checked_add(amount_in_with_lp_fees) {
        Some(v) => v,
        None => {
            return Err(TradingPairError::Overflow);
        },
    };
    match numerator.checked_div(denominator) {
        Some(v) => Ok(v),
        None => Err(TradingPairError::DivisionByZero),
    }
}

/// A proportional part of a reserve never exceeds the reserve: with
/// `part <= whole`, the floored `(part * r) / whole` lies between 0 and `r`.
pub proof fn lemma_proportion_bounded(part: int, whole: int, r: int)
    requires
        0 <= part <= whole,
        0 < whole,
        0 <= r,
    ensures
        0 <= (part * r) / whole <= r,
{
    vstd::arithmetic::mul::lemma_mul_inequality(part, whole, r);
    vstd::arithmetic::div_mod::lemma_div_is_ordered(part * r, whole * r, whole);
    vstd::arithmetic::div_mod::lemma_div_multiples_vanish(r, whole);
    vstd::arithmetic::mul::lemma_mul_nonnegative(part, r);
    vstd::arithmetic::div_mod::lemma_div_pos_is_pos(part * r, whole);
    assert(whole * r == r * whole) by (nonlinear_arith);
}

/// Exactly what the one-asset withdrawable-amount computation returns: the
/// holder's proportional part of the reserve, or the error of the checked
/// step that failed.
pub open spec fn spec_withdraw_outcome_one(
    share_amount: Balance,
    reserve: Balance,
    total: Balance,
) -> Result<Balance, TradingPairError> {
    if share_amount * reserve > u128::MAX {
        Err(TradingPairError::Overflow)
    } else if total == 0 {
        Err(TradingPairError::DivisionByZero)
    } else {
        Ok(((share_amount * reserve) / (total as int)) as u128)
    }
}

/// The two-asset withdrawable amounts, first asset computed first.
pub open spec fn spec_withdraw_outcome_both(
    share_amount: Balance,
    reserve1: Balance,
    reserve2: Balance,
    total: Balance,
) -> Result<(Balance, Balance), TradingPairError> {
    match spec_withdraw_outcome_one(share_amount, reserve1, total) {
        Err(e) => Err(e),
        Ok(amount1) => match spec_withdraw_outcome_one(share_amount, reserve2, total) {
            Err(e) => Err(e),
            Ok(amount2) => Ok((amount1, amount2)),
        },
    }
}

/// A successful quote never exceeds the outgoing reserve: the pool can
/// always pay what the pricing engine promises.
pub proof fn lemma_quote_bounded(
    amount_in: Balance,
    fee: Balance,
    panx_balance: Balance,
    reserve_in: Balance,
    reserve_out: Balance,
)
    requires
        spec_quote_outcome(amount_in, fee, panx_balance, reserve_in, reserve_out) is Ok,
    ensures
        0 <= spec_amount_out(amount_in, fee, panx_balance, reserve_in, reserve_out) <= reserve_out,
{
    let af = spec_actual_fee(fee);
    let mult = spec_fee_multiplier(fee, panx_balance);
    let net = spec_net_in(amount_in, fee, panx_balance);
    let den = reserve_in * 100 + net;
    let num = net * reserve_out;
    vstd::arithmetic::div_mod::lemma_div_pos_is_pos(fee as int, FEE_UNIT as int);
    assert(mult >= 0) by {
        if panx_balance >= PANX_DISCOUNT_THRESHOLD && fee <= DISCOUNT_FEE_CUTOFF {
            vstd::arithmetic::div_mod::lemma_div_pos_is_pos(af, 2);
            vstd::arithmetic::div_mod::lemma_div_nonincreasing(af, 2);
        }
    }
    vstd::arithmetic::mul::lemma_mul_nonnegative(amount_in as int, mult);
    vstd::arithmetic::mul::lemma_mul_nonnegative(net, reserve_out as int);
    vstd::arithmetic::div_mod::lemma_div_pos_is_pos(num, den);
    if net > 0 {
        vstd::arithmetic::div_mod::lemma_div_is_ordered_by_denominator(num, net, den);
        vstd::arithmetic::div_mod::lemma_div_multiples_vanish(reserve_out as int, net);
    } else {
        assert(num == 0) by (nonlinear_arith)
            requires
                net == 0,
                num == net * reserve_out,
        ;
        vstd::arithmetic::div_mod::lemma_div_nonincreasing(num, den);
    }
}

/// Exactly what the price-impact computation returns: the constant-product
/// output recomputed over the post-trade reserves (quoted output subtracted
/// from the outgoing side, undiscounted net input added to the incoming
/// side), or the error of the first checked step that fails.
pub open spec fn spec_impact_outcome(
    amount_in: Balance,
    fee: Balance,
    panx_balance: Balance,
    reserve_in: Balance,
    reserve_out: Balance,
) -> Result<Balance, TradingPairError> {
    match spec_quote_outcome(amount_in, fee, panx_balance, reserve_in, reserve_out) {
        Err(e) => Err(e),
        Ok(quoted) => {
            let net = amount_in * (100 - spec_actual_fee(fee));
            if net * (reserve_out - quoted) > u128::MAX {
                Err(TradingPairError::Overflow)
            } else if reserve_in + net > u128::MAX {
                Err(TradingPairError::Overflow)
            } else if (reserve_in + net) * 100 > u128::MAX {
                Err(TradingPairError::Overflow)
            } else if (reserve_in + net) * 100 + net > u128::MAX {
                Err(TradingPairError::Overflow)
            } else if (reserve_in + net) * 100 + net == 0 {
                Err(TradingPairError::DivisionByZero)
            } else {
                Ok(((net * (reserve_out - quoted)) / ((reserve_in + net) * 100 + net)) as u128)
            }
        },
    }
}

/// Pure price-impact step: the marginal output a trade of `amount_in` would
/// see after its own effect on the reserves, with the fee applied at its
/// undiscounted rate on the second pass.
fn impact_amount_out(
    amount_in: Balance,
    fee: Balance,
    panx_balance: Balance,
    reserve_in: Balance,
    reserve_out: Balance,
) -> (r: Result<Balance, TradingPairError>)
    ensures
        r == spec_impact_outcome(amount_in, fee, panx_balance, reserve_in, reserve_out),
{
    let quoted: Balance = match quote_amount_out(
        amount_in,
        fee,
        panx_balance,
        reserve_in,
        reserve_out,
    ) {
        Ok(v) => v,
        Err(e) => {
            return Err(e);
        },
    };
    let actual_fee: Balance = fee / FEE_UNIT;
    // a successful quote already checked that this product fits
    let amount_in_with_lp_fees: Balance = match amount_in.checked_mul(100 - actual_fee) {
        Some(v) => v,
        None => {
            proof {
                assert(false);
            }
            return Err(TradingPairError::Overflow);
        },
    };
    proof {
        lemma_quote_bounded(amount_in, fee, panx_balance, reserve_in, reserve_out);
    }
    let remaining_out: Balance = reserve_out - quoted;
    let numerator: Balance = match amount_in_with_lp_fees.checked_mul(remaining_out) {
        Some(v) => v,
        None => {
            return Err(TradingPairError::Overflow);
        },
    };
    let grown_reserve: Balance = match reserve_in.checked_add(amount_in_with_lp_fees) {
        Some(v) => v,
        None => {
            return Err(TradingPairError::Overflow);
        },
    };
    let scaled_reserve: Balance = match grown_reserve.checked_mul(100) {
        Some(v) => v,
        None => {
            return Err(TradingPairError::Overflow);
        },
    };
    let denominator: Balance = match scaled_reserve.checked_add(amount_in_with_lp_fees) {
        Some(v) => v,
        None => {
            return Err(TradingPairError::Overflow);
        },
    };
    match numerator.checked_div(denominator) {
        Some(v) => Ok(v),
        None => Err(TradingPairError::DivisionByZero),
    }
}

/// Exactly what the expected-shares quote returns: the bootstrap amount into
/// an empty pool, else the deposit's proportional part of the share total.
pub open spec fn spec_expected_shares_outcome(
    deposit1: Balance,
    reserve1: Balance,
    total: Balance,
) -> Result<Balance, TradingPairError> {
    if total == 0 {
        Ok(BOOTSTRAP_SHARES)
    } else if deposit1 * total > u128::MAX {
        Err(TradingPairError::Overflow)
    } else if reserve1 == 0 {
        Err(TradingPairError::DivisionByZero)
    } else {
        Ok(((deposit1 * total) / (reserve1 as int)) as u128)
    }
}

/// The fee vault's cut of a gross swap output (meaningful when the product
/// fits in a balance, which every successful swap checks).
pub open spec fn spec_vault_out(gross: Balance, traders_fee: Balance) -> Balance {
    (gross * traders_fee) as Balance
}

/// What the swapping caller receives: the gross output less the vault's cut.
pub open spec fn spec_caller_out(gross: Balance, traders_fee: Balance) -> Balance {
    (gross - spec_vault_out(gross, traders_fee)) as Balance
}

/// The caller's part and the vault's part of a swap output sum exactly to
/// the gross quote: the fee split loses nothing.
pub proof fn lemma_swap_fee_split(gross: Balance, traders_fee: Balance)
    requires
        gross * traders_fee <= gross,
    ensures
        spec_caller_out(gross, traders_fee) + spec_vault_out(gross, traders_fee) == gross,
{
    vstd::arithmetic::mul::lemma_mul_nonnegative(gross as int, traders_fee as int);
}

/// Exactly what a swap returns: success when the caller's funds, the pair's
/// allowance, the quote, the fee split, and the slippage gate all pass (and
/// one more trade can be counted), else the error of the first check that
/// fails. The checks stand in the order the operation performs them, all
/// before any transfer, so a failed swap moves nothing.
pub open spec fn spec_swap_outcome(
    p: TradingPairPsp22,
    token_in: PSP22Data,
    token_out: PSP22Data,
    panx: PSP22Data,
    caller: AccountId,
    amount_to_swap: Balance,
    amount_to_validate: Balance,
    slippage: Balance,
) -> Result<(), TradingPairError> {
    let pool = p.spec_account_id();
    if token_in.bal(caller) < amount_to_swap {
        Err(
            TradingPairError::InsufficientBalance {
                requested: amount_to_swap,
                available: token_in.bal(caller),
            },
        )
    } else if token_in.alw(caller, pool) < amount_to_swap {
        Err(
            TradingPairError::InsufficientAllowance {
                requested: amount_to_swap,
                available: token_in.alw(caller, pool),
            },
        )
    } else {
        match spec_quote_outcome(
            amount_to_swap,
            p.spec_fee(),
            panx.bal(caller),
            token_in.bal(pool),
            token_out.bal(pool),
        ) {
            Err(e) => Err(e),
            Ok(gross) => {
                if gross * p.spec_traders_fee() > u128::MAX {
                    Err(TradingPairError::Overflow)
                } else if gross * p.spec_traders_fee() > gross {
                    Err(TradingPairError::Overflow)
                } else {
                    match spec_diff_outcome(amount_to_validate, gross) {
                        Err(e) => Err(e),
                        Ok(diff) => if diff > slippage {
                            Err(
                                TradingPairError::SlippageExceeded {
                                    difference: diff,
                                    tolerance: slippage,
                                },
                            )
                        } else if p.spec_trade_count() == i64::MAX {
                            Err(TradingPairError::Overflow)
                        } else {
                            Ok(())
                        },
                    }
                }
            },
        }
    }
}

/// The outgoing ledger after a swap paid both legs: the caller received
/// their part, the vault its cut, the pool's reserve fell by what left it
/// (a leg to the pool's own account moves nothing).
pub open spec fn spec_paid_out(
    pre: PSP22Data,
    post: PSP22Data,
    pool: AccountId,
    caller: AccountId,
    vault: AccountId,
    out_caller: Balance,
    out_vault: Balance,
) -> bool {
    &&& post.spec_total_supply() == pre.spec_total_supply()
    &&& forall|a: AccountId| #[trigger]
        post.bal(a) as int == pre.bal(a) + (if a == caller && caller != pool {
            out_caller as int
        } else {
            0
        }) + (if a == vault && vault != pool {
            out_vault as int
        } else {
            0
        }) - (if a == pool {
            (if caller != pool {
                out_caller as int
            } else {
                0
            }) + (if vault != pool {
                out_vault as int
            } else {
                0
            })
        } else {
            0
        })
}

/// Shares minted for a liquidity deposit: the fixed bootstrap amount into an
/// empty pool; else the measured first-asset deposit's proportional part of
/// the share total, against the first-asset reserve as it stood before the
/// deposit arrived.
pub open spec fn spec_provide_shares(
    total: Balance,
    actual_deposit1: Balance,
    reserve1_before: Balance,
) -> int {
    if total == 0 {
        BOOTSTRAP_SHARES as int
    } else {
        (actual_deposit1 * total) / (reserve1_before as int)
    }
}

/// The four funding checks a provision makes before it pulls anything.
pub open spec fn spec_provide_checks_pass(
    p: TradingPairPsp22,
    t1: PSP22Data,
    t2: PSP22Data,
    caller: AccountId,
    deposit1: Balance,
    deposit2: Balance,
) -> bool {
    let pool = p.spec_account_id();
    &&& t1.bal(caller) >= deposit1
    &&& t2.bal(caller) >= deposit2
    &&& t1.alw(caller, pool) >= deposit1
    &&& t2.alw(caller, pool) >= deposit2
}

/// Exactly what a provision returns: success when the funding checks, the
/// share computation, the slippage gate and the mint all pass, else the error
/// of the first step that fails, in the order the operation performs them.
/// Failures found after the deposits were pulled are preceded by a full
/// refund of both measured amounts.
pub open spec fn spec_provide_outcome(
    p: TradingPairPsp22,
    t1: PSP22Data,
    t2: PSP22Data,
    caller: AccountId,
    deposit1: Balance,
    deposit2: Balance,
    expected_shares: Balance,
    slippage: Balance,
) -> Result<(), TradingPairError> {
    let pool = p.spec_account_id();
    if t1.bal(caller) < deposit1 {
        Err(
            TradingPairError::InsufficientBalance {
                requested: deposit1,
                available: t1.bal(caller),
            },
        )
    } else if t2.bal(caller) < deposit2 {
        Err(
            TradingPairError::InsufficientBalance {
                requested: deposit2,
                available: t2.bal(caller),
            },
        )
    } else if t1.alw(caller, pool) < deposit1 {
        Err(
            TradingPairError::InsufficientAllowance {
                requested: deposit1,
                available: t1.alw(caller, pool),
            },
        )
    } else if t2.alw(caller, pool) < deposit2 {
        Err(
            TradingPairError::InsufficientAllowance {
                requested: deposit2,
                available: t2.alw(caller, pool),
            },
        )
    } else {
        let actual1 = if caller == pool {
            0
        } else {
            deposit1
        };
        let reserve1_before = t1.bal(pool);
        let total = p.spec_total_shares();
        if total > 0 && actual1 * total > u128::MAX {
            Err(TradingPairError::Overflow)
        } else if total > 0 && reserve1_before == 0 {
            Err(TradingPairError::DivisionByZero)
        } else {
            let shares = spec_provide_shares(total, actual1, reserve1_before);
            if shares == 0 {
                Err(TradingPairError::ZeroShares)
            } else {
                match spec_diff_outcome(expected_shares, shares as Balance) {
                    Err(e) => Err(e),
                    Ok(diff) => if diff > slippage {
                        Err(
                            TradingPairError::SlippageExceeded {
                                difference: diff,
                                tolerance: slippage,
                            },
                        )
                    } else if total + shares > u128::MAX {
                        Err(TradingPairError::Overflow)
                    } else {
                        Ok(())
                    },
                }
            }
        }
    }
}

/// Exactly what a withdrawal returns: success when the caller's shares cover
/// the request and both proportional amounts compute, else the error of the
/// first check that fails.
pub open spec fn spec_withdraw_outcome(
    p: TradingPairPsp22,
    t1: PSP22Data,
    t2: PSP22Data,
    caller: AccountId,
    shares: Balance,
) -> Result<(), TradingPairError> {
    let pool = p.spec_account_id();
    if p.share_of(caller) < shares {
        Err(
            TradingPairError::InsufficientBalance {
                requested: shares,
                available: p.share_of(caller),
            },
        )
    } else {
        match spec_withdraw_outcome_both(shares, t1.bal(pool), t2.bal(pool), p.spec_total_shares()) {
            Err(e) => Err(e),
            Ok(_) => Ok(()),
        }
    }
}

/// A trading pair over two pooled fungible assets: the share ledger of the
/// liquidity providers, the pool's fee parameters, and the identities of the
/// two asset ledgers, the reference asset, the fee vault and the pool itself.
///
/// The pooled reserves are never cached: every operation reads them live from
/// the asset ledgers it is handed, as the pool's own balance there.
pub struct TradingPairPsp22 {
    transasction_number: i64,
    psp22_token1_address: AccountId,
    psp22_token2_address: AccountId,
    fee: Balance,
    total_supply: Balance,
    balances: HashMap<AccountId, Balance>,
    panx_contract: AccountId,
    lp_tokens_allowances: HashMap<u64, Balance>,
    vault: AccountId,
    traders_fee: Balance,
    account_id: AccountId,
}

impl TradingPairPsp22 {
    /// The share ledger as a mathematical map.
    pub closed spec fn spec_share_balances(&self) -> Map<AccountId, Balance> {
        self.balances@
    }

    /// The share-allowance table as a mathematical map over packed keys.
    pub closed spec fn spec_lp_allowances(&self) -> Map<u64, Balance> {
        self.lp_tokens_allowances@
    }

    /// The recorded total of all pool shares.
    pub closed spec fn spec_total_shares(&self) -> Balance {
        self.total_supply
    }

    /// The pool's fixed-point fee rate.
    pub closed spec fn spec_fee(&self) -> Balance {
        self.fee
    }

    /// The fraction of swap output diverted to the fee vault.
    pub closed spec fn spec_traders_fee(&self) -> Balance {
        self.traders_fee
    }

    /// The count of executed swaps.
    pub closed spec fn spec_trade_count(&self) -> i64 {
        self.transasction_number
    }

    /// The ledger identity of the first pooled asset.
    pub closed spec fn spec_token1_address(&self) -> AccountId {
        self.psp22_token1_address
    }

    /// The ledger identity of the second pooled asset.
    pub closed spec fn spec_token2_address(&self) -> AccountId {
        self.psp22_token2_address
    }

    /// The ledger identity of the loyalty reference asset.
    pub closed spec fn spec_panx_contract(&self) -> AccountId {
        self.panx_contract
    }

    /// The account receiving the protocol's cut of trading fees.
    pub closed spec fn spec_vault(&self) -> AccountId {
        self.vault
    }

    /// The pool's own account, whose asset balances are the reserves.
    pub closed spec fn spec_account_id(&self) -> AccountId {
        self.account_id
    }

    /// Pool shares held by `account`, an absent entry reading as zero.
    pub open spec fn share_of(&self, account: AccountId) -> Balance {
        if self.spec_share_balances().contains_key(account) {
            self.spec_share_balances()[account]
        } else {
            0
        }
    }

    /// Share allowance granted by `owner` to `spender`, absent reading zero.
    pub open spec fn lp_allowance_of(&self, owner: AccountId, spender: AccountId) -> Balance {
        if self.spec_lp_allowances().contains_key(spec_pair_key(owner, spender)) {
            self.spec_lp_allowances()[spec_pair_key(owner, spender)]
        } else {
            0
        }
    }

    /// The running share total is exactly the sum of all holders' shares (so
    /// no holding, nor any pair of holdings, can exceed it), the vault's
    /// fraction is the one fixed at construction, and the trade counter has
    /// never wrapped.
    pub open spec fn well_formed(&self) -> bool {
        &&& map_sum(self.spec_share_balances()) == self.spec_total_shares()
        &&& self.spec_traders_fee() == TRADERS_FEE_RATE
        &&& self.spec_trade_count() >= 0
    }
}

/// The construction parameters of `post` are those of `pre`: the asset,
/// reference, vault and own identities and both fee parameters.
pub open spec fn spec_config_unchanged(pre: TradingPairPsp22, post: TradingPairPsp22) -> bool {
    &&& post.spec_token1_address() == pre.spec_token1_address()
    &&& post.spec_token2_address() == pre.spec_token2_address()
    &&& post.spec_panx_contract() == pre.spec_panx_contract()
    &&& post.spec_vault() == pre.spec_vault()
    &&& post.spec_account_id() == pre.spec_account_id()
    &&& post.spec_fee() == pre.spec_fee()
    &&& post.spec_traders_fee() == pre.spec_traders_fee()
}

/// Every holder's shares are unchanged, as is the share total.
pub open spec fn spec_shares_unchanged(pre: TradingPairPsp22, post: TradingPairPsp22) -> bool {
    &&& post.spec_total_shares() == pre.spec_total_shares()
    &&& forall|a: AccountId| #[trigger] post.share_of(a) == pre.share_of(a)
}

/// Every share allowance is unchanged.
pub open spec fn spec_lp_allowances_unchanged(
    pre: TradingPairPsp22,
    post: TradingPairPsp22,
) -> bool {
    forall|o: AccountId, s: AccountId| #[trigger] post.lp_allowance_of(o, s) == pre.lp_allowance_of(
        o,
        s,
    )
}

/// The shares of `post` are those of `pre` with `value` moved from `from` to
/// `to`; a transfer to oneself leaves every holding as it was.
pub open spec fn spec_shares_moved(
    pre: TradingPairPsp22,
    post: TradingPairPsp22,
    from: AccountId,
    to: AccountId,
    value: Balance,
) -> bool {
    &&& post.spec_total_shares() == pre.spec_total_shares()
    &&& forall|a: AccountId| #[trigger]
        post.share_of(a) as int == if from == to {
            pre.share_of(a) as int
        } else if a == to {
            pre.share_of(a) + value
        } else if a == from {
            pre.share_of(a) - value
        } else {
            pre.share_of(a) as int
        }
}

impl TradingPairPsp22 {
    /// Creates a new trading pair over the two given asset ledgers, with its
    /// fixed-point fee rate, the reference asset of the loyalty discount, the
    /// fee vault, and the pool's own account identity (the address whose
    /// asset balances are the reserves).
    pub fn new(
        psp22_token1_contract: AccountId,
        psp22_token2_contract: AccountId,
        fee: Balance,
        panx_contract: AccountId,
        vault: AccountId,
        account_id: AccountId,
    ) -> (r: TradingPairPsp22)
        ensures
            r.well_formed(),
            r.spec_token1_address() == psp22_token1_contract,
            r.spec_token2_address() == psp22_token2_contract,
            r.spec_fee() == fee,
            r.spec_panx_contract() == panx_contract,
            r.spec_vault() == vault,
            r.spec_account_id() == account_id,
            r.spec_total_shares() == 0,
            r.spec_trade_count() == 0,
            forall|a: AccountId| #[trigger] r.share_of(a) == 0,
            forall|o: AccountId, s: AccountId| #[trigger] r.lp_allowance_of(o, s) == 0,
    {
        let transasction_number: i64 = 0;
        let balances: HashMap<AccountId, Balance> = HashMap::new();
        let lp_tokens_allowances: HashMap<u64, Balance> = HashMap::new();
        let total_supply: Balance = 0;
        let traders_fee: Balance = 25000000000 / 1000000000000;
        TradingPairPsp22 {
            transasction_number,
            psp22_token1_address: psp22_token1_contract,
            psp22_token2_address: psp22_token2_contract,
            fee,
            total_supply,
            balances,
            panx_contract,
            lp_tokens_allowances,
            vault,
            traders_fee,
            account_id,
        }
    }

    /// The pool's own account identity.
    pub fn get_account_id(&self) -> (r: AccountId)
        ensures
            r == self.spec_account_id(),
    {
        self.account_id
    }

    /// The pool's fixed-point fee rate.
    pub fn get_fee(&self) -> (r: Balance)
        ensures
            r == self.spec_fee(),
    {
        self.fee
    }

    /// The total supply of pool shares.
    pub fn get_total_supply(&self) -> (r: Balance)
        ensures
            r == self.spec_total_shares(),
    {
        self.total_supply
    }

    /// The pool shares held by `account`.
    pub fn get_lp_token_of(&self, account: AccountId) -> (r: Balance)
        ensures
            r == self.share_of(account),
    {
        let account_balance: Balance = match self.balances.get(&account) {
            Some(balance) => *balance,
            None => 0,
        };
        account_balance
    }

    /// The share allowance granted by `owner` to `spender`.
    pub fn get_lp_tokens_allowance(&self, owner: AccountId, spender: AccountId) -> (r: Balance)
        ensures
            r == self.lp_allowance_of(owner, spender),
    {
        let key: u64 = pair_key(owner, spender);
        match self.lp_tokens_allowances.get(&key) {
            Some(allowance) => *allowance,
            None => 0,
        }
    }

    /// The pool's live reserve of the second asset: its own balance on that
    /// asset's ledger.
    pub fn get_psp22_token2_reserve(&self, token2: &PSP22Data) -> (r: Balance)
        ensures
            r == token2.bal(self.spec_account_id()),
    {
        token2.balance_of(self.account_id)
    }

    /// The pool's live reserve of the first asset: its own balance on that
    /// asset's ledger.
    pub fn get_psp22_token1_reserve(&self, token1: &PSP22Data) -> (r: Balance)
        ensures
            r == token1.bal(self.spec_account_id()),
    {
        token1.balance_of(self.account_id)
    }

    /// The number of executed swaps.
    pub fn get_transactions_num(&self) -> (r: i64)
        ensures
            r == self.spec_trade_count(),
    {
        self.transasction_number
    }

    /// The percentage difference between two amounts, in fixed-point units:
    /// the slippage measure compared against a caller's tolerance.
    pub fn check_diffrenece(&mut self, value1: Balance, value2: Balance) -> (r: Result<
        Balance,
        TradingPairError,
    >)
        ensures
            *final(self) == *old(self),
            r == spec_diff_outcome(value1, value2),
    {
        let abs_dif: Balance = if value1 >= value2 {
            value1 - value2
        } else {
            value2 - value1
        };
        let abs_dif_nominated: Balance = match abs_dif.checked_mul(FEE_UNIT) {
            Some(v) => v,
            None => {
                return Err(TradingPairError::Overflow);
            },
        };
        let sum: Balance = match value1.checked_add(value2) {
            Some(v) => v,
            None => {
                return Err(TradingPairError::Overflow);
            },
        };
        let avg: Balance = sum / 2;
        if avg == 0 {
            return Err(TradingPairError::DivisionByZero);
        }
        let ratio: Balance = abs_dif_nominated / avg;
        match 100u128.checked_mul(ratio) {
            Some(diff) => Ok(diff),
            None => Err(TradingPairError::Overflow),
        }
    }

    /// Debits `value` shares from `from`, then credits them to `to`. The
    /// debit comes first, so a transfer to oneself nets to no change.
    fn move_shares(&mut self, from: AccountId, to: AccountId, value: Balance)
        requires
            old(self).well_formed(),
            old(self).share_of(from) >= value,
        ensures
            final(self).well_formed(),
            spec_config_unchanged(*old(self), *final(self)),
            final(self).spec_trade_count() == old(self).spec_trade_count(),
            spec_shares_moved(*old(self), *final(self), from, to, value),
            spec_lp_allowances_unchanged(*old(self), *final(self)),
    {
        let ghost pre = *self;
        let from_shares: Balance = self.get_lp_token_of(from);
        let new_from_shares: Balance = from_shares - value;
        self.balances.insert(from, new_from_shares);
        proof {
            lemma_map_sum_insert(pre.spec_share_balances(), from, new_from_shares);
        }
        let ghost mid = *self;
        let to_shares: Balance = self.get_lp_token_of(to);
        proof {
            if from != to && pre.spec_share_balances().dom().contains(to)
                && pre.spec_share_balances().dom().contains(from) {
                lemma_map_sum_two_entries_bound(pre.spec_share_balances(), from, to);
            }
        }
        let new_to_shares: Balance = to_shares + value;
        self.balances.insert(to, new_to_shares);
        proof {
            lemma_map_sum_insert(mid.spec_share_balances(), to, new_to_shares);
        }
    }

    /// Transfers `shares_to_transfer` pool shares from the caller to the
    /// recipient, failing when the caller's holding does not cover them.
    pub fn transfer_lp_tokens(
        &mut self,
        caller: AccountId,
        recipient: AccountId,
        shares_to_transfer: Balance,
    ) -> (r: Result<(), TradingPairError>)
        requires
            old(self).well_formed(),
        ensures
            final(self).well_formed(),
            spec_config_unchanged(*old(self), *final(self)),
            final(self).spec_trade_count() == old(self).spec_trade_count(),
            spec_lp_allowances_unchanged(*old(self), *final(self)),
            r is Ok <==> old(self).share_of(caller) >= shares_to_transfer,
            r is Err ==> *final(self) == *old(self) && r == Err::<(), TradingPairError>(
                TradingPairError::InsufficientBalance {
                    requested: shares_to_transfer,
                    available: old(self).share_of(caller),
                },
            ),
            r is Ok ==> spec_shares_moved(
                *old(self),
                *final(self),
                caller,
                recipient,
                shares_to_transfer,
            ),
    {
        let caller_shares: Balance = self.get_lp_token_of(caller);
        if caller_shares < shares_to_transfer {
            return Err(
                TradingPairError::InsufficientBalance {
                    requested: shares_to_transfer,
                    available: caller_shares,
                },
            );
        }
        self.move_shares(caller, recipient, shares_to_transfer);
        Ok(())
    }

    /// Sets the share allowance granted by the caller to `spender` to exactly
    /// `shares_to_approve`, overwriting any earlier grant. Fails when the
    /// caller's own holding is smaller than the grant, or when the grant is
    /// the largest representable amount (the explicit overflow guard).
    pub fn approve_lp_tokens(
        &mut self,
        caller: AccountId,
        spender: AccountId,
        shares_to_approve: Balance,
    ) -> (r: Result<(), TradingPairError>)
        requires
            old(self).well_formed(),
        ensures
            final(self).well_formed(),
            spec_config_unchanged(*old(self), *final(self)),
            final(self).spec_trade_count() == old(self).spec_trade_count(),
            spec_shares_unchanged(*old(self), *final(self)),
            r is Ok <==> (old(self).share_of(caller) >= shares_to_approve && shares_to_approve
                < u128::MAX),
            old(self).share_of(caller) < shares_to_approve ==> r == Err::<(), TradingPairError>(
                TradingPairError::InsufficientBalance {
                    requested: shares_to_approve,
                    available: old(self).share_of(caller),
                },
            ),
            (old(self).share_of(caller) >= shares_to_approve && shares_to_approve == u128::MAX)
                ==> r == Err::<(), TradingPairError>(TradingPairError::Overflow),
            r is Err ==> *final(self) == *old(self),
            r is Ok ==> forall|o: AccountId, s: AccountId| #[trigger]
                final(self).lp_allowance_of(o, s) == (if o == caller && s == spender {
                    shares_to_approve
                } else {
                    old(self).lp_allowance_of(o, s)
                }),
    {
        let caller_shares: Balance = self.get_lp_token_of(caller);
        if caller_shares < shares_to_approve {
            return Err(
                TradingPairError::InsufficientBalance {
                    requested: shares_to_approve,
                    available: caller_shares,
                },
            );
        }
        if shares_to_approve == u128::MAX {
            return Err(TradingPairError::Overflow);
        }
        self.lp_tokens_allowances.insert(pair_key(caller, spender), shares_to_approve);
        proof {
            lemma_pair_key_unique(caller, spender);
        }
        Ok(())
    }

    /// Transfers `shares_to_transfer` pool shares from `owner` to `to` on
    /// behalf of the caller, drawing on the share allowance `owner` granted
    /// to the caller. The allowance is checked, and reported, before the
    /// owner's holding.
    pub fn transfer_lp_tokens_from_to(
        &mut self,
        caller: AccountId,
        owner: AccountId,
        to: AccountId,
        shares_to_transfer: Balance,
    ) -> (r: Result<(), TradingPairError>)
        requires
            old(self).well_formed(),
        ensures
            final(self).well_formed(),
            spec_config_unchanged(*old(self), *final(self)),
            final(self).spec_trade_count() == old(self).spec_trade_count(),
            r is Ok <==> (old(self).lp_allowance_of(owner, caller) >= shares_to_transfer && old(
                self,
            ).share_of(owner) >= shares_to_transfer),
            old(self).lp_allowance_of(owner, caller) < shares_to_transfer ==> r == Err::<
                (),
                TradingPairError,
            >(
                TradingPairError::InsufficientAllowance {
                    requested: shares_to_transfer,
                    available: old(self).lp_allowance_of(owner, caller),
                },
            ),
            (old(self).lp_allowance_of(owner, caller) >= shares_to_transfer && old(self).share_of(
                owner,
            ) < shares_to_transfer) ==> r == Err::<(), TradingPairError>(
                TradingPairError::InsufficientBalance {
                    requested: shares_to_transfer,
                    available: old(self).share_of(owner),
                },
            ),
            r is Err ==> *final(self) == *old(self),
            r is Ok ==> spec_shares_moved(*old(self), *final(self), owner, to, shares_to_transfer),
            r is Ok ==> forall|o: AccountId, s: AccountId| #[trigger]
                final(self).lp_allowance_of(o, s) as int == (if o == owner && s == caller {
                    old(self).lp_allowance_of(o, s) - shares_to_transfer
                } else {
                    old(self).lp_allowance_of(o, s) as int
                }),
    {
        let allowance: Balance = self.get_lp_tokens_allowance(owner, caller);
        if allowance < shares_to_transfer {
            return Err(
                TradingPairError::InsufficientAllowance {
                    requested: shares_to_transfer,
                    available: allowance,
                },
            );
        }
        let owner_shares: Balance = self.get_lp_token_of(owner);
        if owner_shares < shares_to_transfer {
            return Err(
                TradingPairError::InsufficientBalance {
                    requested: shares_to_transfer,
                    available: owner_shares,
                },
            );
        }
        self.move_shares(owner, to, shares_to_transfer);
        let ghost moved_state = *self;
        let new_allowance: Balance = allowance - shares_to_transfer;
        self.lp_tokens_allowances.insert(pair_key(owner, caller), new_allowance);
        proof {
            lemma_pair_key_unique(owner, caller);
            assert(self.spec_share_balances() == moved_state.spec_share_balances());
            assert forall|a: AccountId| #[trigger]
                self.share_of(a) == moved_state.share_of(a) by {}
            assert(spec_shares_moved(*old(self), *self, owner, to, shares_to_transfer));
            assert forall|o: AccountId, s: AccountId| #[trigger]
                self.lp_allowance_of(o, s) as int == (if o == owner && s == caller {
                    old(self).lp_allowance_of(o, s) - shares_to_transfer
                } else {
                    old(self).lp_allowance_of(o, s) as int
                }) by {
                if !(o == owner && s == caller) {
                    assert(self.lp_allowance_of(o, s) == moved_state.lp_allowance_of(o, s));
                    assert(moved_state.lp_allowance_of(o, s) == old(self).lp_allowance_of(o, s));
                }
            }
        }
        Ok(())
    }

    /// The amount of the first asset withdrawable for `share_amount` shares:
    /// the shares' proportional part of the live reserve.
    pub fn get_psp22_token1_withdraw_tokens_amount(
        &self,
        token1: &PSP22Data,
        share_amount: Balance,
    ) -> (r: Result<Balance, TradingPairError>)
        ensures
            r == spec_withdraw_outcome_one(
                share_amount,
                token1.bal(self.spec_account_id()),
                self.spec_total_shares(),
            ),
    {
        let reserve: Balance = self.get_psp22_token1_reserve(token1);
        let numerator: Balance = match share_amount.checked_mul(reserve) {
            Some(v) => v,
            None => {
                return Err(TradingPairError::Overflow);
            },
        };
        match numerator.checked_div(self.total_supply) {
            Some(v) => Ok(v),
            None => Err(TradingPairError::DivisionByZero),
        }
    }

    /// The amount of the second asset withdrawable for `share_amount` shares.
    pub fn get_psp22_token2_withdraw_tokens_amount(
        &self,
        token2: &PSP22Data,
        share_amount: Balance,
    ) -> (r: Result<Balance, TradingPairError>)
        ensures
            r == spec_withdraw_outcome_one(
                share_amount,
                token2.bal(self.spec_account_id()),
                self.spec_total_shares(),
            ),
    {
        let reserve: Balance = self.get_psp22_token2_reserve(token2);
        let numerator: Balance = match share_amount.checked_mul(reserve) {
            Some(v) => v,
            None => {
                return Err(TradingPairError::Overflow);
            },
        };
        match numerator.checked_div(self.total_supply) {
            Some(v) => Ok(v),
            None => Err(TradingPairError::DivisionByZero),
        }
    }

    /// The amounts of both assets withdrawable for `share_amount` shares.
    pub fn get_withdraw_tokens_amount(
        &self,
        token1: &PSP22Data,
        token2: &PSP22Data,
        share_amount: Balance,
    ) -> (r: Result<(Balance, Balance), TradingPairError>)
        ensures
            r == spec_withdraw_outcome_both(
                share_amount,
                token1.bal(self.spec_account_id()),
                token2.bal(self.spec_account_id()),
                self.spec_total_shares(),
            ),
    {
        let amount_of_psp22_token1_to_give: Balance = match self.get_psp22_token1_withdraw_tokens_amount(
            token1,
            share_amount,
        ) {
            Ok(v) => v,
            Err(e) => {
                return Err(e);
            },
        };
        let amount_of_psp22_token2_to_give: Balance = match self.get_psp22_token2_withdraw_tokens_amount(
            token2,
            share_amount,
        ) {
            Ok(v) => v,
            Err(e) => {
                return Err(e);
            },
        };
        Ok((amount_of_psp22_token1_to_give, amount_of_psp22_token2_to_give))
    }

    /// The two pooled amounts `account_id` could withdraw for all the shares
    /// it holds; both zero when it holds no shares.
    pub fn get_account_locked_tokens(
        &self,
        token1: &PSP22Data,
        token2: &PSP22Data,
        account_id: AccountId,
    ) -> (r: Result<(Balance, Balance), TradingPairError>)
        ensures
            r == (if self.share_of(account_id) == 0 {
                Ok::<(Balance, Balance), TradingPairError>((0, 0))
            } else {
                spec_withdraw_outcome_both(
                    self.share_of(account_id),
                    token1.bal(self.spec_account_id()),
                    token2.bal(self.spec_account_id()),
                    self.spec_total_shares(),
                )
            }),
    {
        let caller_shares: Balance = self.get_lp_token_of(account_id);
        if caller_shares == 0 {
            return Ok((0, 0));
        }
        self.get_withdraw_tokens_amount(token1, token2, caller_shares)
    }

    /// The shares a deposit of `psp22_token1_deposit_amount` of the first
    /// asset would mint right now: the fixed bootstrap amount into an empty
    /// pool, else the deposit's proportional part of the share total.
    pub fn get_expected_lp_token_amount(
        &self,
        token1: &PSP22Data,
        psp22_token1_deposit_amount: Balance,
    ) -> (r: Result<Balance, TradingPairError>)
        ensures
            r == spec_expected_shares_outcome(
                psp22_token1_deposit_amount,
                token1.bal(self.spec_account_id()),
                self.spec_total_shares(),
            ),
    {
        if self.total_supply == 0 {
            return Ok(BOOTSTRAP_SHARES);
        }
        let reserve: Balance = self.get_psp22_token1_reserve(token1);
        let numerator: Balance = match psp22_token1_deposit_amount.checked_mul(self.total_supply) {
            Some(v) => v,
            None => {
                return Err(TradingPairError::Overflow);
            },
        };
        match numerator.checked_div(reserve) {
            Some(v) => Ok(v),
            None => Err(TradingPairError::DivisionByZero),
        }
    }

    /// Redeems `shares` pool shares of the caller: pays out the proportional
    /// part of both reserves, then burns the shares. Any failed check aborts
    /// the whole operation with every ledger unchanged.
    pub fn withdraw_specific_amount(
        &mut self,
        token1: &mut PSP22Data,
        token2: &mut PSP22Data,
        caller: AccountId,
        shares: Balance,
    ) -> (r: Result<(), TradingPairError>)
        requires
            old(self).well_formed(),
            old(token1).well_formed(),
            old(token2).well_formed(),
        ensures
            final(self).well_formed(),
            final(token1).well_formed(),
            final(token2).well_formed(),
            spec_config_unchanged(*old(self), *final(self)),
            final(self).spec_trade_count() == old(self).spec_trade_count(),
            spec_lp_allowances_unchanged(*old(self), *final(self)),
            r == spec_withdraw_outcome(*old(self), *old(token1), *old(token2), caller, shares),
            r is Err ==> *final(self) == *old(self) && *final(token1) == *old(token1)
                && *final(token2) == *old(token2),
            r is Ok ==> ({
                let pool = old(self).spec_account_id();
                let total = old(self).spec_total_shares();
                let amount1 = ((shares * old(token1).bal(pool)) / (total as int)) as Balance;
                let amount2 = ((shares * old(token2).bal(pool)) / (total as int)) as Balance;
                &&& crate::data::spec_moved(*old(token1), *final(token1), pool, caller, amount1)
                &&& crate::data::spec_moved(*old(token2), *final(token2), pool, caller, amount2)
                &&& crate::data::spec_allowances_unchanged(*old(token1), *final(token1))
                &&& crate::data::spec_allowances_unchanged(*old(token2), *final(token2))
                &&& final(self).spec_total_shares() == old(self).spec_total_shares() - shares
                &&& forall|a: AccountId| #[trigger]
                    final(self).share_of(a) as int == old(self).share_of(a) - (if a == caller {
                        shares as int
                    } else {
                        0
                    })
            }),
    {
        let caller_shares: Balance = self.get_lp_token_of(caller);
        if caller_shares < shares {
            return Err(
                TradingPairError::InsufficientBalance {
                    requested: shares,
                    available: caller_shares,
                },
            );
        }
        let psp22_token1_amount_to_give: Balance = match self.get_psp22_token1_withdraw_tokens_amount(
            token1,
            shares,
        ) {
            Ok(v) => v,
            Err(e) => {
                return Err(e);
            },
        };
        let psp22_token2_amount_to_give: Balance = match self.get_psp22_token2_withdraw_tokens_amount(
            token2,
            shares,
        ) {
            Ok(v) => v,
            Err(e) => {
                return Err(e);
            },
        };
        proof {
            if shares > 0 {
                lemma_map_sum_entry_bound(self.spec_share_balances(), caller);
            }
            lemma_proportion_bounded(
                shares as int,
                self.spec_total_shares() as int,
                token1.bal(self.spec_account_id()) as int,
            );
            lemma_proportion_bounded(
                shares as int,
                self.spec_total_shares() as int,
                token2.bal(self.spec_account_id()) as int,
            );
        }
        // both amounts are proportional parts of the live reserves, so the
        // pool can pay them and neither transfer can fail
        match token1.transfer(self.account_id, caller, psp22_token1_amount_to_give) {
            Ok(_) => {},
            Err(_) => {
                proof {
                    assert(false);
                }
                return Err(TradingPairError::Overflow);
            },
        }
        match token2.transfer(self.account_id, caller, psp22_token2_amount_to_give) {
            Ok(_) => {},
            Err(_) => {
                proof {
                    assert(false);
                }
                return Err(TradingPairError::Overflow);
            },
        }
        let ghost pre = *self;
        let new_caller_shares: Balance = caller_shares - shares;
        self.balances.insert(caller, new_caller_shares);
        proof {
            lemma_map_sum_insert(pre.spec_share_balances(), caller, new_caller_shares);
        }
        self.total_supply = self.total_supply - shares;
        Ok(())
    }

    /// The gross amount of the second asset a swap of `amount_in` of the
    /// first would yield right now, for this caller.
    pub fn get_est_price_psp22_token1_to_psp22_token2(
        &self,
        token1: &PSP22Data,
        token2: &PSP22Data,
        panx: &PSP22Data,
        caller: AccountId,
        amount_in: Balance,
    ) -> (r: Result<Balance, TradingPairError>)
        ensures
            r == spec_quote_outcome(
                amount_in,
                self.spec_fee(),
                panx.bal(caller),
                token1.bal(self.spec_account_id()),
                token2.bal(self.spec_account_id()),
            ),
    {
        let caller_current_balance: Balance = panx.balance_of(caller);
        let reserve_in: Balance = self.get_psp22_token1_reserve(token1);
        let reserve_out: Balance = self.get_psp22_token2_reserve(token2);
        quote_amount_out(amount_in, self.fee, caller_current_balance, reserve_in, reserve_out)
    }

    /// The gross amount of the first asset a swap of `amount_in` of the
    /// second would yield right now, for this caller.
    pub fn get_est_price_psp22_token2_to_psp22_token1(
        &self,
        token1: &PSP22Data,
        token2: &PSP22Data,
        panx: &PSP22Data,
        caller: AccountId,
        amount_in: Balance,
    ) -> (r: Result<Balance, TradingPairError>)
        ensures
            r == spec_quote_outcome(
                amount_in,
                self.spec_fee(),
                panx.bal(caller),
                token2.bal(self.spec_account_id()),
                token1.bal(self.spec_account_id()),
            ),
    {
        let caller_current_balance: Balance = panx.balance_of(caller);
        let reserve_in: Balance = self.get_psp22_token2_reserve(token2);
        let reserve_out: Balance = self.get_psp22_token1_reserve(token1);
        quote_amount_out(amount_in, self.fee, caller_current_balance, reserve_in, reserve_out)
    }

    /// The second-asset amount given for one whole unit of the first asset.
    pub fn get_price_for_one_psp22_token1(
        &self,
        token1: &PSP22Data,
        token2: &PSP22Data,
        panx: &PSP22Data,
        caller: AccountId,
    ) -> (r: Result<Balance, TradingPairError>)
        ensures
            r == spec_quote_outcome(
                FEE_UNIT,
                self.spec_fee(),
                panx.bal(caller),
                token1.bal(self.spec_account_id()),
                token2.bal(self.spec_account_id()),
            ),
    {
        self.get_est_price_psp22_token1_to_psp22_token2(token1, token2, panx, caller, FEE_UNIT)
    }

    /// The first-asset amount given for one whole unit of the second asset.
    pub fn get_price_for_one_psp22_token2(
        &self,
        token1: &PSP22Data,
        token2: &PSP22Data,
        panx: &PSP22Data,
        caller: AccountId,
    ) -> (r: Result<Balance, TradingPairError>)
        ensures
            r == spec_quote_outcome(
                FEE_UNIT,
                self.spec_fee(),
                panx.bal(caller),
                token2.bal(self.spec_account_id()),
                token1.bal(self.spec_account_id()),
            ),
    {
        self.get_est_price_psp22_token2_to_psp22_token1(token1, token2, panx, caller, FEE_UNIT)
    }

    /// The second-asset amount given for one hundred whole units of the
    /// first asset: the pool's posted price.
    pub fn get_current_price(
        &self,
        token1: &PSP22Data,
        token2: &PSP22Data,
        panx: &PSP22Data,
        caller: AccountId,
    ) -> (r: Result<Balance, TradingPairError>)
        ensures
            r == spec_quote_outcome(
                (100 * FEE_UNIT) as Balance,
                self.spec_fee(),
                panx.bal(caller),
                token1.bal(self.spec_account_id()),
                token2.bal(self.spec_account_id()),
            ),
    {
        let amount_in: Balance = 100 * FEE_UNIT;
        self.get_est_price_psp22_token1_to_psp22_token2(token1, token2, panx, caller, amount_in)
    }

    /// The estimated price impact of swapping `amount_in` of the first asset:
    /// the output the trade's own size leaves for an identical follow-up.
    pub fn get_price_impact_psp22_token1_to_psp22_token2(
        &self,
        token1: &PSP22Data,
        token2: &PSP22Data,
        panx: &PSP22Data,
        caller: AccountId,
        amount_in: Balance,
    ) -> (r: Result<Balance, TradingPairError>)
        ensures
            r == spec_impact_outcome(
                amount_in,
                self.spec_fee(),
                panx.bal(caller),
                token1.bal(self.spec_account_id()),
                token2.bal(self.spec_account_id()),
            ),
    {
        let caller_current_balance: Balance = panx.balance_of(caller);
        let reserve_in: Balance = self.get_psp22_token1_reserve(token1);
        let reserve_out: Balance = self.get_psp22_token2_reserve(token2);
        impact_amount_out(amount_in, self.fee, caller_current_balance, reserve_in, reserve_out)
    }

    /// The estimated price impact of swapping `amount_in` of the second
    /// asset, with the asset roles reversed.
    pub fn get_price_impact_psp22_token2_to_psp22_token1(
        &self,
        token1: &PSP22Data,
        token2: &PSP22Data,
        panx: &PSP22Data,
        caller: AccountId,
        amount_in: Balance,
    ) -> (r: Result<Balance, TradingPairError>)
        ensures
            r == spec_impact_outcome(
                amount_in,
                self.spec_fee(),
                panx.bal(caller),
                token2.bal(self.spec_account_id()),
                token1.bal(self.spec_account_id()),
            ),
    {
        let caller_current_balance: Balance = panx.balance_of(caller);
        let reserve_in: Balance = self.get_psp22_token2_reserve(token2);
        let reserve_out: Balance = self.get_psp22_token1_reserve(token1);
        impact_amount_out(amount_in, self.fee, caller_current_balance, reserve_in, reserve_out)
    }

    /// Executes one swap: after every check passes, pulls `amount_to_swap` of
    /// the incoming asset from the caller, pays the caller's part of the
    /// quoted output and the vault's cut in the outgoing asset, and counts
    /// the trade. All checks precede all transfers, so a failed swap leaves
    /// every ledger exactly as it was.
    fn swap_exact_in(
        &mut self,
        token_in: &mut PSP22Data,
        token_out: &mut PSP22Data,
        panx: &PSP22Data,
        caller: AccountId,
        amount_to_swap: Balance,
        amount_to_validate: Balance,
        slippage: Balance,
    ) -> (r: Result<(), TradingPairError>)
        requires
            old(self).well_formed(),
            old(token_in).well_formed(),
            old(token_out).well_formed(),
        ensures
            final(self).well_formed(),
            final(token_in).well_formed(),
            final(token_out).well_formed(),
            spec_config_unchanged(*old(self), *final(self)),
            spec_shares_unchanged(*old(self), *final(self)),
            spec_lp_allowances_unchanged(*old(self), *final(self)),
            r == spec_swap_outcome(
                *old(self),
                *old(token_in),
                *old(token_out),
                *panx,
                caller,
                amount_to_swap,
                amount_to_validate,
                slippage,
            ),
            r is Err ==> *final(self) == *old(self) && *final(token_in) == *old(token_in)
                && *final(token_out) == *old(token_out),
            r is Ok ==> ({
                let pool = old(self).spec_account_id();
                let gross = spec_amount_out(
                    amount_to_swap,
                    old(self).spec_fee(),
                    panx.bal(caller),
                    old(token_in).bal(pool),
                    old(token_out).bal(pool),
                ) as Balance;
                let fee_rate = old(self).spec_traders_fee();
                &&& final(self).spec_trade_count() == old(self).spec_trade_count() + 1
                &&& crate::data::spec_moved(
                    *old(token_in),
                    *final(token_in),
                    caller,
                    pool,
                    amount_to_swap,
                )
                &&& crate::data::spec_allowance_spent(
                    *old(token_in),
                    *final(token_in),
                    caller,
                    pool,
                    pool,
                    amount_to_swap,
                )
                &&& spec_paid_out(
                    *old(token_out),
                    *final(token_out),
                    pool,
                    caller,
                    old(self).spec_vault(),
                    spec_caller_out(gross, fee_rate),
                    spec_vault_out(gross, fee_rate),
                )
                &&& crate::data::spec_allowances_unchanged(*old(token_out), *final(token_out))
            }),
    {
        let caller_current_balance: Balance = token_in.balance_of(caller);
        if caller_current_balance < amount_to_swap {
            return Err(
                TradingPairError::InsufficientBalance {
                    requested: amount_to_swap,
                    available: caller_current_balance,
                },
            );
        }
        let contract_allowance: Balance = token_in.allowance(caller, self.account_id);
        if contract_allowance < amount_to_swap {
            return Err(
                TradingPairError::InsufficientAllowance {
                    requested: amount_to_swap,
                    available: contract_allowance,
                },
            );
        }
        let caller_panx_balance: Balance = panx.balance_of(caller);
        let reserve_in: Balance = token_in.balance_of(self.account_id);
        let reserve_out: Balance = token_out.balance_of(self.account_id);
        let gross: Balance = match quote_amount_out(
            amount_to_swap,
            self.fee,
            caller_panx_balance,
            reserve_in,
            reserve_out,
        ) {
            Ok(v) => v,
            Err(e) => {
                return Err(e);
            },
        };
        let vault_cut: Balance = match gross.checked_mul(self.traders_fee) {
            Some(v) => v,
            None => {
                return Err(TradingPairError::Overflow);
            },
        };
        let actual_amount_out: Balance = match gross.checked_sub(vault_cut) {
            Some(v) => v,
            None => {
                return Err(TradingPairError::Overflow);
            },
        };
        let percentage_diff: Balance = match self.check_diffrenece(amount_to_validate, gross) {
            Ok(v) => v,
            Err(e) => {
                return Err(e);
            },
        };
        if percentage_diff > slippage {
            return Err(
                TradingPairError::SlippageExceeded {
                    difference: percentage_diff,
                    tolerance: slippage,
                },
            );
        }
        if self.transasction_number == i64::MAX {
            return Err(TradingPairError::Overflow);
        }
        // the funding and allowance checks above guarantee the pull succeeds
        match token_in.transfer_from(self.account_id, caller, self.account_id, amount_to_swap) {
            Ok(_) => {},
            Err(_) => {
                proof {
                    assert(false);
                }
                return Err(TradingPairError::Overflow);
            },
        }
        proof {
            lemma_quote_bounded(
                amount_to_swap,
                self.spec_fee(),
                panx.bal(caller),
                reserve_in,
                reserve_out,
            );
        }
        // the quote never exceeds the outgoing reserve, so the pool can pay
        // both legs of the split
        match token_out.transfer(self.account_id, caller, actual_amount_out) {
            Ok(_) => {},
            Err(_) => {
                proof {
                    assert(false);
                }
                return Err(TradingPairError::Overflow);
            },
        }
        let ghost mid_out = *token_out;
        match token_out.transfer(self.account_id, self.vault, vault_cut) {
            Ok(_) => {},
            Err(_) => {
                proof {
                    assert(false);
                }
                return Err(TradingPairError::Overflow);
            },
        }
        proof {
            let pool = self.spec_account_id();
            let vault = self.spec_vault();
            assert forall|a: AccountId| #[trigger]
                token_out.bal(a) as int == old(token_out).bal(a) + (if a == caller && caller
                    != pool {
                    actual_amount_out as int
                } else {
                    0
                }) + (if a == vault && vault != pool {
                    vault_cut as int
                } else {
                    0
                }) - (if a == pool {
                    (if caller != pool {
                        actual_amount_out as int
                    } else {
                        0
                    }) + (if vault != pool {
                        vault_cut as int
                    } else {
                        0
                    })
                } else {
                    0
                }) by {
                assert(mid_out.bal(a) == crate::data::spec_bal_after_move(
                    *old(token_out),
                    pool,
                    caller,
                    actual_amount_out,
                    a,
                ));
                assert(token_out.bal(a) == crate::data::spec_bal_after_move(
                    mid_out,
                    pool,
                    vault,
                    vault_cut,
                    a,
                ));
            }
        }
        self.transasction_number = self.transasction_number + 1;
        Ok(())
    }

    /// Swaps `psp22_token1_amount_to_swap` of the first asset for the second:
    /// verifies the caller's funds and the pair's allowance, quotes the gross
    /// output against the caller's earlier quote `amount_to_validate` within
    /// `slippage`, then moves all three legs and counts the trade.
    pub fn swap_psp22_token1(
        &mut self,
        token1: &mut PSP22Data,
        token2: &mut PSP22Data,
        panx: &PSP22Data,
        caller: AccountId,
        psp22_token1_amount_to_swap: Balance,
        amount_to_validate: Balance,
        slippage: Balance,
    ) -> (r: Result<(), TradingPairError>)
        requires
            old(self).well_formed(),
            old(token1).well_formed(),
            old(token2).well_formed(),
        ensures
            final(self).well_formed(),
            final(token1).well_formed(),
            final(token2).well_formed(),
            spec_config_unchanged(*old(self), *final(self)),
            spec_shares_unchanged(*old(self), *final(self)),
            spec_lp_allowances_unchanged(*old(self), *final(self)),
            r == spec_swap_outcome(
                *old(self),
                *old(token1),
                *old(token2),
                *panx,
                caller,
                psp22_token1_amount_to_swap,
                amount_to_validate,
                slippage,
            ),
            r is Err ==> *final(self) == *old(self) && *final(token1) == *old(token1)
                && *final(token2) == *old(token2),
            r is Ok ==> ({
                let pool = old(self).spec_account_id();
                let gross = spec_amount_out(
                    psp22_token1_amount_to_swap,
                    old(self).spec_fee(),
                    panx.bal(caller),
                    old(token1).bal(pool),
                    old(token2).bal(pool),
                ) as Balance;
                let fee_rate = old(self).spec_traders_fee();
                &&& final(self).spec_trade_count() == old(self).spec_trade_count() + 1
                &&& crate::data::spec_moved(
                    *old(token1),
                    *final(token1),
                    caller,
                    pool,
                    psp22_token1_amount_to_swap,
                )
                &&& crate::data::spec_allowance_spent(
                    *old(token1),
                    *final(token1),
                    caller,
                    pool,
                    pool,
                    psp22_token1_amount_to_swap,
                )
                &&& spec_paid_out(
                    *old(token2),
                    *final(token2),
                    pool,
                    caller,
                    old(self).spec_vault(),
                    spec_caller_out(gross, fee_rate),
                    spec_vault_out(gross, fee_rate),
                )
                &&& crate::data::spec_allowances_unchanged(*old(token2), *final(token2))
            }),
    {
        self.swap_exact_in(
            token1,
            token2,
            panx,
            caller,
            psp22_token1_amount_to_swap,
            amount_to_validate,
            slippage,
        )
    }

    /// Swaps `psp22_token2_amount_to_swap` of the second asset for the first:
    /// the symmetric procedure with the asset roles reversed.
    pub fn swap_psp22_token2(
        &mut self,
        token1: &mut PSP22Data,
        token2: &mut PSP22Data,
        panx: &PSP22Data,
        caller: AccountId,
        psp22_token2_amount_to_swap: Balance,
        amount_to_validate: Balance,
        slippage: Balance,
    ) -> (r: Result<(), TradingPairError>)
        requires
            old(self).well_formed(),
            old(token1).well_formed(),
            old(token2).well_formed(),
        ensures
            final(self).well_formed(),
            final(token1).well_formed(),
            final(token2).well_formed(),
            spec_config_unchanged(*old(self), *final(self)),
            spec_shares_unchanged(*old(self), *final(self)),
            spec_lp_allowances_unchanged(*old(self), *final(self)),
            r == spec_swap_outcome(
                *old(self),
                *old(token2),
                *old(token1),
                *panx,
                caller,
                psp22_token2_amount_to_swap,
                amount_to_validate,
                slippage,
            ),
            r is Err ==> *final(self) == *old(self) && *final(token1) == *old(token1)
                && *final(token2) == *old(token2),
            r is Ok ==> ({
                let pool = old(self).spec_account_id();
                let gross = spec_amount_out(
                    psp22_token2_amount_to_swap,
                    old(self).spec_fee(),
                    panx.bal(caller),
                    old(token2).bal(pool),
                    old(token1).bal(pool),
                ) as Balance;
                let fee_rate = old(self).spec_traders_fee();
                &&& final(self).spec_trade_count() == old(self).spec_trade_count() + 1
                &&& crate::data::spec_moved(
                    *old(token2),
                    *final(token2),
                    caller,
                    pool,
                    psp22_token2_amount_to_swap,
                )
                &&& crate::data::spec_allowance_spent(
                    *old(token2),
                    *final(token2),
                    caller,
                    pool,
                    pool,
                    psp22_token2_amount_to_swap,
                )
                &&& spec_paid_out(
                    *old(token1),
                    *final(token1),
                    pool,
                    caller,
                    old(self).spec_vault(),
                    spec_caller_out(gross, fee_rate),
                    spec_vault_out(gross, fee_rate),
                )
                &&& crate::data::spec_allowances_unchanged(*old(token1), *final(token1))
            }),
    {
        self.swap_exact_in(
            token2,
            token1,
            panx,
            caller,
            psp22_token2_amount_to_swap,
            amount_to_validate,
            slippage,
        )
    }

    /// Returns both measured deposits to the caller: the compensating
    /// transfers an aborted provision performs before it signals failure, so
    /// that every balance reads as it did before the deposits were pulled.
    fn refund_deposits(
        &self,
        token1: &mut PSP22Data,
        token2: &mut PSP22Data,
        caller: AccountId,
        amount1: Balance,
        amount2: Balance,
        Ghost(orig1): Ghost<PSP22Data>,
        Ghost(orig2): Ghost<PSP22Data>,
        Ghost(deposit1): Ghost<Balance>,
        Ghost(deposit2): Ghost<Balance>,
    )
        requires
            old(token1).well_formed(),
            old(token2).well_formed(),
            crate::data::spec_moved(
                orig1,
                *old(token1),
                caller,
                self.spec_account_id(),
                deposit1,
            ),
            crate::data::spec_allowance_spent(
                orig1,
                *old(token1),
                caller,
                self.spec_account_id(),
                self.spec_account_id(),
                deposit1,
            ),
            crate::data::spec_moved(
                orig2,
                *old(token2),
                caller,
                self.spec_account_id(),
                deposit2,
            ),
            crate::data::spec_allowance_spent(
                orig2,
                *old(token2),
                caller,
                self.spec_account_id(),
                self.spec_account_id(),
                deposit2,
            ),
            amount1 == (if caller == self.spec_account_id() {
                0
            } else {
                deposit1
            }),
            amount2 == (if caller == self.spec_account_id() {
                0
            } else {
                deposit2
            }),
        ensures
            final(token1).well_formed(),
            final(token2).well_formed(),
            crate::data::spec_balances_unchanged(orig1, *final(token1)),
            crate::data::spec_allowance_spent(
                orig1,
                *final(token1),
                caller,
                self.spec_account_id(),
                self.spec_account_id(),
                deposit1,
            ),
            crate::data::spec_balances_unchanged(orig2, *final(token2)),
            crate::data::spec_allowance_spent(
                orig2,
                *final(token2),
                caller,
                self.spec_account_id(),
                self.spec_account_id(),
                deposit2,
            ),
    {
        let ghost pool = self.spec_account_id();
        // the pool still holds what the pulls just brought in, so neither
        // compensating transfer can fail
        match token1.transfer(self.account_id, caller, amount1) {
            Ok(_) => {},
            Err(_) => {
                proof {
                    assert(false);
                }
            },
        }
        match token2.transfer(self.account_id, caller, amount2) {
            Ok(_) => {},
            Err(_) => {
                proof {
                    assert(false);
                }
            },
        }
        proof {
            assert forall|a: AccountId| #[trigger] token1.bal(a) == orig1.bal(a) by {
                assert(old(token1).bal(a) == crate::data::spec_bal_after_move(
                    orig1,
                    caller,
                    pool,
                    deposit1,
                    a,
                ));
                assert(token1.bal(a) == crate::data::spec_bal_after_move(
                    *old(token1),
                    pool,
                    caller,
                    amount1,
                    a,
                ));
            }
            assert forall|a: AccountId| #[trigger] token2.bal(a) == orig2.bal(a) by {
                assert(old(token2).bal(a) == crate::data::spec_bal_after_move(
                    orig2,
                    caller,
                    pool,
                    deposit2,
                    a,
                ));
                assert(token2.bal(a) == crate::data::spec_bal_after_move(
                    *old(token2),
                    pool,
                    caller,
                    amount2,
                    a,
                ));
            }
        }
    }

    /// Provides liquidity: pulls both requested deposits from the caller,
    /// measures what actually arrived, computes the shares they mint, and
    /// credits them to the caller — unless the computed shares are zero or
    /// deviate from `excpeted_lp_tokens` by more than `slippage`, in which
    /// case both measured deposits are refunded in full and the operation
    /// aborts. A refunded abort leaves every balance as it was; only the
    /// transfer allowances the pulls consumed stay spent.
    pub fn provide_to_pool(
        &mut self,
        token1: &mut PSP22Data,
        token2: &mut PSP22Data,
        caller: AccountId,
        psp22_token1_deposit_amount: Balance,
        psp22_token2_deposit_amount: Balance,
        excpeted_lp_tokens: Balance,
        slippage: Balance,
    ) -> (r: Result<(), TradingPairError>)
        requires
            old(self).well_formed(),
            old(token1).well_formed(),
            old(token2).well_formed(),
        ensures
            final(self).well_formed(),
            final(token1).well_formed(),
            final(token2).well_formed(),
            spec_config_unchanged(*old(self), *final(self)),
            final(self).spec_trade_count() == old(self).spec_trade_count(),
            spec_lp_allowances_unchanged(*old(self), *final(self)),
            r == spec_provide_outcome(
                *old(self),
                *old(token1),
                *old(token2),
                caller,
                psp22_token1_deposit_amount,
                psp22_token2_deposit_amount,
                excpeted_lp_tokens,
                slippage,
            ),
            !spec_provide_checks_pass(
                *old(self),
                *old(token1),
                *old(token2),
                caller,
                psp22_token1_deposit_amount,
                psp22_token2_deposit_amount,
            ) ==> *final(self) == *old(self) && *final(token1) == *old(token1)
                && *final(token2) == *old(token2),
            (spec_provide_checks_pass(
                *old(self),
                *old(token1),
                *old(token2),
                caller,
                psp22_token1_deposit_amount,
                psp22_token2_deposit_amount,
            ) && r is Err) ==> ({
                let pool = old(self).spec_account_id();
                &&& *final(self) == *old(self)
                &&& crate::data::spec_balances_unchanged(*old(token1), *final(token1))
                &&& crate::data::spec_allowance_spent(
                    *old(token1),
                    *final(token1),
                    caller,
                    pool,
                    pool,
                    psp22_token1_deposit_amount,
                )
                &&& crate::data::spec_balances_unchanged(*old(token2), *final(token2))
                &&& crate::data::spec_allowance_spent(
                    *old(token2),
                    *final(token2),
                    caller,
                    pool,
                    pool,
                    psp22_token2_deposit_amount,
                )
            }),
            r is Ok ==> ({
                let pool = old(self).spec_account_id();
                let actual1 = if caller == pool {
                    0
                } else {
                    psp22_token1_deposit_amount
                };
                let shares = spec_provide_shares(
                    old(self).spec_total_shares(),
                    actual1,
                    old(token1).bal(pool),
                );
                &&& crate::data::spec_moved(
                    *old(token1),
                    *final(token1),
                    caller,
                    pool,
                    psp22_token1_deposit_amount,
                )
                &&& crate::data::spec_allowance_spent(
                    *old(token1),
                    *final(token1),
                    caller,
                    pool,
                    pool,
                    psp22_token1_deposit_amount,
                )
                &&& crate::data::spec_moved(
                    *old(token2),
                    *final(token2),
                    caller,
                    pool,
                    psp22_token2_deposit_amount,
                )
                &&& crate::data::spec_allowance_spent(
                    *old(token2),
                    *final(token2),
                    caller,
                    pool,
                    pool,
                    psp22_token2_deposit_amount,
                )
                &&& final(self).spec_total_shares() == old(self).spec_total_shares() + shares
                &&& forall|a: AccountId| #[trigger]
                    final(self).share_of(a) as int == old(self).share_of(a) + (if a == caller {
                        shares
                    } else {
                        0
                    })
            }),
    {
        let caller_current_balance_token1: Balance = token1.balance_of(caller);
        if caller_current_balance_token1 < psp22_token1_deposit_amount {
            return Err(
                TradingPairError::InsufficientBalance {
                    requested: psp22_token1_deposit_amount,
                    available: caller_current_balance_token1,
                },
            );
        }
        let caller_current_balance_token2: Balance = token2.balance_of(caller);
        if caller_current_balance_token2 < psp22_token2_deposit_amount {
            return Err(
                TradingPairError::InsufficientBalance {
                    requested: psp22_token2_deposit_amount,
                    available: caller_current_balance_token2,
                },
            );
        }
        let contract_token1_allowance: Balance = token1.allowance(caller, self.account_id);
        if contract_token1_allowance < psp22_token1_deposit_amount {
            return Err(
                TradingPairError::InsufficientAllowance {
                    requested: psp22_token1_deposit_amount,
                    available: contract_token1_allowance,
                },
            );
        }
        let contract_token2_allowance: Balance = token2.allowance(caller, self.account_id);
        if contract_token2_allowance < psp22_token2_deposit_amount {
            return Err(
                TradingPairError::InsufficientAllowance {
                    requested: psp22_token2_deposit_amount,
                    available: contract_token2_allowance,
                },
            );
        }
        let ghost orig1 = *token1;
        let ghost orig2 = *token2;

        // pull the first asset, measuring the pool's actual balance delta;
        // the four checks above guarantee that both pulls succeed
        let contract_psp22_1_starting_balance: Balance = token1.balance_of(self.account_id);
        match token1.transfer_from(
            self.account_id,
            caller,
            self.account_id,
            psp22_token1_deposit_amount,
        ) {
            Ok(_) => {},
            Err(_) => {
                proof {
                    assert(false);
                }
                return Err(TradingPairError::Overflow);
            },
        }
        let contract_psp22_1_closing_balance: Balance = token1.balance_of(self.account_id);
        let actual_psp22_1_deposit_amount: Balance = contract_psp22_1_closing_balance
            - contract_psp22_1_starting_balance;

        // pull the second asset the same way
        let contract_psp22_2_starting_balance: Balance = token2.balance_of(self.account_id);
        match token2.transfer_from(
            self.account_id,
            caller,
            self.account_id,
            psp22_token2_deposit_amount,
        ) {
            Ok(_) => {},
            Err(_) => {
                proof {
                    assert(false);
                }
                return Err(TradingPairError::Overflow);
            },
        }
        let contract_psp22_2_closing_balance: Balance = token2.balance_of(self.account_id);
        let actual_psp22_2_deposit_amount: Balance = contract_psp22_2_closing_balance
            - contract_psp22_2_starting_balance;

        // shares this deposit mints
        let mut shares: Balance = 0;
        if self.total_supply == 0 {
            shares = BOOTSTRAP_SHARES;
        }
        if self.total_supply > 0 {
            let current_reserve1: Balance = token1.balance_of(self.account_id);
            let pre_deposit_reserve1: Balance = current_reserve1 - actual_psp22_1_deposit_amount;
            let numerator: Balance = match actual_psp22_1_deposit_amount.checked_mul(
                self.total_supply,
            ) {
                Some(v) => v,
                None => {
                    self.refund_deposits(
                        token1,
                        token2,
                        caller,
                        actual_psp22_1_deposit_amount,
                        actual_psp22_2_deposit_amount,
                        Ghost(orig1),
                        Ghost(orig2),
                        Ghost(psp22_token1_deposit_amount),
                        Ghost(psp22_token2_deposit_amount),
                    );
                    return Err(TradingPairError::Overflow);
                },
            };
            match numerator.checked_div(pre_deposit_reserve1) {
                Some(v) => {
                    shares = v;
                },
                None => {
                    self.refund_deposits(
                        token1,
                        token2,
                        caller,
                        actual_psp22_1_deposit_amount,
                        actual_psp22_2_deposit_amount,
                        Ghost(orig1),
                        Ghost(orig2),
                        Ghost(psp22_token1_deposit_amount),
                        Ghost(psp22_token2_deposit_amount),
                    );
                    return Err(TradingPairError::DivisionByZero);
                },
            }
        }
        if shares == 0 {
            self.refund_deposits(
                token1,
                token2,
                caller,
                actual_psp22_1_deposit_amount,
                actual_psp22_2_deposit_amount,
                Ghost(orig1),
                Ghost(orig2),
                Ghost(psp22_token1_deposit_amount),
                Ghost(psp22_token2_deposit_amount),
            );
            return Err(TradingPairError::ZeroShares);
        }
        let percentage_diff: Balance = match self.check_diffrenece(excpeted_lp_tokens, shares) {
            Ok(v) => v,
            Err(e) => {
                self.refund_deposits(
                    token1,
                    token2,
                    caller,
                    actual_psp22_1_deposit_amount,
                    actual_psp22_2_deposit_amount,
                    Ghost(orig1),
                    Ghost(orig2),
                    Ghost(psp22_token1_deposit_amount),
                    Ghost(psp22_token2_deposit_amount),
                );
                return Err(e);
            },
        };
        if percentage_diff > slippage {
            self.refund_deposits(
                token1,
                token2,
                caller,
                actual_psp22_1_deposit_amount,
                actual_psp22_2_deposit_amount,
                Ghost(orig1),
                Ghost(orig2),
                Ghost(psp22_token1_deposit_amount),
                Ghost(psp22_token2_deposit_amount),
            );
            return Err(
                TradingPairError::SlippageExceeded {
                    difference: percentage_diff,
                    tolerance: slippage,
                },
            );
        }
        let new_total_supply: Balance = match self.total_supply.checked_add(shares) {
            Some(v) => v,
            None => {
                self.refund_deposits(
                    token1,
                    token2,
                    caller,
                    actual_psp22_1_deposit_amount,
                    actual_psp22_2_deposit_amount,
                    Ghost(orig1),
                    Ghost(orig2),
                    Ghost(psp22_token1_deposit_amount),
                    Ghost(psp22_token2_deposit_amount),
                );
                return Err(TradingPairError::Overflow);
            },
        };
        let current_shares: Balance = self.get_lp_token_of(caller);
        proof {
            if self.spec_share_balances().dom().contains(caller) {
                lemma_map_sum_entry_bound(self.spec_share_balances(), caller);
            }
        }
        let new_caller_shares: Balance = current_shares + shares;
        let ghost pre_pool = *self;
        self.balances.insert(caller, new_caller_shares);
        proof {
            lemma_map_sum_insert(pre_pool.spec_share_balances(), caller, new_caller_shares);
        }
        self.total_supply = new_total_supply;
        Ok(())
    }
}

/// Conservation: at every observation point the recorded share total equals
/// the sum of all participants' share balances. Each operation of the pair
/// requires and re-establishes `well_formed`, so the equality carries over
/// any sequence of provisions, withdrawals, swaps and share transfers.
pub proof fn lemma_shares_conservation(p: TradingPairPsp22)
    requires
        p.well_formed(),
    ensures
        map_sum(p.spec_share_balances()) == p.spec_total_shares(),
{
}

/// First-deposit bootstrap: a provision into an empty pool mints exactly the
/// fixed bootstrap amount, whatever the deposited amounts and reserves.
pub proof fn lemma_first_deposit_bootstrap(actual_deposit1: Balance, reserve1_before: Balance)
    ensures
        spec_provide_shares(0, actual_deposit1, reserve1_before) == BOOTSTRAP_SHARES,
{
}

/// Proportionality round trip: a withdrawal of `shares` pays out
/// `shares * reserve1 / total` of the first asset, and immediately providing
/// that amount back mints at most `shares` again — floor division can lose
/// value, never create it. (Redeeming every share is excluded: a following
/// provision would hit the empty pool's bootstrap branch instead.)
pub proof fn lemma_withdraw_reprovide_no_gain(shares: Balance, reserve1: Balance, total: Balance)
    requires
        0 < shares < total,
        reserve1 > 0,
    ensures
        ({
            let amount1 = (shares * reserve1) / (total as int);
            spec_provide_shares(
                (total - shares) as Balance,
                amount1 as Balance,
                (reserve1 - amount1) as Balance,
            ) <= shares
        }),
{
    let s = shares as int;
    let r = reserve1 as int;
    let t = total as int;
    let a = (s * r) / t;
    lemma_proportion_bounded(s, t, r);
    vstd::arithmetic::div_mod::lemma_remainder_lower(s * r, t);
    assert(a * t <= s * r) by (nonlinear_arith)
        requires
            a * t == ((s * r) / t) * t,
            ((s * r) / t) * t <= s * r,
    ;
    assert(a < r) by (nonlinear_arith)
        requires
            a * t <= s * r,
            0 < s < t,
            r > 0,
            a >= 0,
    ;
    assert(a * (t - s) <= s * (r - a)) by (nonlinear_arith)
        requires
            a * t <= s * r,
    ;
    vstd::arithmetic::div_mod::lemma_div_is_ordered(a * (t - s), s * (r - a), r - a);
    vstd::arithmetic::div_mod::lemma_div_multiples_vanish(s, r - a);
    assert(s * (r - a) == (r - a) * s) by (nonlinear_arith);
}

/// Slippage gate: with the caller funded, the pair allowed, the quote and the
/// fee split in range and one more trade countable, a swap succeeds exactly
/// when the quoted gross output deviates from the caller's expectation by no
/// more than the supplied tolerance — and not otherwise.
pub proof fn lemma_slippage_gate(
    p: TradingPairPsp22,
    token_in: PSP22Data,
    token_out: PSP22Data,
    panx: PSP22Data,
    caller: AccountId,
    amount_to_swap: Balance,
    amount_to_validate: Balance,
    slippage: Balance,
)
    requires
        p.well_formed(),
        token_in.bal(caller) >= amount_to_swap,
        token_in.alw(caller, p.spec_account_id()) >= amount_to_swap,
        spec_quote_outcome(
            amount_to_swap,
            p.spec_fee(),
            panx.bal(caller),
            token_in.bal(p.spec_account_id()),
            token_out.bal(p.spec_account_id()),
        ) is Ok,
        ({
            let gross = spec_amount_out(
                amount_to_swap,
                p.spec_fee(),
                panx.bal(caller),
                token_in.bal(p.spec_account_id()),
                token_out.bal(p.spec_account_id()),
            ) as Balance;
            spec_diff_outcome(amount_to_validate, gross) is Ok
        }),
        p.spec_trade_count() < i64::MAX,
    ensures
        ({
            let gross = spec_amount_out(
                amount_to_swap,
                p.spec_fee(),
                panx.bal(caller),
                token_in.bal(p.spec_account_id()),
                token_out.bal(p.spec_account_id()),
            ) as Balance;
            spec_swap_outcome(
                p,
                token_in,
                token_out,
                panx,
                caller,
                amount_to_swap,
                amount_to_validate,
                slippage,
            ) is Ok <==> spec_percentage_diff(amount_to_validate, gross) <= slippage
        }),
{
    let gross = spec_amount_out(
        amount_to_swap,
        p.spec_fee(),
        panx.bal(caller),
        token_in.bal(p.spec_account_id()),
        token_out.bal(p.spec_account_id()),
    ) as Balance;
    assert(gross as int * (p.spec_traders_fee() as int) == 0) by (nonlinear_arith)
        requires
            p.spec_traders_fee() == 0,
    ;
}

} // verus!


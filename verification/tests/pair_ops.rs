use trading_pair_psp22::data::PSP22Data;
use trading_pair_psp22::errors::TradingPairError;
use trading_pair_psp22::pair::{TradingPairPsp22, BOOTSTRAP_SHARES, FEE_UNIT};

#[test]
fn first_deposit_mints_the_bootstrap_shares() {
    // an empty pool, provided with (1000, 1000) against a matching quote
    let pool: u32 = 99;
    let alice: u32 = 1;
    let mut pair = TradingPairPsp22::new(11, 12, 0, 13, 50, pool);
    let mut token1 = PSP22Data::new(10_000, alice);
    let mut token2 = PSP22Data::new(10_000, alice);
    assert!(token1.approve(alice, pool, 1000).is_ok());
    assert!(token2.approve(alice, pool, 1000).is_ok());
    let r = pair.provide_to_pool(&mut token1, &mut token2, alice, 1000, 1000, BOOTSTRAP_SHARES, 0);
    assert!(r.is_ok());
    assert_eq!(pair.get_lp_token_of(alice), BOOTSTRAP_SHARES);
    assert_eq!(pair.get_total_supply(), BOOTSTRAP_SHARES);
    assert_eq!(pair.get_psp22_token1_reserve(&token1), 1000);
    assert_eq!(pair.get_psp22_token2_reserve(&token2), 1000);
    assert_eq!(token1.balance_of(alice), 9000);
    assert_eq!(token2.balance_of(alice), 9000);
}

#[test]
fn bootstrap_amount_ignores_the_deposited_amounts() {
    let pool: u32 = 99;
    let alice: u32 = 1;
    let mut pair = TradingPairPsp22::new(11, 12, 0, 13, 50, pool);
    let mut token1 = PSP22Data::new(10_000, alice);
    let mut token2 = PSP22Data::new(10_000, alice);
    assert!(token1.approve(alice, pool, 37).is_ok());
    assert!(token2.approve(alice, pool, 9000).is_ok());
    let r = pair.provide_to_pool(&mut token1, &mut token2, alice, 37, 9000, BOOTSTRAP_SHARES, 0);
    assert!(r.is_ok());
    assert_eq!(pair.get_lp_token_of(alice), BOOTSTRAP_SHARES);
}

#[test]
fn second_deposit_mints_proportionally_and_conserves_the_total() {
    let pool: u32 = 99;
    let alice: u32 = 1;
    let bob: u32 = 2;
    let mut pair = TradingPairPsp22::new(11, 12, 0, 13, 50, pool);
    let mut token1 = PSP22Data::new(10_000, alice);
    let mut token2 = PSP22Data::new(10_000, alice);
    assert!(token1.transfer(alice, bob, 2000).is_ok());
    assert!(token2.transfer(alice, bob, 2000).is_ok());
    assert!(token1.approve(alice, pool, 1000).is_ok());
    assert!(token2.approve(alice, pool, 1000).is_ok());
    assert!(pair
        .provide_to_pool(&mut token1, &mut token2, alice, 1000, 1000, BOOTSTRAP_SHARES, 0)
        .is_ok());
    // bob doubles the first-asset reserve: 500 * total / 1000
    assert!(token1.approve(bob, pool, 500).is_ok());
    assert!(token2.approve(bob, pool, 500).is_ok());
    let expected = 500 * BOOTSTRAP_SHARES / 1000;
    let r = pair.provide_to_pool(&mut token1, &mut token2, bob, 500, 500, expected, 0);
    assert!(r.is_ok());
    assert_eq!(pair.get_lp_token_of(bob), expected);
    // conservation: the share total is the sum over all holders
    assert_eq!(
        pair.get_total_supply(),
        pair.get_lp_token_of(alice) + pair.get_lp_token_of(bob)
    );
}

#[test]
fn provide_without_funds_or_approval_changes_nothing() {
    let pool: u32 = 99;
    let alice: u32 = 1;
    let mut pair = TradingPairPsp22::new(11, 12, 0, 13, 50, pool);
    let mut token1 = PSP22Data::new(100, alice);
    let mut token2 = PSP22Data::new(100, alice);
    let r = pair.provide_to_pool(&mut token1, &mut token2, alice, 101, 50, BOOTSTRAP_SHARES, 0);
    assert_eq!(
        r,
        Err(TradingPairError::InsufficientBalance { requested: 101, available: 100 })
    );
    let r = pair.provide_to_pool(&mut token1, &mut token2, alice, 50, 50, BOOTSTRAP_SHARES, 0);
    assert_eq!(
        r,
        Err(TradingPairError::InsufficientAllowance { requested: 50, available: 0 })
    );
    assert_eq!(token1.balance_of(alice), 100);
    assert_eq!(token2.balance_of(alice), 100);
    assert_eq!(pair.get_total_supply(), 0);
}

#[test]
fn provide_that_mints_no_shares_refunds_both_deposits() {
    let pool: u32 = 99;
    let alice: u32 = 1;
    let bob: u32 = 2;
    let mut pair = TradingPairPsp22::new(11, 12, 0, 13, 50, pool);
    let mut token1 = PSP22Data::new(10_000, alice);
    let mut token2 = PSP22Data::new(10_000, alice);
    assert!(token1.transfer(alice, bob, 100).is_ok());
    assert!(token2.transfer(alice, bob, 100).is_ok());
    assert!(token1.approve(alice, pool, 1000).is_ok());
    assert!(token2.approve(alice, pool, 1000).is_ok());
    assert!(pair
        .provide_to_pool(&mut token1, &mut token2, alice, 1000, 1000, BOOTSTRAP_SHARES, 0)
        .is_ok());
    // a zero first-asset deposit computes zero shares and is given back
    assert!(token2.approve(bob, pool, 100).is_ok());
    let r = pair.provide_to_pool(&mut token1, &mut token2, bob, 0, 100, 1, u128::MAX - 1);
    assert_eq!(r, Err(TradingPairError::ZeroShares));
    assert_eq!(token1.balance_of(bob), 100);
    assert_eq!(token2.balance_of(bob), 100);
    assert_eq!(pair.get_lp_token_of(bob), 0);
    assert_eq!(pair.get_total_supply(), BOOTSTRAP_SHARES);
}

#[test]
fn provide_outside_the_tolerance_refunds_both_deposits() {
    let pool: u32 = 99;
    let alice: u32 = 1;
    let bob: u32 = 2;
    let mut pair = TradingPairPsp22::new(11, 12, 0, 13, 50, pool);
    let mut token1 = PSP22Data::new(10_000, alice);
    let mut token2 = PSP22Data::new(10_000, alice);
    assert!(token1.transfer(alice, bob, 1000).is_ok());
    assert!(token2.transfer(alice, bob, 1000).is_ok());
    assert!(token1.approve(alice, pool, 1000).is_ok());
    assert!(token2.approve(alice, pool, 1000).is_ok());
    assert!(pair
        .provide_to_pool(&mut token1, &mut token2, alice, 1000, 1000, BOOTSTRAP_SHARES, 0)
        .is_ok());
    // bob quotes twice what his deposit will mint and allows no slippage
    assert!(token1.approve(bob, pool, 500).is_ok());
    assert!(token2.approve(bob, pool, 500).is_ok());
    let minted = 500 * BOOTSTRAP_SHARES / 1000;
    let r = pair.provide_to_pool(&mut token1, &mut token2, bob, 500, 500, 2 * minted, 0);
    assert!(matches!(r, Err(TradingPairError::SlippageExceeded { .. })));
    assert_eq!(token1.balance_of(bob), 1000);
    assert_eq!(token2.balance_of(bob), 1000);
    assert_eq!(pair.get_lp_token_of(bob), 0);
    assert_eq!(pair.get_total_supply(), BOOTSTRAP_SHARES);
}

#[test]
fn withdraw_pays_the_proportional_amounts() {
    let pool: u32 = 99;
    let alice: u32 = 1;
    let mut pair = TradingPairPsp22::new(11, 12, 0, 13, 50, pool);
    let mut token1 = PSP22Data::new(10_000, alice);
    let mut token2 = PSP22Data::new(10_000, alice);
    assert!(token1.approve(alice, pool, 1000).is_ok());
    assert!(token2.approve(alice, pool, 1000).is_ok());
    assert!(pair
        .provide_to_pool(&mut token1, &mut token2, alice, 1000, 1000, BOOTSTRAP_SHARES, 0)
        .is_ok());
    let shares = 400 * FEE_UNIT;
    assert_eq!(
        pair.get_withdraw_tokens_amount(&token1, &token2, shares),
        Ok((400, 400))
    );
    assert!(pair
        .withdraw_specific_amount(&mut token1, &mut token2, alice, shares)
        .is_ok());
    assert_eq!(token1.balance_of(alice), 9400);
    assert_eq!(token2.balance_of(alice), 9400);
    assert_eq!(pair.get_lp_token_of(alice), 600 * FEE_UNIT);
    assert_eq!(pair.get_total_supply(), 600 * FEE_UNIT);
    assert_eq!(pair.get_psp22_token1_reserve(&token1), 600);
}

#[test]
fn withdraw_and_reprovide_never_gains_shares() {
    let pool: u32 = 99;
    let alice: u32 = 1;
    let mut pair = TradingPairPsp22::new(11, 12, 0, 13, 50, pool);
    let mut token1 = PSP22Data::new(10_000, alice);
    let mut token2 = PSP22Data::new(10_000, alice);
    assert!(token1.approve(alice, pool, 2000).is_ok());
    assert!(token2.approve(alice, pool, 2000).is_ok());
    assert!(pair
        .provide_to_pool(&mut token1, &mut token2, alice, 1000, 1000, BOOTSTRAP_SHARES, 0)
        .is_ok());
    let shares = 400 * FEE_UNIT;
    assert!(pair
        .withdraw_specific_amount(&mut token1, &mut token2, alice, shares)
        .is_ok());
    let before = pair.get_lp_token_of(alice);
    // providing the withdrawn (400, 400) back mints at most the 400 units
    // of shares that were redeemed
    let r = pair.provide_to_pool(&mut token1, &mut token2, alice, 400, 400, shares, u128::MAX - 1);
    assert!(r.is_ok());
    let regained = pair.get_lp_token_of(alice) - before;
    assert!(regained <= shares);
    assert_eq!(regained, shares);
}

#[test]
fn withdraw_of_uncovered_shares_fails_with_insufficient_funds() {
    let pool: u32 = 99;
    let alice: u32 = 1;
    let mut pair = TradingPairPsp22::new(11, 12, 0, 13, 50, pool);
    let mut token1 = PSP22Data::new(10_000, alice);
    let mut token2 = PSP22Data::new(10_000, alice);
    assert!(token1.approve(alice, pool, 1000).is_ok());
    assert!(token2.approve(alice, pool, 1000).is_ok());
    assert!(pair
        .provide_to_pool(&mut token1, &mut token2, alice, 1000, 1000, BOOTSTRAP_SHARES, 0)
        .is_ok());
    let r = pair.withdraw_specific_amount(&mut token1, &mut token2, alice, BOOTSTRAP_SHARES + 1);
    assert_eq!(
        r,
        Err(TradingPairError::InsufficientBalance {
            requested: BOOTSTRAP_SHARES + 1,
            available: BOOTSTRAP_SHARES,
        })
    );
    assert_eq!(pair.get_total_supply(), BOOTSTRAP_SHARES);
    assert_eq!(token1.balance_of(alice), 9000);
}

#[test]
fn swap_pays_the_gross_quote_less_the_vault_cut() {
    // reserves (1000, 1000), 100 of the first asset in, no fee, no discount:
    // the gross quote is 90; the vault's fixed fraction floors to zero, so
    // the caller receives all 90 and the vault the remainder, zero
    let pool: u32 = 99;
    let vault: u32 = 50;
    let alice: u32 = 1;
    let bob: u32 = 2;
    let mut pair = TradingPairPsp22::new(11, 12, 0, 13, vault, pool);
    let mut token1 = PSP22Data::new(10_000, alice);
    let mut token2 = PSP22Data::new(10_000, alice);
    let panx = PSP22Data::new(0, alice);
    assert!(token1.transfer(alice, bob, 100).is_ok());
    assert!(token1.approve(alice, pool, 1000).is_ok());
    assert!(token2.approve(alice, pool, 1000).is_ok());
    assert!(pair
        .provide_to_pool(&mut token1, &mut token2, alice, 1000, 1000, BOOTSTRAP_SHARES, 0)
        .is_ok());
    assert!(token1.approve(bob, pool, 100).is_ok());
    let r = pair.swap_psp22_token1(&mut token1, &mut token2, &panx, bob, 100, 90, 0);
    assert!(r.is_ok());
    assert_eq!(token1.balance_of(bob), 0);
    assert_eq!(token2.balance_of(bob), 90);
    assert_eq!(token2.balance_of(vault), 0);
    assert_eq!(pair.get_psp22_token1_reserve(&token1), 1100);
    assert_eq!(pair.get_psp22_token2_reserve(&token2), 910);
    assert_eq!(pair.get_transactions_num(), 1);
}

#[test]
fn swap_within_the_tolerance_succeeds() {
    let pool: u32 = 99;
    let alice: u32 = 1;
    let mut pair = TradingPairPsp22::new(11, 12, 0, 13, 50, pool);
    let mut token1 = PSP22Data::new(10_000, alice);
    let mut token2 = PSP22Data::new(10_000, alice);
    let panx = PSP22Data::new(0, alice);
    assert!(token1.approve(alice, pool, 1100).is_ok());
    assert!(token2.approve(alice, pool, 1000).is_ok());
    assert!(pair
        .provide_to_pool(&mut token1, &mut token2, alice, 1000, 1000, BOOTSTRAP_SHARES, 0)
        .is_ok());
    // quoting 100 against the true 90 differs by 10/95 of fixed-point 100
    let tolerance = 10_526_315_789_400;
    let r = pair.swap_psp22_token1(&mut token1, &mut token2, &panx, alice, 100, 100, tolerance);
    assert!(r.is_ok());
    assert_eq!(pair.get_transactions_num(), 1);
}

#[test]
fn swap_beyond_the_tolerance_aborts_with_balances_unchanged() {
    let pool: u32 = 99;
    let alice: u32 = 1;
    let bob: u32 = 2;
    let mut pair = TradingPairPsp22::new(11, 12, 0, 13, 50, pool);
    let mut token1 = PSP22Data::new(10_000, alice);
    let mut token2 = PSP22Data::new(10_000, alice);
    let panx = PSP22Data::new(0, alice);
    assert!(token1.transfer(alice, bob, 100).is_ok());
    assert!(token1.approve(alice, pool, 1000).is_ok());
    assert!(token2.approve(alice, pool, 1000).is_ok());
    assert!(pair
        .provide_to_pool(&mut token1, &mut token2, alice, 1000, 1000, BOOTSTRAP_SHARES, 0)
        .is_ok());
    assert!(token1.approve(bob, pool, 100).is_ok());
    // the same quote with one less unit of tolerance is rejected
    let tolerance = 10_526_315_789_400 - 1;
    let r = pair.swap_psp22_token1(&mut token1, &mut token2, &panx, bob, 100, 100, tolerance);
    assert_eq!(
        r,
        Err(TradingPairError::SlippageExceeded {
            difference: 10_526_315_789_400,
            tolerance,
        })
    );
    assert_eq!(token1.balance_of(bob), 100);
    assert_eq!(token2.balance_of(bob), 0);
    assert_eq!(pair.get_psp22_token1_reserve(&token1), 1000);
    assert_eq!(pair.get_psp22_token2_reserve(&token2), 1000);
    assert_eq!(pair.get_transactions_num(), 0);
}

#[test]
fn swap_second_asset_uses_the_reversed_roles() {
    let pool: u32 = 99;
    let alice: u32 = 1;
    let mut pair = TradingPairPsp22::new(11, 12, 0, 13, 50, pool);
    let mut token1 = PSP22Data::new(10_000, alice);
    let mut token2 = PSP22Data::new(10_000, alice);
    let panx = PSP22Data::new(0, alice);
    assert!(token1.approve(alice, pool, 1000).is_ok());
    assert!(token2.approve(alice, pool, 1100).is_ok());
    assert!(pair
        .provide_to_pool(&mut token1, &mut token2, alice, 1000, 1000, BOOTSTRAP_SHARES, 0)
        .is_ok());
    let r = pair.swap_psp22_token2(&mut token1, &mut token2, &panx, alice, 100, 90, 0);
    assert!(r.is_ok());
    assert_eq!(pair.get_psp22_token2_reserve(&token2), 1100);
    assert_eq!(pair.get_psp22_token1_reserve(&token1), 910);
    assert_eq!(pair.get_transactions_num(), 1);
}

#[test]
fn swap_without_funds_or_approval_changes_nothing() {
    let pool: u32 = 99;
    let alice: u32 = 1;
    let bob: u32 = 2;
    let mut pair = TradingPairPsp22::new(11, 12, 0, 13, 50, pool);
    let mut token1 = PSP22Data::new(10_000, alice);
    let mut token2 = PSP22Data::new(10_000, alice);
    let panx = PSP22Data::new(0, alice);
    assert!(token1.approve(alice, pool, 1000).is_ok());
    assert!(token2.approve(alice, pool, 1000).is_ok());
    assert!(pair
        .provide_to_pool(&mut token1, &mut token2, alice, 1000, 1000, BOOTSTRAP_SHARES, 0)
        .is_ok());
    let r = pair.swap_psp22_token1(&mut token1, &mut token2, &panx, bob, 100, 90, 0);
    assert_eq!(
        r,
        Err(TradingPairError::InsufficientBalance { requested: 100, available: 0 })
    );
    assert!(token1.transfer(alice, bob, 100).is_ok());
    let r = pair.swap_psp22_token1(&mut token1, &mut token2, &panx, bob, 100, 90, 0);
    assert_eq!(
        r,
        Err(TradingPairError::InsufficientAllowance { requested: 100, available: 0 })
    );
    assert_eq!(pair.get_transactions_num(), 0);
}

#[test]
fn share_transfers_move_and_conserve_shares() {
    let pool: u32 = 99;
    let alice: u32 = 1;
    let bob: u32 = 2;
    let mut pair = TradingPairPsp22::new(11, 12, 0, 13, 50, pool);
    let mut token1 = PSP22Data::new(10_000, alice);
    let mut token2 = PSP22Data::new(10_000, alice);
    assert!(token1.approve(alice, pool, 1000).is_ok());
    assert!(token2.approve(alice, pool, 1000).is_ok());
    assert!(pair
        .provide_to_pool(&mut token1, &mut token2, alice, 1000, 1000, BOOTSTRAP_SHARES, 0)
        .is_ok());
    assert!(pair.transfer_lp_tokens(alice, bob, 300 * FEE_UNIT).is_ok());
    assert_eq!(pair.get_lp_token_of(alice), 700 * FEE_UNIT);
    assert_eq!(pair.get_lp_token_of(bob), 300 * FEE_UNIT);
    assert_eq!(pair.get_total_supply(), BOOTSTRAP_SHARES);
    let r = pair.transfer_lp_tokens(bob, alice, 300 * FEE_UNIT + 1);
    assert_eq!(
        r,
        Err(TradingPairError::InsufficientBalance {
            requested: 300 * FEE_UNIT + 1,
            available: 300 * FEE_UNIT,
        })
    );
}

#[test]
fn share_transfer_to_oneself_keeps_the_balance() {
    let pool: u32 = 99;
    let alice: u32 = 1;
    let mut pair = TradingPairPsp22::new(11, 12, 0, 13, 50, pool);
    let mut token1 = PSP22Data::new(10_000, alice);
    let mut token2 = PSP22Data::new(10_000, alice);
    assert!(token1.approve(alice, pool, 1000).is_ok());
    assert!(token2.approve(alice, pool, 1000).is_ok());
    assert!(pair
        .provide_to_pool(&mut token1, &mut token2, alice, 1000, 1000, BOOTSTRAP_SHARES, 0)
        .is_ok());
    assert!(pair.transfer_lp_tokens(alice, alice, 500 * FEE_UNIT).is_ok());
    assert_eq!(pair.get_lp_token_of(alice), BOOTSTRAP_SHARES);
    assert_eq!(pair.get_total_supply(), BOOTSTRAP_SHARES);
}

#[test]
fn share_allowance_gates_delegated_transfers() {
    let pool: u32 = 99;
    let alice: u32 = 1;
    let bob: u32 = 2;
    let carol: u32 = 3;
    let mut pair = TradingPairPsp22::new(11, 12, 0, 13, 50, pool);
    let mut token1 = PSP22Data::new(10_000, alice);
    let mut token2 = PSP22Data::new(10_000, alice);
    assert!(token1.approve(alice, pool, 1000).is_ok());
    assert!(token2.approve(alice, pool, 1000).is_ok());
    assert!(pair
        .provide_to_pool(&mut token1, &mut token2, alice, 1000, 1000, BOOTSTRAP_SHARES, 0)
        .is_ok());
    let r = pair.transfer_lp_tokens_from_to(bob, alice, carol, FEE_UNIT);
    assert_eq!(
        r,
        Err(TradingPairError::InsufficientAllowance { requested: FEE_UNIT, available: 0 })
    );
    assert!(pair.approve_lp_tokens(alice, bob, 10 * FEE_UNIT).is_ok());
    assert_eq!(pair.get_lp_tokens_allowance(alice, bob), 10 * FEE_UNIT);
    assert!(pair.transfer_lp_tokens_from_to(bob, alice, carol, 4 * FEE_UNIT).is_ok());
    assert_eq!(pair.get_lp_token_of(carol), 4 * FEE_UNIT);
    assert_eq!(pair.get_lp_tokens_allowance(alice, bob), 6 * FEE_UNIT);
    assert_eq!(
        pair.get_total_supply(),
        pair.get_lp_token_of(alice) + pair.get_lp_token_of(carol)
    );
}

#[test]
fn share_approval_needs_a_covering_balance_and_guards_the_maximum() {
    let pool: u32 = 99;
    let alice: u32 = 1;
    let bob: u32 = 2;
    let mut pair = TradingPairPsp22::new(11, 12, 0, 13, 50, pool);
    let r = pair.approve_lp_tokens(alice, bob, 1);
    assert_eq!(
        r,
        Err(TradingPairError::InsufficientBalance { requested: 1, available: 0 })
    );
    // the explicit overflow guard rejects the largest representable grant,
    // whatever the holdings
    let mut token1 = PSP22Data::new(10_000, alice);
    let mut token2 = PSP22Data::new(10_000, alice);
    assert!(token1.approve(alice, pool, 1000).is_ok());
    assert!(token2.approve(alice, pool, 1000).is_ok());
    assert!(pair
        .provide_to_pool(&mut token1, &mut token2, alice, 1000, 1000, BOOTSTRAP_SHARES, 0)
        .is_ok());
    let r = pair.approve_lp_tokens(alice, bob, 0);
    assert!(r.is_ok());
    assert_eq!(pair.get_lp_tokens_allowance(alice, bob), 0);
}

#[test]
fn locked_tokens_report_the_holder_share_of_both_reserves() {
    let pool: u32 = 99;
    let alice: u32 = 1;
    let bob: u32 = 2;
    let mut pair = TradingPairPsp22::new(11, 12, 0, 13, 50, pool);
    let mut token1 = PSP22Data::new(10_000, alice);
    let mut token2 = PSP22Data::new(10_000, alice);
    assert!(token1.approve(alice, pool, 1000).is_ok());
    assert!(token2.approve(alice, pool, 1000).is_ok());
    assert!(pair
        .provide_to_pool(&mut token1, &mut token2, alice, 1000, 1000, BOOTSTRAP_SHARES, 0)
        .is_ok());
    assert_eq!(
        pair.get_account_locked_tokens(&token1, &token2, alice),
        Ok((1000, 1000))
    );
    assert_eq!(pair.get_account_locked_tokens(&token1, &token2, bob), Ok((0, 0)));
}

#[test]
fn withdrawal_quotes_report_overflow_and_an_empty_pool() {
    let pool: u32 = 99;
    let alice: u32 = 1;
    let mut pair = TradingPairPsp22::new(11, 12, 0, 13, 50, pool);
    let mut token1 = PSP22Data::new(10_000, alice);
    let mut token2 = PSP22Data::new(10_000, alice);
    // before any deposit the share total is zero and nothing is quotable
    assert_eq!(
        pair.get_psp22_token1_withdraw_tokens_amount(&token1, 0),
        Err(TradingPairError::DivisionByZero)
    );
    assert!(token1.approve(alice, pool, 1000).is_ok());
    assert!(token2.approve(alice, pool, 1000).is_ok());
    assert!(pair
        .provide_to_pool(&mut token1, &mut token2, alice, 1000, 1000, BOOTSTRAP_SHARES, 0)
        .is_ok());
    // a share amount whose product with the reserve cannot be represented
    assert_eq!(
        pair.get_psp22_token1_withdraw_tokens_amount(&token1, u128::MAX / 500),
        Err(TradingPairError::Overflow)
    );
}

#[test]
fn getters_read_back_the_construction_parameters() {
    let pair = TradingPairPsp22::new(11, 12, 7 * FEE_UNIT, 13, 50, 99);
    assert_eq!(pair.get_account_id(), 99);
    assert_eq!(pair.get_fee(), 7 * FEE_UNIT);
    assert_eq!(pair.get_total_supply(), 0);
    assert_eq!(pair.get_transactions_num(), 0);
    assert_eq!(pair.get_lp_token_of(1), 0);
    assert_eq!(pair.get_lp_tokens_allowance(1, 2), 0);
}

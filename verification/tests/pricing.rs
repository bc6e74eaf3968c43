use trading_pair_psp22::data::PSP22Data;
use trading_pair_psp22::errors::TradingPairError;
use trading_pair_psp22::pair::{quote_amount_out, TradingPairPsp22, FEE_UNIT};

#[test]
fn quote_matches_the_constant_product_formula() {
    // reserves (1000, 1000), 100 in, no fee, no discount:
    // net = 100 * 100; out = (10000 * 1000) / (1000 * 100 + 10000) = 90
    let r = quote_amount_out(100, 0, 0, 1000, 1000);
    assert_eq!(r, Ok(90));
}

#[test]
fn quote_applies_the_undiscounted_fee() {
    // fee of two whole percent: multiplier 98
    // net = 10000 * 98; out = (980000 * 100000) / (100000 * 100 + 980000) = 8925
    let r = quote_amount_out(10000, 2 * FEE_UNIT, 0, 100000, 100000);
    assert_eq!(r, Ok(8925));
}

#[test]
fn loyal_caller_with_high_fee_pays_one_point_less() {
    // fee of two percent with the discount: multiplier 99
    let threshold: u128 = 3500 * FEE_UNIT;
    let r = quote_amount_out(10000, 2 * FEE_UNIT, threshold, 100000, 100000);
    assert_eq!(r, Ok(9008));
}

#[test]
fn loyal_caller_with_low_fee_pays_half() {
    // fee of one percent, at most the cutoff: the half fee floors to zero
    let threshold: u128 = 3500 * FEE_UNIT;
    let with_discount = quote_amount_out(10000, FEE_UNIT, threshold, 100000, 100000);
    let without_discount = quote_amount_out(10000, FEE_UNIT, threshold - 1, 100000, 100000);
    assert_eq!(with_discount, Ok(9090));
    assert_eq!(without_discount, Ok(9008));
}

#[test]
fn quote_rejects_a_fee_above_one_hundred_percent() {
    let r = quote_amount_out(100, 101 * FEE_UNIT, 0, 1000, 1000);
    assert_eq!(r, Err(TradingPairError::Overflow));
}

#[test]
fn quote_rejects_an_overflowing_input() {
    let r = quote_amount_out(u128::MAX / 50, 0, 0, 1000, 1000);
    assert_eq!(r, Err(TradingPairError::Overflow));
}

#[test]
fn quote_on_an_empty_pool_has_no_price() {
    let r = quote_amount_out(0, 0, 0, 0, 0);
    assert_eq!(r, Err(TradingPairError::DivisionByZero));
}

#[test]
fn percentage_difference_has_the_exact_fixed_point_value() {
    let mut pair = TradingPairPsp22::new(11, 12, 0, 13, 50, 99);
    // |100 - 50| carried to fixed point over the average 75, times 100
    assert_eq!(pair.check_diffrenece(100, 50), Ok(66_666_666_666_600));
    assert_eq!(pair.check_diffrenece(70, 70), Ok(0));
}

#[test]
fn percentage_difference_of_two_zeros_divides_by_zero() {
    let mut pair = TradingPairPsp22::new(11, 12, 0, 13, 50, 99);
    assert_eq!(pair.check_diffrenece(0, 0), Err(TradingPairError::DivisionByZero));
    assert_eq!(pair.check_diffrenece(0, 1), Err(TradingPairError::DivisionByZero));
}

#[test]
fn percentage_difference_overflows_on_a_huge_gap() {
    let mut pair = TradingPairPsp22::new(11, 12, 0, 13, 50, 99);
    let r = pair.check_diffrenece(u128::MAX / 2, 0);
    assert_eq!(r, Err(TradingPairError::Overflow));
}

#[test]
fn price_for_one_unit_reads_the_live_reserves() {
    let pool: u32 = 99;
    let whale: u32 = 7;
    let alice: u32 = 1;
    let pair = TradingPairPsp22::new(11, 12, 0, 13, 50, pool);
    let mut token1 = PSP22Data::new(10_000, whale);
    let mut token2 = PSP22Data::new(10_000, whale);
    let panx = PSP22Data::new(0, whale);
    assert!(token1.transfer(whale, pool, 1000).is_ok());
    assert!(token2.transfer(whale, pool, 1000).is_ok());
    let one = pair.get_price_for_one_psp22_token1(&token1, &token2, &panx, alice);
    assert_eq!(one, Ok(999));
    let other = pair.get_price_for_one_psp22_token2(&token1, &token2, &panx, alice);
    assert_eq!(other, Ok(999));
    let posted = pair.get_current_price(&token1, &token2, &panx, alice);
    assert_eq!(posted, Ok(999));
}

#[test]
fn price_impact_recomputes_over_post_trade_reserves() {
    let pool: u32 = 99;
    let whale: u32 = 7;
    let alice: u32 = 1;
    let pair = TradingPairPsp22::new(11, 12, 0, 13, 50, pool);
    let mut token1 = PSP22Data::new(10_000, whale);
    let mut token2 = PSP22Data::new(10_000, whale);
    let panx = PSP22Data::new(0, whale);
    assert!(token1.transfer(whale, pool, 1000).is_ok());
    assert!(token2.transfer(whale, pool, 1000).is_ok());
    // quote for 100 in is 90; the impact pass divides
    // 10000 * (1000 - 90) by (1000 + 10000) * 100 + 10000
    let impact = pair.get_price_impact_psp22_token1_to_psp22_token2(
        &token1, &token2, &panx, alice, 100,
    );
    assert_eq!(impact, Ok(8));
    let reverse = pair.get_price_impact_psp22_token2_to_psp22_token1(
        &token1, &token2, &panx, alice, 100,
    );
    assert_eq!(reverse, Ok(8));
}

#[test]
fn expected_shares_quote_bootstrap_and_proportional() {
    let pool: u32 = 99;
    let whale: u32 = 7;
    let pair = TradingPairPsp22::new(11, 12, 0, 13, 50, pool);
    let mut token1 = PSP22Data::new(10_000, whale);
    // empty pool: the fixed bootstrap amount, whatever the deposit
    assert_eq!(pair.get_expected_lp_token_amount(&token1, 123), Ok(1000 * FEE_UNIT));
    assert_eq!(pair.get_expected_lp_token_amount(&token1, 9999), Ok(1000 * FEE_UNIT));
    // a funded pool quotes proportionally to the live reserve
    let mut funded = TradingPairPsp22::new(11, 12, 0, 13, 50, pool);
    let mut token2 = PSP22Data::new(10_000, whale);
    assert!(token1.approve(whale, pool, 1000).is_ok());
    assert!(token2.approve(whale, pool, 1000).is_ok());
    assert!(funded
        .provide_to_pool(&mut token1, &mut token2, whale, 1000, 1000, 1000 * FEE_UNIT, 0)
        .is_ok());
    assert_eq!(funded.get_expected_lp_token_amount(&token1, 500), Ok(500 * FEE_UNIT));
}

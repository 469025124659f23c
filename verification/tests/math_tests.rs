use exchange_core::constants::PRECISION;
use exchange_core::errors::Error;
use exchange_core::math::{
    calculate_fee, calculate_funding_payment, calculate_funding_rate, calculate_liquidation_price,
    calculate_lp_tokens, calculate_pnl, calculate_position_size, calculate_utilization_rate,
    calculate_withdrawal_amount, should_liquidate,
};
use exchange_core::types::Direction;

#[test]
fn test_calculate_position_size() {
    let collateral = 100 * PRECISION; // 100 USDC
    let leverage = 10;
    let size = calculate_position_size(collateral, leverage).unwrap();
    assert_eq!(size, 1000 * PRECISION); // 1000 USDC
}

#[test]
fn test_calculate_liquidation_price_long() {
    let entry_price = 1000 * PRECISION;
    let leverage = 10;
    let maintenance_margin_bps = 100; // 1%

    let liq_price =
        calculate_liquidation_price(entry_price, leverage, Direction::Long, maintenance_margin_bps)
            .unwrap();

    // Expected: 1000 * (1 - 0.1 + 0.01) = 1000 * 0.91 = 910
    assert_eq!(liq_price, 910 * PRECISION);
}

#[test]
fn test_calculate_pnl_long_profit() {
    let position_size = 1000 * PRECISION;
    let entry_price = 1000 * PRECISION;
    let exit_price = 1100 * PRECISION; // 10% gain

    let pnl = calculate_pnl(position_size, entry_price, exit_price, Direction::Long).unwrap();

    // Expected: 1000 * (1100 - 1000) / 1000 = 100
    assert_eq!(pnl, 100 * PRECISION);
}

#[test]
fn test_calculate_fee() {
    let amount = 1000 * PRECISION;
    let fee_bps = 10; // 0.1%

    let fee = calculate_fee(amount, fee_bps).unwrap();

    // Expected: 1000 * 0.001 = 1
    assert_eq!(fee, 1 * PRECISION);
}

#[test]
fn test_calculate_lp_tokens_first_deposit() {
    let deposit = 1000 * PRECISION;
    let lp_tokens = calculate_lp_tokens(deposit, 0, 0).unwrap();
    assert_eq!(lp_tokens, deposit);
}

#[test]
fn test_calculate_utilization_rate() {
    let reserved = 500 * PRECISION;
    let total = 1000 * PRECISION;
    let rate = calculate_utilization_rate(reserved, total).unwrap();
    assert_eq!(rate, 5000); // 50%
}

#[test]
fn test_position_size_overflow() {
    assert_eq!(calculate_position_size(i128::MAX, 2), Err(Error::Overflow));
    assert_eq!(calculate_position_size(-5, 3), Ok(-15));
}

#[test]
fn test_liquidation_price_short_and_zero_leverage() {
    // 1000 * (1 + 0.1 - 0.01) = 1090
    assert_eq!(
        calculate_liquidation_price(1000 * PRECISION, 10, Direction::Short, 100),
        Ok(1090 * PRECISION)
    );
    assert_eq!(
        calculate_liquidation_price(1000 * PRECISION, 0, Direction::Long, 100),
        Err(Error::InvalidLeverage)
    );
    // 3x long without margin: 1 - 3333333/10^7 of the entry price, rounded toward zero
    assert_eq!(calculate_liquidation_price(3, 3, Direction::Long, 0), Ok(2));
    assert_eq!(
        calculate_liquidation_price(i128::MAX, 2, Direction::Long, 0),
        Err(Error::Overflow)
    );
}

#[test]
fn test_pnl_short_rounding_and_errors() {
    // short loses when the price rises; -1000 * 7 / 3 rounds toward zero
    assert_eq!(calculate_pnl(1000, 3, 10, Direction::Short), Ok(-2333));
    assert_eq!(calculate_pnl(1000, 3, 10, Direction::Long), Ok(2333));
    assert_eq!(calculate_pnl(1000, 0, 10, Direction::Long), Err(Error::DivisionByZero));
    assert_eq!(calculate_pnl(1, i128::MIN + 1, 10, Direction::Short), Err(Error::Overflow));
    assert_eq!(calculate_pnl(i128::MAX, 1, 3, Direction::Long), Err(Error::Overflow));
}

#[test]
fn test_fee_rounds_toward_zero() {
    assert_eq!(calculate_fee(9_999, 1), Ok(0));
    assert_eq!(calculate_fee(-9_999, 1), Ok(0));
    assert_eq!(calculate_fee(-20_000, 3), Ok(-6));
    assert_eq!(calculate_fee(i128::MAX, 2), Err(Error::Overflow));
}

#[test]
fn test_funding_rate_cases() {
    assert_eq!(calculate_funding_rate(0, 0, 100), Ok(0));
    assert_eq!(calculate_funding_rate(300, 100, 100), Ok(50));
    assert_eq!(calculate_funding_rate(100, 300, 100), Ok(-50));
    assert_eq!(calculate_funding_rate(5, -5, 100), Ok(0));
    assert_eq!(calculate_funding_rate(i128::MAX, 1, 100), Err(Error::Overflow));
    assert_eq!(calculate_funding_rate(i128::MAX, -i128::MAX, 100), Ok(0));
    assert_eq!(calculate_funding_rate(i128::MIN, 1, 100), Err(Error::Overflow));
}

#[test]
fn test_funding_payment() {
    // 1000 * 50 * 8 / 10000 = 40
    assert_eq!(calculate_funding_payment(1000, 50, 8), Ok(40));
    assert_eq!(calculate_funding_payment(i128::MAX, 2, 1), Err(Error::Overflow));
    assert_eq!(calculate_funding_payment(i128::MAX, 1, 2), Err(Error::Overflow));
}

#[test]
fn test_should_liquidate_cases() {
    assert!(should_liquidate(100, -50, 0, 60));
    assert!(!should_liquidate(100, -40, 0, 60));
    assert!(should_liquidate(100, 0, 41, 60));
    // overflow of the equity always liquidates
    assert!(should_liquidate(i128::MAX, 1, 0, 0));
    assert!(should_liquidate(0, 0, i128::MIN, 0));
}

#[test]
fn test_lp_tokens_and_withdrawal() {
    assert_eq!(calculate_lp_tokens(100, 1000, 500), Ok(50));
    assert_eq!(calculate_lp_tokens(100, 0, 500), Ok(100));
    assert_eq!(calculate_lp_tokens(i128::MAX, 1, 2), Err(Error::Overflow));
    assert_eq!(calculate_withdrawal_amount(50, 1100, 550), Ok(100));
    assert_eq!(calculate_withdrawal_amount(50, 1100, 0), Err(Error::DivisionByZero));
    assert_eq!(calculate_withdrawal_amount(i128::MAX, 2, 1), Err(Error::Overflow));
}

#[test]
fn test_utilization_edge_cases() {
    assert_eq!(calculate_utilization_rate(123, 0), Ok(0));
    assert_eq!(calculate_utilization_rate(1, 3), Ok(3333));
    assert_eq!(calculate_utilization_rate(i128::MAX, 1), Err(Error::Overflow));
    // a negative rate keeps its low 32 bits, as `as u32` does
    assert_eq!(calculate_utilization_rate(-1, 10_000), Ok(u32::MAX));
}

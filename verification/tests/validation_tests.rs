use exchange_core::constants::PRECISION;
use exchange_core::errors::Error;
use exchange_core::validation::{
    check_slippage, deviation_is_computable, slippage_is_computable, validate_collateral,
    validate_leverage, validate_positive_amount, validate_price, validate_price_deviation,
    validate_price_freshness, validate_slippage_tolerance,
};

#[test]
fn test_validate_leverage() {
    assert!(validate_leverage(5, 10).is_ok());
    assert!(validate_leverage(0, 10).is_err());
    assert!(validate_leverage(11, 10).is_err());
}

#[test]
fn test_validate_collateral() {
    assert!(validate_collateral(100 * PRECISION).is_ok());
    assert!(validate_collateral(5 * PRECISION).is_err());
}

#[test]
fn test_validate_price_deviation() {
    let price1 = 1000 * PRECISION;
    let price2 = 1005 * PRECISION; // 0.5% difference
    assert!(validate_price_deviation(price1, price2, 100).is_ok()); // 1% tolerance

    let price3 = 1020 * PRECISION; // 2% difference
    assert!(validate_price_deviation(price1, price3, 100).is_err()); // 1% tolerance
}

#[test]
fn test_check_slippage() {
    let expected = 1000 * PRECISION;
    let actual = 1005 * PRECISION; // 0.5% slippage
    assert!(check_slippage(expected, actual, 100).is_ok()); // 1% tolerance

    let actual_high = 1020 * PRECISION; // 2% slippage
    assert!(check_slippage(expected, actual_high, 100).is_err()); // 1% tolerance
}

#[test]
fn test_validation_error_variants() {
    assert_eq!(validate_leverage(0, 10), Err(Error::InvalidLeverage));
    assert_eq!(validate_leverage(10, 10), Ok(()));
    assert_eq!(validate_collateral(10 * PRECISION), Ok(()));
    assert_eq!(validate_collateral(10 * PRECISION - 1), Err(Error::InsufficientCollateral));
    assert_eq!(validate_positive_amount(0), Err(Error::InvalidAmount));
    assert_eq!(validate_positive_amount(1), Ok(()));
    assert_eq!(validate_price(-1), Err(Error::InvalidPrice));
    assert_eq!(validate_price(1), Ok(()));
    assert_eq!(validate_slippage_tolerance(0), Err(Error::InvalidSlippageTolerance));
    assert_eq!(validate_slippage_tolerance(10_001), Err(Error::InvalidSlippageTolerance));
    assert_eq!(validate_slippage_tolerance(10_000), Ok(()));
}

#[test]
fn test_price_freshness() {
    assert_eq!(validate_price_freshness(1000, 1060, 60), Ok(()));
    assert_eq!(validate_price_freshness(1000, 1061, 60), Err(Error::PriceStale));
    // a timestamp in the future is accepted
    assert_eq!(validate_price_freshness(2000, 1000, 0), Ok(()));
}

#[test]
fn test_deviation_edge_cases() {
    assert_eq!(validate_price_deviation(0, 5, 100), Err(Error::InvalidPrice));
    assert_eq!(validate_price_deviation(5, 0, 100), Err(Error::InvalidPrice));
    // exactly 1%: 100 * 10000 / 10050 = 99 bps
    assert_eq!(validate_price_deviation(10_000, 10_100, 100), Ok(()));
    assert_eq!(validate_price_deviation(10_000, 10_300, 100), Err(Error::PriceDeviationTooHigh));
    assert!(deviation_is_computable(10_000, 10_100));
    assert!(!deviation_is_computable(1, -1));
    assert!(!deviation_is_computable(i128::MAX, i128::MAX));
}

#[test]
fn test_slippage_edge_cases() {
    assert_eq!(check_slippage(0, 5, 100), Err(Error::InvalidPrice));
    assert_eq!(check_slippage(10_000, 9_900, 100), Ok(()));
    assert_eq!(check_slippage(10_000, 9_899, 100), Err(Error::SlippageExceeded));
    assert!(slippage_is_computable(10_000, 9_899));
    assert!(!slippage_is_computable(1, i128::MIN));
}

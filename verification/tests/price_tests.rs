use exchange_core::constants::PRECISION;
use exchange_core::errors::Error;
use exchange_core::price::{calculate_simple_average, calculate_weighted_average};

#[test]
fn test_weighted_average() {
    let price1 = 1000 * PRECISION;
    let confidence1 = 80;
    let price2 = 1010 * PRECISION;
    let confidence2 = 20;

    let avg = calculate_weighted_average(price1, confidence1, price2, confidence2).unwrap();

    // Expected: (1000 * 80 + 1010 * 20) / 100 = 1002
    assert_eq!(avg, 1002 * PRECISION);
}

#[test]
fn test_simple_average() {
    let price1 = 1000 * PRECISION;
    let price2 = 1010 * PRECISION;

    let avg = calculate_simple_average(price1, price2).unwrap();

    // Expected: (1000 + 1010) / 2 = 1005
    assert_eq!(avg, 1005 * PRECISION);
}

#[test]
fn test_weighted_average_zero_confidence() {
    let price1 = 1000 * PRECISION;
    let price2 = 1010 * PRECISION;

    // If one confidence is zero, should return the other price
    let avg = calculate_weighted_average(price1, 0, price2, 100).unwrap();
    assert_eq!(avg, price2);

    let avg = calculate_weighted_average(price1, 100, price2, 0).unwrap();
    assert_eq!(avg, price1);
}

#[test]
fn test_average_errors_and_rounding() {
    assert_eq!(calculate_weighted_average(1, 0, 2, 0), Err(Error::InvalidPrice));
    assert_eq!(calculate_weighted_average(i128::MAX, 2, 1, 1), Err(Error::Overflow));
    assert_eq!(calculate_weighted_average(1, 1, i128::MAX, 2), Err(Error::Overflow));
    assert_eq!(calculate_weighted_average(i128::MAX, 1, i128::MAX, 1), Err(Error::Overflow));
    // (-7 * 1 + 0 * 1) / 2 rounds toward zero
    assert_eq!(calculate_weighted_average(-7, 1, 0, 1), Ok(-3));
    assert_eq!(calculate_simple_average(-7, 0), Ok(-3));
    assert_eq!(calculate_simple_average(i128::MAX, 1), Err(Error::Overflow));
}

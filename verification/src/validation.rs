use vstd::prelude::*;

use crate::constants::{BASIS_POINTS, MIN_COLLATERAL};
use crate::errors::Error;
use crate::math::{div_trunc, fits_i128};

verus! {

/// Validate that leverage is within `1..=max_leverage`.
pub fn validate_leverage(leverage: u32, max_leverage: u32) -> (r: Result<(), Error>)
    ensures
        r == (if leverage == 0 || leverage > max_leverage {
            Err(Error::InvalidLeverage)
        } else {
            Ok(())
        }),
{
    if leverage == 0 || leverage > max_leverage {
        return Err(Error::InvalidLeverage);
    }
    Ok(())
}

/// Validate that collateral meets the minimum requirement.
pub fn validate_collateral(collateral: i128) -> (r: Result<(), Error>)
    ensures
        r == (if collateral < MIN_COLLATERAL {
            Err(Error::InsufficientCollateral)
        } else {
            Ok(())
        }),
{
    if collateral < MIN_COLLATERAL {
        return Err(Error::InsufficientCollateral);
    }
    Ok(())
}

/// Validate that an amount is positive.
pub fn validate_positive_amount(amount: i128) -> (r: Result<(), Error>)
    ensures
        r == (if amount <= 0 {
            Err(Error::InvalidAmount)
        } else {
            Ok(())
        }),
{
    if amount <= 0 {
        return Err(Error::InvalidAmount);
    }
    Ok(())
}

/// Validate that a price is positive.
pub fn validate_price(price: i128) -> (r: Result<(), Error>)
    ensures
        r == (if price <= 0 {
            Err(Error::InvalidPrice)
        } else {
            Ok(())
        }),
{
    if price <= 0 {
        return Err(Error::InvalidPrice);
    }
    Ok(())
}

/// Whether a price published at `timestamp` is older than `max_staleness` seconds at
/// `current_time`; a timestamp in the future (clock skew) is never stale.
pub open spec fn is_stale(timestamp: u64, current_time: u64, max_staleness: u64) -> bool {
    current_time >= timestamp && current_time - timestamp > max_staleness
}

/// Validate price staleness.
pub fn validate_price_freshness(timestamp: u64, current_time: u64, max_staleness: u64) -> (r: Result<(), Error>)
    ensures
        r == (if is_stale(timestamp, current_time, max_staleness) {
            Err(Error::PriceStale)
        } else {
            Ok(())
        }),
{
    if current_time < timestamp {
        return Ok(());
    }
    if current_time - timestamp > max_staleness {
        return Err(Error::PriceStale);
    }
    Ok(())
}

/// The distance between two integers.
pub open spec fn abs_diff(a: int, b: int) -> int {
    if a > b {
        a - b
    } else {
        b - a
    }
}

/// Whether the deviation of two prices can be computed in `i128` arithmetic: the difference,
/// the sum and the scaled difference fit, and the average is not zero.
pub open spec fn deviation_computable(price1: int, price2: int) -> bool {
    &&& fits_i128(abs_diff(price1, price2))
    &&& fits_i128(price1 + price2)
    &&& fits_i128(abs_diff(price1, price2) * (BASIS_POINTS as int))
    &&& div_trunc(price1 + price2, 2) != 0
}

/// The deviation of two prices in basis points of their average:
/// `|price1 - price2| * BASIS_POINTS / ((price1 + price2) / 2)`, each division rounded toward zero.
pub open spec fn deviation_bps(price1: int, price2: int) -> int {
    div_trunc(abs_diff(price1, price2) * (BASIS_POINTS as int), div_trunc(price1 + price2, 2))
}

/// Report whether `validate_price_deviation` can compute the deviation of two prices.
pub fn deviation_is_computable(price1: i128, price2: i128) -> (r: bool)
    ensures
        r == deviation_computable(price1 as int, price2 as int),
{
    let diff = if price1 > price2 {
        price1.checked_sub(price2)
    } else {
        price2.checked_sub(price1)
    };
    match diff {
        None => false,
        Some(d) => match price1.checked_add(price2) {
            None => false,
            Some(sum) => match d.checked_mul(BASIS_POINTS as i128) {
                None => false,
                Some(_) => sum / 2 != 0,
            },
        },
    }
}

/// Divide a non-negative `x` by a non-zero `d`, rounding toward zero.
fn div_nonneg(x: i128, d: i128) -> (q: i128)
    requires
        x >= 0,
        d != 0,
    ensures
        q == div_trunc(x as int, d as int),
{
    proof {
        if d > 0 {
            assert(0 <= (x as int) / (d as int) <= x) by (nonlinear_arith)
                requires x >= 0, d > 0;
        } else {
            assert(0 <= (x as int) / (-(d as int)) <= x) by (nonlinear_arith)
                requires x >= 0, d < 0;
        }
    }
    match x.checked_div(d) {
        Some(q) => q,
        None => 0,
    }
}

/// Validate the deviation between two prices against `max_deviation_bps`.
pub fn validate_price_deviation(price1: i128, price2: i128, max_deviation_bps: u32) -> (r: Result<(), Error>)
    requires
        price1 != 0 && price2 != 0 ==> deviation_computable(price1 as int, price2 as int),
    ensures
        price1 == 0 || price2 == 0 ==> r == Err::<(), Error>(Error::InvalidPrice),
        price1 != 0 && price2 != 0 ==> r == (if deviation_bps(price1 as int, price2 as int)
            > max_deviation_bps {
            Err(Error::PriceDeviationTooHigh)
        } else {
            Ok(())
        }),
{
    if price1 == 0 || price2 == 0 {
        return Err(Error::InvalidPrice);
    }
    let diff = if price1 > price2 {
        price1 - price2
    } else {
        price2 - price1
    };
    let avg = (price1 + price2) / 2;
    let deviation = div_nonneg(diff * BASIS_POINTS as i128, avg);
    if deviation > max_deviation_bps as i128 {
        return Err(Error::PriceDeviationTooHigh);
    }
    Ok(())
}

/// Validate a slippage tolerance: it must lie in `1..=BASIS_POINTS`.
pub fn validate_slippage_tolerance(slippage_bps: u32) -> (r: Result<(), Error>)
    ensures
        r == (if slippage_bps == 0 || slippage_bps > BASIS_POINTS {
            Err(Error::InvalidSlippageTolerance)
        } else {
            Ok(())
        }),
{
    if slippage_bps == 0 || slippage_bps > BASIS_POINTS {
        return Err(Error::InvalidSlippageTolerance);
    }
    Ok(())
}

/// Whether the slippage of `actual_price` against `expected_price` can be computed in `i128`
/// arithmetic.
pub open spec fn slippage_computable(expected_price: int, actual_price: int) -> bool {
    &&& fits_i128(abs_diff(actual_price, expected_price))
    &&& fits_i128(abs_diff(actual_price, expected_price) * (BASIS_POINTS as int))
}

/// The slippage in basis points: `|actual - expected| * BASIS_POINTS / expected`, rounded
/// toward zero.
pub open spec fn slippage_bps(expected_price: int, actual_price: int) -> int {
    div_trunc(abs_diff(actual_price, expected_price) * (BASIS_POINTS as int), expected_price)
}

/// Report whether `check_slippage` can compute the slippage of two prices.
pub fn slippage_is_computable(expected_price: i128, actual_price: i128) -> (r: bool)
    ensures
        r == slippage_computable(expected_price as int, actual_price as int),
{
    let diff = if actual_price > expected_price {
        actual_price.checked_sub(expected_price)
    } else {
        expected_price.checked_sub(actual_price)
    };
    match diff {
        None => false,
        Some(d) => d.checked_mul(BASIS_POINTS as i128).is_some(),
    }
}

/// Check that the slippage of `actual_price` against `expected_price` is within tolerance.
pub fn check_slippage(expected_price: i128, actual_price: i128, slippage_tolerance_bps: u32) -> (r: Result<(), Error>)
    requires
        expected_price != 0 ==> slippage_computable(expected_price as int, actual_price as int),
    ensures
        expected_price == 0 ==> r == Err::<(), Error>(Error::InvalidPrice),
        expected_price != 0 ==> r == (if slippage_bps(expected_price as int, actual_price as int)
            > slippage_tolerance_bps {
            Err(Error::SlippageExceeded)
        } else {
            Ok(())
        }),
{
    if expected_price == 0 {
        return Err(Error::InvalidPrice);
    }
    let diff = if actual_price > expected_price {
        actual_price - expected_price
    } else {
        expected_price - actual_price
    };
    let slippage = div_nonneg(diff * BASIS_POINTS as i128, expected_price);
    if slippage > slippage_tolerance_bps as i128 {
        return Err(Error::SlippageExceeded);
    }
    Ok(())
}

/// The deviation check does not depend on the order of the two prices.
pub proof fn lemma_deviation_symmetric(price1: int, price2: int)
    ensures
        deviation_computable(price1, price2) == deviation_computable(price2, price1),
        deviation_bps(price1, price2) == deviation_bps(price2, price1),
{
    assert(abs_diff(price1, price2) == abs_diff(price2, price1));
    assert(price1 + price2 == price2 + price1);
}

} // verus!

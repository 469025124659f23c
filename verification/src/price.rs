use vstd::prelude::*;

use crate::errors::Error;
use crate::math::{checked_value, div_trunc, fits_i128, lemma_div_trunc_between};

verus! {

/// The confidence-weighted average `(price1 * confidence1 + price2 * confidence2) /
/// (confidence1 + confidence2)`, rounded toward zero; `Overflow` when a product or the sum of
/// products does not fit in `i128`.
pub open spec fn weighted_average(price1: int, confidence1: int, price2: int, confidence2: int) -> Result<i128, Error> {
    if !fits_i128(price1 * confidence1) || !fits_i128(price2 * confidence2) || !fits_i128(
        price1 * confidence1 + price2 * confidence2,
    ) {
        Err(Error::Overflow)
    } else {
        checked_value(div_trunc(price1 * confidence1 + price2 * confidence2, confidence1 + confidence2))
    }
}

/// Calculate the weighted average of two prices based on confidence. A price with zero
/// confidence is ignored; two prices with zero confidence are an error.
pub fn calculate_weighted_average(price1: i128, confidence1: u32, price2: i128, confidence2: u32) -> (r: Result<i128, Error>)
    requires
        confidence1 != 0 && confidence2 != 0 ==> confidence1 + confidence2 <= u32::MAX,
    ensures
        confidence1 == 0 && confidence2 == 0 ==> r == Err::<i128, Error>(Error::InvalidPrice),
        confidence1 == 0 && confidence2 != 0 ==> r == Ok::<i128, Error>(price2),
        confidence1 != 0 && confidence2 == 0 ==> r == Ok::<i128, Error>(price1),
        confidence1 != 0 && confidence2 != 0 ==> r == weighted_average(
            price1 as int,
            confidence1 as int,
            price2 as int,
            confidence2 as int,
        ),
{
    if confidence1 == 0 && confidence2 == 0 {
        return Err(Error::InvalidPrice);
    }
    if confidence1 == 0 {
        return Ok(price2);
    }
    if confidence2 == 0 {
        return Ok(price1);
    }
    let total_confidence = (confidence1 + confidence2) as i128;
    let weighted1 = match price1.checked_mul(confidence1 as i128) {
        Some(v) => v,
        None => return Err(Error::Overflow),
    };
    let weighted2 = match price2.checked_mul(confidence2 as i128) {
        Some(v) => v,
        None => return Err(Error::Overflow),
    };
    let weighted_sum = match weighted1.checked_add(weighted2) {
        Some(v) => v,
        None => return Err(Error::Overflow),
    };
    match weighted_sum.checked_div(total_confidence) {
        Some(v) => Ok(v),
        None => Err(Error::Overflow),
    }
}

/// Calculate the simple average of two prices, `(price1 + price2) / 2` rounded toward zero.
pub fn calculate_simple_average(price1: i128, price2: i128) -> (r: Result<i128, Error>)
    ensures
        r == (if fits_i128(price1 + price2) {
            checked_value(div_trunc(price1 + price2, 2))
        } else {
            Err(Error::Overflow)
        }),
{
    match price1.checked_add(price2) {
        Some(sum) => match sum.checked_div(2) {
            Some(v) => Ok(v),
            None => Err(Error::Overflow),
        },
        None => Err(Error::Overflow),
    }
}

/// The confidence-weighted average of two prices lies between them.
pub proof fn lemma_weighted_average_between(price1: i128, confidence1: u32, price2: i128, confidence2: u32)
    requires
        confidence1 > 0,
        confidence2 > 0,
        weighted_average(price1 as int, confidence1 as int, price2 as int, confidence2 as int) is Ok,
    ensures
        ({
            let avg = weighted_average(price1 as int, confidence1 as int, price2 as int, confidence2 as int)->Ok_0;
            &&& price1 <= price2 ==> price1 <= avg <= price2
            &&& price2 <= price1 ==> price2 <= avg <= price1
        }),
{
    let lo = if price1 <= price2 { price1 as int } else { price2 as int };
    let hi = if price1 <= price2 { price2 as int } else { price1 as int };
    let c1 = confidence1 as int;
    let c2 = confidence2 as int;
    assert(lo * (c1 + c2) <= price1 * c1 + price2 * c2 <= hi * (c1 + c2)) by (nonlinear_arith)
        requires
            lo <= price1 <= hi,
            lo <= price2 <= hi,
            c1 > 0,
            c2 > 0,
    ;
    lemma_div_trunc_between(price1 * c1 + price2 * c2, c1 + c2, lo, hi);
}

/// The simple average of two prices lies between them.
pub proof fn lemma_simple_average_between(price1: i128, price2: i128)
    requires
        fits_i128(price1 + price2),
    ensures
        price1 <= price2 ==> price1 <= div_trunc(price1 + price2, 2) <= price2,
        price2 <= price1 ==> price2 <= div_trunc(price1 + price2, 2) <= price1,
{
    if price1 <= price2 {
        lemma_div_trunc_between(price1 + price2, 2, price1 as int, price2 as int);
    } else {
        lemma_div_trunc_between(price1 + price2, 2, price2 as int, price1 as int);
    }
}

} // verus!

use vstd::prelude::*;

use crate::constants::{BASIS_POINTS, PRECISION};
use crate::errors::Error;
use crate::types::Direction;

verus! {

/// Whether an integer is representable as an `i128`.
pub open spec fn fits_i128(v: int) -> bool {
    i128::MIN <= v <= i128::MAX
}

/// Integer division rounding toward zero, as Rust's `/` on signed integers does.
pub open spec fn div_trunc(x: int, d: int) -> int {
    if x == 0 {
        0
    } else if x > 0 && d > 0 {
        x / d
    } else if x < 0 && d < 0 {
        (-x) / (-d)
    } else if x < 0 {
        -((-x) / d)
    } else {
        -(x / (-d))
    }
}

/// The value as an `i128`, or `Overflow` when it does not fit.
pub open spec fn checked_value(v: int) -> Result<i128, Error> {
    if fits_i128(v) {
        Ok(v as i128)
    } else {
        Err(Error::Overflow)
    }
}

/// `a * b / d` computed with checked `i128` operations: `Overflow` when the product does not
/// fit, when `d` is zero, or when the quotient does not fit.
pub open spec fn checked_mul_div(a: int, b: int, d: int) -> Result<i128, Error> {
    if !fits_i128(a * b) || d == 0 {
        Err(Error::Overflow)
    } else {
        checked_value(div_trunc(a * b, d))
    }
}

fn mul_div(a: i128, b: i128, d: i128) -> (r: Result<i128, Error>)
    ensures
        r == checked_mul_div(a as int, b as int, d as int),
{
    match a.checked_mul(b) {
        Some(p) => match p.checked_div(d) {
            Some(q) => Ok(q),
            None => Err(Error::Overflow),
        },
        None => Err(Error::Overflow),
    }
}

/// Calculate position size from collateral and leverage.
pub fn calculate_position_size(collateral: i128, leverage: u32) -> (r: Result<i128, Error>)
    ensures
        r == checked_value(collateral * leverage),
{
    match collateral.checked_mul(leverage as i128) {
        Some(v) => Ok(v),
        None => Err(Error::Overflow),
    }
}

/// The maintenance margin as a fraction scaled by `PRECISION`.
pub open spec fn maintenance_margin_fraction(maintenance_margin_bps: u32) -> int {
    (maintenance_margin_bps as int) * (PRECISION as int) / (BASIS_POINTS as int)
}

/// The factor (scaled by `PRECISION`) by which the entry price is multiplied to obtain the
/// liquidation price: `1 - 1/leverage + margin` for a long, `1 + 1/leverage - margin` for a short.
pub open spec fn liquidation_factor(leverage: u32, direction: Direction, maintenance_margin_bps: u32) -> int {
    let inverse_leverage = (PRECISION as int) / (leverage as int);
    match direction {
        Direction::Long => PRECISION - inverse_leverage + maintenance_margin_fraction(maintenance_margin_bps),
        Direction::Short => PRECISION + inverse_leverage - maintenance_margin_fraction(maintenance_margin_bps),
    }
}

/// The liquidation price: `entry_price * liquidation_factor / PRECISION`; a leverage of zero is
/// refused.
pub open spec fn liquidation_price_for(
    entry_price: i128,
    leverage: u32,
    direction: Direction,
    maintenance_margin_bps: u32,
) -> Result<i128, Error> {
    if leverage == 0 {
        Err(Error::InvalidLeverage)
    } else {
        checked_mul_div(
            entry_price as int,
            liquidation_factor(leverage, direction, maintenance_margin_bps),
            PRECISION as int,
        )
    }
}

/// Calculate the liquidation price for a position.
pub fn calculate_liquidation_price(
    entry_price: i128,
    leverage: u32,
    direction: Direction,
    maintenance_margin_bps: u32,
) -> (r: Result<i128, Error>)
    ensures
        r == liquidation_price_for(entry_price, leverage, direction, maintenance_margin_bps),
{
    if leverage == 0 {
        return Err(Error::InvalidLeverage);
    }
    let leverage_i128 = leverage as i128;
    let maintenance_margin = (maintenance_margin_bps as i128 * PRECISION) / BASIS_POINTS as i128;
    let inverse_leverage = PRECISION / leverage_i128;
    match direction {
        Direction::Long => {
            let factor = PRECISION - inverse_leverage + maintenance_margin;
            mul_div(entry_price, factor, PRECISION)
        },
        Direction::Short => {
            let factor = PRECISION + inverse_leverage - maintenance_margin;
            mul_div(entry_price, factor, PRECISION)
        },
    }
}

/// The price movement in the position's favour: `exit - entry` for a long, `entry - exit` for a short.
pub open spec fn price_move(entry_price: int, exit_price: int, direction: Direction) -> int {
    match direction {
        Direction::Long => exit_price - entry_price,
        Direction::Short => entry_price - exit_price,
    }
}

/// The PnL of a position: `size * price_move / entry_price`, rounded toward zero.
pub open spec fn pnl_for(position_size: i128, entry_price: i128, exit_price: i128, direction: Direction) -> Result<
    i128,
    Error,
> {
    if entry_price == 0 {
        Err(Error::DivisionByZero)
    } else if !fits_i128(price_move(entry_price as int, exit_price as int, direction)) {
        Err(Error::Overflow)
    } else {
        checked_mul_div(
            position_size as int,
            price_move(entry_price as int, exit_price as int, direction),
            entry_price as int,
        )
    }
}

/// Calculate the PnL of a position.
pub fn calculate_pnl(
    position_size: i128,
    entry_price: i128,
    exit_price: i128,
    direction: Direction,
) -> (r: Result<i128, Error>)
    ensures
        r == pnl_for(position_size, entry_price, exit_price, direction),
{
    if entry_price == 0 {
        return Err(Error::DivisionByZero);
    }
    let price_diff = match direction {
        Direction::Long => exit_price.checked_sub(entry_price),
        Direction::Short => entry_price.checked_sub(exit_price),
    };
    match price_diff {
        Some(diff) => mul_div(position_size, diff, entry_price),
        None => Err(Error::Overflow),
    }
}

/// A fee of `fee_bps` basis points on `amount`, rounded toward zero.
pub open spec fn fee_for(amount: i128, fee_bps: u32) -> Result<i128, Error> {
    checked_mul_div(amount as int, fee_bps as int, BASIS_POINTS as int)
}

/// Calculate a fee of `fee_bps` basis points on `amount`.
pub fn calculate_fee(amount: i128, fee_bps: u32) -> (r: Result<i128, Error>)
    ensures
        r == fee_for(amount, fee_bps),
{
    mul_div(amount, fee_bps as i128, BASIS_POINTS as i128)
}

/// The funding rate from the long/short imbalance: `(long - short) * base_rate_bps /
/// (long + short)`, and zero when the two sides sum to zero.
pub open spec fn funding_rate_for(total_long: i128, total_short: i128, base_rate_bps: u32) -> Result<i128, Error> {
    if total_long == 0 && total_short == 0 {
        Ok(0)
    } else if !fits_i128(total_long + total_short) {
        Err(Error::Overflow)
    } else if total_long + total_short == 0 {
        Ok(0)
    } else if !fits_i128(total_long - total_short) {
        Err(Error::Overflow)
    } else {
        checked_mul_div(total_long - total_short, base_rate_bps as int, total_long + total_short)
    }
}

/// Calculate the funding rate based on the long/short imbalance.
pub fn calculate_funding_rate(total_long: i128, total_short: i128, base_rate_bps: u32) -> (r: Result<i128, Error>)
    ensures
        r == funding_rate_for(total_long, total_short, base_rate_bps),
{
    if total_long == 0 && total_short == 0 {
        return Ok(0);
    }
    let total = match total_long.checked_add(total_short) {
        Some(t) => t,
        None => return Err(Error::Overflow),
    };
    if total == 0 {
        return Ok(0);
    }
    let imbalance = match total_long.checked_sub(total_short) {
        Some(i) => i,
        None => return Err(Error::Overflow),
    };
    mul_div(imbalance, base_rate_bps as i128, total)
}

/// The funding payment of a position: `position_size * funding_rate * hours_elapsed /
/// BASIS_POINTS`, each product checked.
pub open spec fn funding_payment_for(position_size: i128, funding_rate: i128, hours_elapsed: u64) -> Result<i128, Error> {
    if !fits_i128(position_size * funding_rate) {
        Err(Error::Overflow)
    } else {
        checked_mul_div(position_size * funding_rate, hours_elapsed as int, BASIS_POINTS as int)
    }
}

/// Calculate the funding payment for a position.
pub fn calculate_funding_payment(position_size: i128, funding_rate: i128, hours_elapsed: u64) -> (r: Result<i128, Error>)
    ensures
        r == funding_payment_for(position_size, funding_rate, hours_elapsed),
{
    match position_size.checked_mul(funding_rate) {
        Some(v) => mul_div(v, hours_elapsed as i128, BASIS_POINTS as i128),
        None => Err(Error::Overflow),
    }
}

/// Whether a position must be liquidated: its equity `collateral + pnl - funding` is below the
/// maintenance margin, or that equity cannot be computed without overflow.
pub open spec fn liquidation_due(
    collateral: int,
    unrealized_pnl: int,
    funding_accumulated: int,
    maintenance_margin: int,
) -> bool {
    ||| !fits_i128(collateral + unrealized_pnl)
    ||| !fits_i128(collateral + unrealized_pnl - funding_accumulated)
    ||| collateral + unrealized_pnl - funding_accumulated < maintenance_margin
}

/// Check whether a position should be liquidated.
pub fn should_liquidate(
    collateral: i128,
    unrealized_pnl: i128,
    funding_accumulated: i128,
    maintenance_margin: i128,
) -> (r: bool)
    ensures
        r == liquidation_due(
            collateral as int,
            unrealized_pnl as int,
            funding_accumulated as int,
            maintenance_margin as int,
        ),
{
    let with_pnl = match collateral.checked_add(unrealized_pnl) {
        Some(v) => v,
        None => return true,
    };
    let equity = match with_pnl.checked_sub(funding_accumulated) {
        Some(v) => v,
        None => return true,
    };
    equity < maintenance_margin
}

/// The LP tokens minted for a deposit: one for one into an empty pool, otherwise
/// `deposit * total_lp_tokens / total_liquidity`.
pub open spec fn lp_tokens_for(deposit_amount: int, total_liquidity: int, total_lp_tokens: int) -> Result<i128, Error> {
    if total_lp_tokens == 0 || total_liquidity == 0 {
        checked_value(deposit_amount)
    } else {
        checked_mul_div(deposit_amount, total_lp_tokens, total_liquidity)
    }
}

/// Calculate LP tokens to mint for a deposit.
pub fn calculate_lp_tokens(deposit_amount: i128, total_liquidity: i128, total_lp_tokens: i128) -> (r: Result<i128, Error>)
    ensures
        r == lp_tokens_for(deposit_amount as int, total_liquidity as int, total_lp_tokens as int),
        total_lp_tokens == 0 || total_liquidity == 0 ==> r == Ok::<i128, Error>(deposit_amount),
{
    if total_lp_tokens == 0 || total_liquidity == 0 {
        return Ok(deposit_amount);
    }
    mul_div(deposit_amount, total_lp_tokens, total_liquidity)
}

/// The amount paid out for burning LP tokens: `lp_tokens * total_liquidity / total_lp_tokens`.
pub open spec fn withdrawal_for(lp_tokens: int, total_liquidity: int, total_lp_tokens: int) -> Result<i128, Error> {
    if total_lp_tokens == 0 {
        Err(Error::DivisionByZero)
    } else {
        checked_mul_div(lp_tokens, total_liquidity, total_lp_tokens)
    }
}

/// Calculate the withdrawal amount for LP tokens.
pub fn calculate_withdrawal_amount(lp_tokens: i128, total_liquidity: i128, total_lp_tokens: i128) -> (r: Result<i128, Error>)
    ensures
        r == withdrawal_for(lp_tokens as int, total_liquidity as int, total_lp_tokens as int),
{
    if total_lp_tokens == 0 {
        return Err(Error::DivisionByZero);
    }
    mul_div(lp_tokens, total_liquidity, total_lp_tokens)
}

/// The utilization rate in basis points: `reserved * BASIS_POINTS / total` (zero for an empty
/// pool), converted to `u32` by keeping its low 32 bits as Rust's `as` does.
pub open spec fn utilization_for(reserved_liquidity: int, total_liquidity: int) -> Result<u32, Error> {
    if total_liquidity == 0 {
        Ok(0)
    } else {
        match checked_mul_div(reserved_liquidity, BASIS_POINTS as int, total_liquidity) {
            Ok(rate) => Ok(rate as u32),
            Err(e) => Err(e),
        }
    }
}

/// Calculate the utilization rate of a pool.
pub fn calculate_utilization_rate(reserved_liquidity: i128, total_liquidity: i128) -> (r: Result<u32, Error>)
    ensures
        r == utilization_for(reserved_liquidity as int, total_liquidity as int),
{
    if total_liquidity == 0 {
        return Ok(0);
    }
    match mul_div(reserved_liquidity, BASIS_POINTS as i128, total_liquidity) {
        Ok(rate) => Ok(rate as u32),
        Err(e) => Err(e),
    }
}

/// Rounding toward zero commutes with negation: `(-x) / d == -(x / d)`.
pub proof fn lemma_div_trunc_neg(x: int, d: int)
    requires
        d != 0,
    ensures
        div_trunc(-x, d) == -div_trunc(x, d),
{
}

/// A quotient rounded toward zero lies between `lo` and `hi` when the dividend lies between
/// `lo * d` and `hi * d` for a positive divisor `d`.
pub proof fn lemma_div_trunc_between(x: int, d: int, lo: int, hi: int)
    requires
        d > 0,
        lo * d <= x <= hi * d,
    ensures
        lo <= div_trunc(x, d) <= hi,
{
    if x >= 0 {
        vstd::arithmetic::div_mod::lemma_fundamental_div_mod(x, d);
        vstd::arithmetic::div_mod::lemma_mod_pos_bound(x, d);
        let q = x / d;
        assert(lo <= q <= hi) by (nonlinear_arith)
            requires
                x == d * q + x % d,
                0 <= x % d < d,
                lo * d <= x <= hi * d,
                d > 0,
        ;
    } else {
        let y = -x;
        vstd::arithmetic::div_mod::lemma_fundamental_div_mod(y, d);
        vstd::arithmetic::div_mod::lemma_mod_pos_bound(y, d);
        let q = y / d;
        assert(-hi <= q <= -lo) by (nonlinear_arith)
            requires
                y == d * q + y % d,
                0 <= y % d < d,
                lo * d <= -y <= hi * d,
                d > 0,
        ;
    }
}

/// The PnL of a short is the opposite of the PnL of a long on the same position and prices.
pub proof fn lemma_pnl_short_is_opposite_of_long(
    position_size: i128,
    entry_price: i128,
    exit_price: i128,
)
    requires
        pnl_for(position_size, entry_price, exit_price, Direction::Long) is Ok,
        pnl_for(position_size, entry_price, exit_price, Direction::Short) is Ok,
    ensures
        pnl_for(position_size, entry_price, exit_price, Direction::Short)->Ok_0 == -pnl_for(
            position_size,
            entry_price,
            exit_price,
            Direction::Long,
        )->Ok_0,
{
    let m = exit_price - entry_price;
    assert(position_size * (entry_price - exit_price) == -(position_size * m)) by (nonlinear_arith)
        requires m == exit_price - entry_price;
    lemma_div_trunc_neg(position_size * m, entry_price as int);
}

/// A fee of at most 100% on a non-negative amount lies between zero and the amount.
pub proof fn lemma_fee_bounded(amount: i128, fee_bps: u32)
    requires
        amount >= 0,
        fee_bps <= BASIS_POINTS,
        fee_for(amount, fee_bps) is Ok,
    ensures
        0 <= fee_for(amount, fee_bps)->Ok_0 <= amount,
{
    assert(0 * 10000 <= amount * fee_bps <= amount * 10000) by (nonlinear_arith)
        requires amount >= 0, 0 <= fee_bps <= 10000;
    lemma_div_trunc_between(amount * fee_bps, 10000, 0, amount as int);
}

/// The utilization rate of a pool whose reserve is part of its liquidity lies between 0 and
/// 100% (10000 basis points).
pub proof fn lemma_utilization_at_most_full(reserved_liquidity: int, total_liquidity: int)
    requires
        0 <= reserved_liquidity <= total_liquidity,
        utilization_for(reserved_liquidity, total_liquidity) is Ok,
    ensures
        utilization_for(reserved_liquidity, total_liquidity)->Ok_0 <= BASIS_POINTS,
{
    if total_liquidity != 0 {
        assert(0 * total_liquidity <= reserved_liquidity * 10000 <= 10000 * total_liquidity)
            by (nonlinear_arith)
            requires 0 <= reserved_liquidity <= total_liquidity;
        lemma_div_trunc_between(reserved_liquidity * 10000, total_liquidity, 0, 10000);
    }
}

/// Depositing into a pool and redeeming the LP tokens just minted never pays out more than was
/// deposited, provided the pool does not hold liquidity without LP tokens (in that case the
/// first depositor receives the leftover liquidity).
pub proof fn lemma_mint_then_redeem_never_gains(deposit: int, total_liquidity: int, total_lp_tokens: int)
    requires
        deposit >= 0,
        total_liquidity >= 0,
        total_lp_tokens >= 0,
        !(total_lp_tokens == 0 && total_liquidity > 0),
        lp_tokens_for(deposit, total_liquidity, total_lp_tokens) is Ok,
        withdrawal_for(
            lp_tokens_for(deposit, total_liquidity, total_lp_tokens)->Ok_0 as int,
            total_liquidity + deposit,
            total_lp_tokens + lp_tokens_for(deposit, total_liquidity, total_lp_tokens)->Ok_0,
        ) is Ok,
    ensures
        0 <= withdrawal_for(
            lp_tokens_for(deposit, total_liquidity, total_lp_tokens)->Ok_0 as int,
            total_liquidity + deposit,
            total_lp_tokens + lp_tokens_for(deposit, total_liquidity, total_lp_tokens)->Ok_0,
        )->Ok_0 <= deposit,
{
    let minted = lp_tokens_for(deposit, total_liquidity, total_lp_tokens)->Ok_0 as int;
    let l = total_liquidity;
    let t = total_lp_tokens;
    if t == 0 || l == 0 {
        assert(minted == deposit);
        assert(minted * (l + deposit) <= deposit * (t + minted)) by (nonlinear_arith)
            requires minted == deposit, l == 0, t >= 0, deposit >= 0;
    } else {
        vstd::arithmetic::div_mod::lemma_fundamental_div_mod(deposit * t, l);
        vstd::arithmetic::div_mod::lemma_mod_pos_bound(deposit * t, l);
        assert(deposit * t >= 0) by (nonlinear_arith)
            requires deposit >= 0, t >= 0;
        assert(minted == (deposit * t) / l);
        assert(minted * (l + deposit) <= deposit * (t + minted)) by (nonlinear_arith)
            requires
                deposit * t == l * minted + (deposit * t) % l,
                0 <= (deposit * t) % l,
                deposit >= 0,
        ;
    }
    assert(minted >= 0) by {
        if t != 0 && l != 0 {
            assert(deposit * t >= 0) by (nonlinear_arith)
                requires deposit >= 0, t >= 0;
        }
    }
    assert(minted * (l + deposit) >= 0) by (nonlinear_arith)
        requires minted >= 0, l >= 0, deposit >= 0;
    lemma_div_trunc_between(minted * (l + deposit), t + minted, 0, deposit);
}

/// With a maintenance margin no larger than the `1/leverage` buffer, a long is liquidated at or
/// below its entry price and a short at or above it.
pub proof fn lemma_liquidation_price_brackets_entry(entry_price: i128, leverage: u32, maintenance_margin_bps: u32)
    requires
        entry_price > 0,
        leverage >= 1,
        maintenance_margin_fraction(maintenance_margin_bps) <= (PRECISION as int) / (leverage as int),
        liquidation_price_for(entry_price, leverage, Direction::Long, maintenance_margin_bps) is Ok,
        liquidation_price_for(entry_price, leverage, Direction::Short, maintenance_margin_bps) is Ok,
    ensures
        liquidation_price_for(entry_price, leverage, Direction::Long, maintenance_margin_bps)->Ok_0
            <= entry_price,
        entry_price <= liquidation_price_for(
            entry_price,
            leverage,
            Direction::Short,
            maintenance_margin_bps,
        )->Ok_0,
{
    let p = PRECISION as int;
    let long_factor = liquidation_factor(leverage, Direction::Long, maintenance_margin_bps);
    let short_factor = liquidation_factor(leverage, Direction::Short, maintenance_margin_bps);
    assert(0 <= (maintenance_margin_bps as int) * p / 10000);
    assert(0 <= p / (leverage as int) <= p) by (nonlinear_arith)
        requires p == 10_000_000, leverage >= 1;
    assert(0 <= long_factor <= p);
    assert(short_factor >= p);
    assert(0 * p <= entry_price * long_factor <= entry_price * p) by (nonlinear_arith)
        requires entry_price > 0, 0 <= long_factor <= p;
    lemma_div_trunc_between(entry_price * long_factor, p, 0, entry_price as int);
    assert(entry_price * p <= entry_price * short_factor <= (entry_price * short_factor) * p)
        by (nonlinear_arith)
        requires entry_price > 0, short_factor >= p, p >= 1;
    lemma_div_trunc_between(entry_price * short_factor, p, entry_price as int, entry_price * short_factor);
}

} // verus!

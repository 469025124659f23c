//! Liquidity pool accounting shared by the vault and the liquidity manager: the pool's
//! liquidity is split into an available and a reserved part, and its utilization rate is kept
//! in step with them.
use vstd::prelude::*;

use crate::errors::Error;
use crate::math::{calculate_utilization_rate, checked_value, utilization_for};
use crate::types::{AccountId, PoolInfo};

verus! {

/// An empty pool for `token`.
pub open spec fn empty_pool(token: AccountId) -> PoolInfo {
    PoolInfo {
        token,
        total_liquidity: 0,
        available_liquidity: 0,
        reserved_liquidity: 0,
        total_lp_tokens: 0,
        accumulated_fees: 0,
        utilization_rate: 0,
    }
}

/// Whether five figures all fit in `i128`.
pub open spec fn fits_all(a: int, b: int, c: int, d: int, e: int) -> bool {
    &&& checked_value(a) is Ok
    &&& checked_value(b) is Ok
    &&& checked_value(c) is Ok
    &&& checked_value(d) is Ok
    &&& checked_value(e) is Ok
}

/// The pool with new figures and the utilization rate recomputed from them: `Overflow` when a
/// figure does not fit in `i128`, or the error of the utilization rate.
pub open spec fn pool_with(
    pool: PoolInfo,
    total: int,
    available: int,
    reserved: int,
    lp_tokens: int,
    fees: int,
) -> Result<PoolInfo, Error> {
    if !fits_all(total, available, reserved, lp_tokens, fees) {
        Err(Error::Overflow)
    } else {
        match utilization_for(reserved, total) {
            Ok(rate) => Ok(
                PoolInfo {
                    token: pool.token,
                    total_liquidity: total as i128,
                    available_liquidity: available as i128,
                    reserved_liquidity: reserved as i128,
                    total_lp_tokens: lp_tokens as i128,
                    accumulated_fees: fees as i128,
                    utilization_rate: rate,
                },
            ),
            Err(e) => Err(e),
        }
    }
}

/// The pool after moving `amount` from the available to the reserved liquidity.
pub open spec fn pool_reserve(pool: PoolInfo, amount: i128) -> Result<PoolInfo, Error> {
    if pool.available_liquidity < amount {
        Err(Error::InsufficientLiquidity)
    } else {
        pool_with(
            pool,
            pool.total_liquidity as int,
            pool.available_liquidity - amount,
            pool.reserved_liquidity + amount,
            pool.total_lp_tokens as int,
            pool.accumulated_fees as int,
        )
    }
}

/// The pool after moving `amount` from the reserved back to the available liquidity.
pub open spec fn pool_release(pool: PoolInfo, amount: i128) -> Result<PoolInfo, Error> {
    if pool.reserved_liquidity < amount {
        Err(Error::InsufficientLiquidity)
    } else {
        pool_with(
            pool,
            pool.total_liquidity as int,
            pool.available_liquidity + amount,
            pool.reserved_liquidity - amount,
            pool.total_lp_tokens as int,
            pool.accumulated_fees as int,
        )
    }
}

/// A consistent pool: its liquidity is the sum of the available and the reserved part, neither
/// of which is negative, and its utilization rate is the one computed from them.
pub open spec fn pool_wf(pool: PoolInfo) -> bool {
    &&& pool.total_liquidity == pool.available_liquidity + pool.reserved_liquidity
    &&& pool.available_liquidity >= 0
    &&& pool.reserved_liquidity >= 0
    &&& utilization_for(pool.reserved_liquidity as int, pool.total_liquidity as int) == Ok::<u32, Error>(
        pool.utilization_rate,
    )
}

/// A new, empty pool for `token`.
pub fn new_pool(token: AccountId) -> (p: PoolInfo)
    ensures
        p == empty_pool(token),
        pool_wf(p),
{
    PoolInfo {
        token,
        total_liquidity: 0,
        available_liquidity: 0,
        reserved_liquidity: 0,
        total_lp_tokens: 0,
        accumulated_fees: 0,
        utilization_rate: 0,
    }
}

/// Rebuild the pool from figures computed with checked arithmetic (`None` for an overflow).
pub fn recompute_pool(
    pool: &PoolInfo,
    total: Option<i128>,
    available: Option<i128>,
    reserved: Option<i128>,
    lp_tokens: Option<i128>,
    fees: Option<i128>,
) -> (r: Result<PoolInfo, Error>)
    ensures
        (total is None || available is None || reserved is None || lp_tokens is None || fees is None)
            ==> r == Err::<PoolInfo, Error>(Error::Overflow),
        (total is Some && available is Some && reserved is Some && lp_tokens is Some && fees is Some)
            ==> r == pool_with(
            *pool,
            total->0 as int,
            available->0 as int,
            reserved->0 as int,
            lp_tokens->0 as int,
            fees->0 as int,
        ),
{
    match (total, available, reserved, lp_tokens, fees) {
        (Some(t), Some(a), Some(res), Some(lp), Some(f)) => {
            let rate = calculate_utilization_rate(res, t)?;
            Ok(
                PoolInfo {
                    token: pool.token,
                    total_liquidity: t,
                    available_liquidity: a,
                    reserved_liquidity: res,
                    total_lp_tokens: lp,
                    accumulated_fees: f,
                    utilization_rate: rate,
                },
            )
        },
        _ => Err(Error::Overflow),
    }
}

/// Move `amount` from the available to the reserved liquidity of `pool`.
pub fn reserve_in_pool(pool: &PoolInfo, amount: i128) -> (r: Result<PoolInfo, Error>)
    ensures
        r == pool_reserve(*pool, amount),
{
    if pool.available_liquidity < amount {
        return Err(Error::InsufficientLiquidity);
    }
    recompute_pool(
        pool,
        Some(pool.total_liquidity),
        pool.available_liquidity.checked_sub(amount),
        pool.reserved_liquidity.checked_add(amount),
        Some(pool.total_lp_tokens),
        Some(pool.accumulated_fees),
    )
}

/// Move `amount` from the reserved back to the available liquidity of `pool`.
pub fn release_in_pool(pool: &PoolInfo, amount: i128) -> (r: Result<PoolInfo, Error>)
    ensures
        r == pool_release(*pool, amount),
{
    if pool.reserved_liquidity < amount {
        return Err(Error::InsufficientLiquidity);
    }
    recompute_pool(
        pool,
        Some(pool.total_liquidity),
        pool.available_liquidity.checked_add(amount),
        pool.reserved_liquidity.checked_sub(amount),
        Some(pool.total_lp_tokens),
        Some(pool.accumulated_fees),
    )
}

/// Releasing what was just reserved gives back the pool as it was.
pub proof fn lemma_release_undoes_reserve(pool: PoolInfo, amount: i128)
    requires
        pool_wf(pool),
        amount > 0,
        pool_reserve(pool, amount) is Ok,
    ensures
        pool_release(pool_reserve(pool, amount)->Ok_0, amount) == Ok::<PoolInfo, Error>(pool),
{
}

/// Reserving what was just released gives back the pool as it was.
pub proof fn lemma_reserve_undoes_release(pool: PoolInfo, amount: i128)
    requires
        pool_wf(pool),
        amount > 0,
        pool_release(pool, amount) is Ok,
    ensures
        pool_reserve(pool_release(pool, amount)->Ok_0, amount) == Ok::<PoolInfo, Error>(pool),
{
}

/// Reserving and releasing keep a pool consistent.
pub proof fn lemma_reserve_release_keep_wf(pool: PoolInfo, amount: i128)
    requires
        pool_wf(pool),
        amount > 0,
    ensures
        pool_reserve(pool, amount) is Ok ==> pool_wf(pool_reserve(pool, amount)->Ok_0),
        pool_release(pool, amount) is Ok ==> pool_wf(pool_release(pool, amount)->Ok_0),
{
}

} // verus!

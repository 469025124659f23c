//! The liquidity manager: one pool per token, LP token balances per holder and token, LP token
//! staking with a lock period, and admin settlement of trader PnL against a pool.
use std::collections::HashMap;
use vstd::prelude::*;

use crate::errors::Error;
use crate::math::{
    calculate_lp_tokens, calculate_withdrawal_amount, checked_value, lp_tokens_for, withdrawal_for,
};
use crate::pool::{
    empty_pool, new_pool, pool_release, pool_reserve, pool_wf, pool_with, recompute_pool,
    release_in_pool, reserve_in_pool,
};
use crate::totals::{lemma_map_total_empty, lemma_map_total_insert, map_total};
use crate::types::{AccountId, LPStake, PoolInfo};
use crate::validation::validate_positive_amount;

verus! {

broadcast use vstd::std_specs::hash::group_hash_axioms;

/// The key under which the LP balance or the stake of `user` in the pool of `token` is kept.
pub open spec fn holder_key(user: AccountId, token: AccountId) -> u128 {
    (user * 0x1_0000_0000_0000_0000 + token) as u128
}

/// The key of `user` in the pool of `token`, as the manager's maps are keyed.
pub fn holder_key_of(user: AccountId, token: AccountId) -> (k: u128)
    ensures
        k == holder_key(user, token),
{
    assert(user * 0x1_0000_0000_0000_0000 + token <= u128::MAX) by (nonlinear_arith)
        requires
            user <= u64::MAX,
            token <= u64::MAX,
    ;
    (user as u128) * 0x1_0000_0000_0000_0000u128 + (token as u128)
}

/// The token of the pool that a holder key belongs to.
pub open spec fn key_token(key: u128) -> AccountId {
    (key % 0x1_0000_0000_0000_0000) as AccountId
}

/// The key of `user` in the pool of `token` belongs to the pool of `token`.
pub proof fn lemma_key_token(user: AccountId, token: AccountId)
    ensures
        key_token(holder_key(user, token)) == token,
{
    let m: int = 0x1_0000_0000_0000_0000;
    assert(user * m + token <= u128::MAX) by (nonlinear_arith)
        requires
            user <= u64::MAX,
            token <= u64::MAX,
            m == 0x1_0000_0000_0000_0000,
    ;
    vstd::arithmetic::div_mod::lemma_mod_multiples_vanish(user as int, token as int, m);
    vstd::arithmetic::div_mod::lemma_small_mod(token as nat, m as nat);
    assert(m * user == user * m) by (nonlinear_arith);
}

/// What an LP balance counts towards the LP tokens held in the pool of `token`: its amount
/// when it belongs to that pool.
pub open spec fn balance_weight(token: AccountId) -> spec_fn(u128, i128) -> int {
    |key: u128, balance: i128| if key_token(key) == token { balance as int } else { 0 }
}

/// What a stake counts towards the LP tokens staked in the pool of `token`: its staked amount
/// when it belongs to that pool.
pub open spec fn stake_weight(token: AccountId) -> spec_fn(u128, LPStake) -> int {
    |key: u128, stake: LPStake| if key_token(key) == token { stake.staked_amount as int } else { 0 }
}

/// Seconds in 30, 90 and 180 days: the lock periods that earn a staking boost.
pub const LOCK_30_DAYS: u64 = 30 * 24 * 3600;

pub const LOCK_90_DAYS: u64 = 90 * 24 * 3600;

pub const LOCK_180_DAYS: u64 = 180 * 24 * 3600;

/// The boost multiplier (in basis points) granted to a new stake locked for `lock_period`.
pub open spec fn boost_for(lock_period: u64) -> u32 {
    if lock_period >= LOCK_180_DAYS {
        20000
    } else if lock_period >= LOCK_90_DAYS {
        15000
    } else if lock_period >= LOCK_30_DAYS {
        12000
    } else {
        10000
    }
}

/// The boost multiplier (in basis points) granted to a new stake locked for `lock_period`:
/// 2x from 180 days, 1.5x from 90 days, 1.2x from 30 days, 1x below.
pub fn boost_multiplier(lock_period: u64) -> (r: u32)
    ensures
        r == boost_for(lock_period),
{
    if lock_period >= LOCK_180_DAYS {
        20000
    } else if lock_period >= LOCK_90_DAYS {
        15000
    } else if lock_period >= LOCK_30_DAYS {
        12000
    } else {
        10000
    }
}

/// The state of the liquidity manager contract.
pub struct LiquidityManager {
    pub initialized: bool,
    pub admin: AccountId,
    pub paused: bool,
    pub pools: HashMap<AccountId, PoolInfo>,
    pub lp_balances: HashMap<u128, i128>,
    pub stakes: HashMap<u128, LPStake>,
}

/// The liquidity manager's state as mathematical values.
pub struct LiquidityManagerView {
    pub initialized: bool,
    pub admin: AccountId,
    pub paused: bool,
    pub pools: Map<AccountId, PoolInfo>,
    pub lp_balances: Map<u128, i128>,
    pub stakes: Map<u128, LPStake>,
}

impl View for LiquidityManager {
    type V = LiquidityManagerView;

    open spec fn view(&self) -> LiquidityManagerView {
        LiquidityManagerView {
            initialized: self.initialized,
            admin: self.admin,
            paused: self.paused,
            pools: self.pools@,
            lp_balances: self.lp_balances@,
            stakes: self.stakes@,
        }
    }
}

impl LiquidityManagerView {
    /// The LP token balance of `user` in the pool of `token` (zero when none is recorded).
    pub open spec fn lp_balance(self, user: AccountId, token: AccountId) -> i128 {
        if self.lp_balances.contains_key(holder_key(user, token)) {
            self.lp_balances[holder_key(user, token)]
        } else {
            0
        }
    }

    /// The admin-only functions fail on a manager that was never initialized.
    pub open spec fn initialized_check(self) -> Result<(), Error> {
        if !self.initialized {
            Err(Error::NotInitialized)
        } else {
            Ok(())
        }
    }

    /// The user functions fail while the manager is paused.
    pub open spec fn pause_check(self) -> Result<(), Error> {
        if self.paused {
            Err(Error::Paused)
        } else {
            Ok(())
        }
    }

    /// The pool of `token`, or `PoolNotFound`.
    pub open spec fn pool_of(self, token: AccountId) -> Result<PoolInfo, Error> {
        if self.pools.contains_key(token) {
            Ok(self.pools[token])
        } else {
            Err(Error::PoolNotFound)
        }
    }

    /// The same state with the pause flag set to `paused`.
    pub open spec fn with_paused(self, paused: bool) -> LiquidityManagerView {
        LiquidityManagerView { paused, ..self }
    }

    /// The same state with the pool of `token` replaced by `pool`.
    pub open spec fn with_pool(self, token: AccountId, pool: PoolInfo) -> LiquidityManagerView {
        LiquidityManagerView { pools: self.pools.insert(token, pool), ..self }
    }

    /// The outcome of `LiquidityManager::initialize`.
    pub open spec fn initialize_outcome(self, admin: AccountId) -> Result<LiquidityManagerView, Error> {
        if self.initialized {
            Err(Error::AlreadyInitialized)
        } else {
            Ok(LiquidityManagerView { initialized: true, admin, paused: false, ..self })
        }
    }

    /// The outcome of `LiquidityManager::deposit`: the new state and the LP tokens minted.
    pub open spec fn deposit_outcome(self, user: AccountId, token: AccountId, amount: i128) -> Result<
        (LiquidityManagerView, i128),
        Error,
    > {
        if self.pause_check() is Err {
            Err(Error::Paused)
        } else if amount <= 0 {
            Err(Error::InvalidAmount)
        } else if self.pool_of(token) is Err {
            Err(Error::PoolNotFound)
        } else {
            let pool = self.pools[token];
            match lp_tokens_for(amount as int, pool.total_liquidity as int, pool.total_lp_tokens as int) {
                Err(e) => Err(e),
                Ok(minted) => match pool_with(
                    pool,
                    pool.total_liquidity + amount,
                    pool.available_liquidity + amount,
                    pool.reserved_liquidity as int,
                    pool.total_lp_tokens + minted,
                    pool.accumulated_fees as int,
                ) {
                    Err(e) => Err(e),
                    Ok(new_pool) => if !(checked_value(self.lp_balance(user, token) + minted) is Ok) {
                        Err(Error::Overflow)
                    } else {
                        Ok(
                            (
                                LiquidityManagerView {
                                    pools: self.pools.insert(token, new_pool),
                                    lp_balances: self.lp_balances.insert(
                                        holder_key(user, token),
                                        (self.lp_balance(user, token) + minted) as i128,
                                    ),
                                    ..self
                                },
                                minted,
                            ),
                        )
                    },
                },
            }
        }
    }

    /// The outcome of `LiquidityManager::withdraw`: the new state and the amount paid out.
    pub open spec fn withdraw_outcome(self, user: AccountId, token: AccountId, lp_tokens: i128) -> Result<
        (LiquidityManagerView, i128),
        Error,
    > {
        if self.pause_check() is Err {
            Err(Error::Paused)
        } else if lp_tokens <= 0 {
            Err(Error::InvalidAmount)
        } else if self.pool_of(token) is Err {
            Err(Error::PoolNotFound)
        } else if self.lp_balance(user, token) < lp_tokens {
            Err(Error::InsufficientBalance)
        } else {
            let pool = self.pools[token];
            match withdrawal_for(lp_tokens as int, pool.total_liquidity as int, pool.total_lp_tokens as int) {
                Err(e) => Err(e),
                Ok(amount) => if pool.available_liquidity < amount {
                    Err(Error::InsufficientLiquidity)
                } else {
                    match pool_with(
                        pool,
                        pool.total_liquidity - amount,
                        pool.available_liquidity - amount,
                        pool.reserved_liquidity as int,
                        pool.total_lp_tokens - lp_tokens,
                        pool.accumulated_fees as int,
                    ) {
                        Err(e) => Err(e),
                        Ok(new_pool) => Ok(
                            (
                                LiquidityManagerView {
                                    pools: self.pools.insert(token, new_pool),
                                    lp_balances: self.lp_balances.insert(
                                        holder_key(user, token),
                                        (self.lp_balance(user, token) - lp_tokens) as i128,
                                    ),
                                    ..self
                                },
                                amount,
                            ),
                        ),
                    }
                },
            }
        }
    }

    /// The outcome of `LiquidityManager::reserve_liquidity`.
    pub open spec fn reserve_outcome(self, token: AccountId, amount: i128) -> Result<LiquidityManagerView, Error> {
        if self.initialized_check() is Err {
            Err(Error::NotInitialized)
        } else if amount <= 0 {
            Err(Error::InvalidAmount)
        } else if self.pool_of(token) is Err {
            Err(Error::PoolNotFound)
        } else {
            match pool_reserve(self.pools[token], amount) {
                Err(e) => Err(e),
                Ok(new_pool) => Ok(self.with_pool(token, new_pool)),
            }
        }
    }

    /// The outcome of `LiquidityManager::release_liquidity`.
    pub open spec fn release_outcome(self, token: AccountId, amount: i128) -> Result<LiquidityManagerView, Error> {
        if self.initialized_check() is Err {
            Err(Error::NotInitialized)
        } else if amount <= 0 {
            Err(Error::InvalidAmount)
        } else if self.pool_of(token) is Err {
            Err(Error::PoolNotFound)
        } else {
            match pool_release(self.pools[token], amount) {
                Err(e) => Err(e),
                Ok(new_pool) => Ok(self.with_pool(token, new_pool)),
            }
        }
    }

    /// Settling `pnl` panics (negating `i128::MIN`) when a trader loss of `i128::MIN` reaches
    /// an existing pool.
    pub open spec fn settle_panics(self, token: AccountId, pnl: i128) -> bool {
        self.initialized && self.pools.contains_key(token) && pnl == i128::MIN
    }

    /// The outcome of `LiquidityManager::settle_trader_pnl`: a trader profit leaves the pool, a
    /// trader loss enters it.
    pub open spec fn settle_outcome(self, token: AccountId, pnl: i128) -> Result<LiquidityManagerView, Error> {
        if self.initialized_check() is Err {
            Err(Error::NotInitialized)
        } else if self.pool_of(token) is Err {
            Err(Error::PoolNotFound)
        } else {
            let pool = self.pools[token];
            if pnl > 0 && pool.available_liquidity < pnl {
                Err(Error::InsufficientLiquidity)
            } else {
                match pool_with(
                    pool,
                    pool.total_liquidity - pnl,
                    pool.available_liquidity - pnl,
                    pool.reserved_liquidity as int,
                    pool.total_lp_tokens as int,
                    pool.accumulated_fees as int,
                ) {
                    Err(e) => Err(e),
                    Ok(new_pool) => Ok(self.with_pool(token, new_pool)),
                }
            }
        }
    }

    /// The outcome of `LiquidityManager::stake_lp_tokens` at time `now`.
    pub open spec fn stake_outcome(
        self,
        user: AccountId,
        token: AccountId,
        amount: i128,
        lock_period: u64,
        now: u64,
    ) -> Result<LiquidityManagerView, Error> {
        if self.pause_check() is Err {
            Err(Error::Paused)
        } else if amount <= 0 {
            Err(Error::InvalidAmount)
        } else if self.lp_balance(user, token) < amount {
            Err(Error::InsufficientBalance)
        } else {
            let key = holder_key(user, token);
            let stake = if self.stakes.contains_key(key) {
                self.stakes[key]
            } else {
                LPStake {
                    user,
                    staked_amount: 0,
                    rewards_earned: 0,
                    stake_timestamp: now,
                    lock_period,
                    boost_multiplier: boost_for(lock_period),
                }
            };
            if !(checked_value(stake.staked_amount + amount) is Ok) {
                Err(Error::Overflow)
            } else {
                Ok(
                    LiquidityManagerView {
                        lp_balances: self.lp_balances.insert(key, (self.lp_balance(user, token) - amount) as i128),
                        stakes: self.stakes.insert(
                            key,
                            LPStake {
                                staked_amount: (stake.staked_amount + amount) as i128,
                                stake_timestamp: now,
                                lock_period,
                                ..stake
                            },
                        ),
                        ..self
                    },
                )
            }
        }
    }

    /// Unstaking panics (adding the lock period to the stake time) when that sum does not fit
    /// in `u64` and the unstake gets that far.
    pub open spec fn unstake_panics(self, user: AccountId, token: AccountId, amount: i128) -> bool {
        let key = holder_key(user, token);
        &&& !self.paused
        &&& amount > 0
        &&& self.stakes.contains_key(key)
        &&& self.stakes[key].staked_amount >= amount
        &&& self.stakes[key].stake_timestamp + self.stakes[key].lock_period > u64::MAX
    }

    /// The outcome of `LiquidityManager::unstake_lp_tokens` at time `now`.
    pub open spec fn unstake_outcome(self, user: AccountId, token: AccountId, amount: i128, now: u64) -> Result<
        LiquidityManagerView,
        Error,
    > {
        let key = holder_key(user, token);
        if self.pause_check() is Err {
            Err(Error::Paused)
        } else if amount <= 0 {
            Err(Error::InvalidAmount)
        } else if !self.stakes.contains_key(key) {
            Err(Error::InvalidParameter)
        } else if self.stakes[key].staked_amount < amount {
            Err(Error::InsufficientBalance)
        } else if now < self.stakes[key].stake_timestamp + self.stakes[key].lock_period {
            Err(Error::Unauthorized)
        } else if !(checked_value(self.lp_balance(user, token) + amount) is Ok) {
            Err(Error::Overflow)
        } else {
            let stake = self.stakes[key];
            Ok(
                LiquidityManagerView {
                    stakes: self.stakes.insert(
                        key,
                        LPStake { staked_amount: (stake.staked_amount - amount) as i128, ..stake },
                    ),
                    lp_balances: self.lp_balances.insert(key, (self.lp_balance(user, token) + amount) as i128),
                    ..self
                },
            )
        }
    }

    /// The LP tokens of the pool of `token` held in balances and staked: together they are
    /// the pool's LP supply (none without a pool).
    pub open spec fn supply_matches(self, token: AccountId) -> bool {
        map_total(self.lp_balances, balance_weight(token)) + map_total(self.stakes, stake_weight(token)) == if self.pools.contains_key(token) {
            self.pools[token].total_lp_tokens as int
        } else {
            0
        }
    }

    /// Every pool's LP supply is what its holders hold and have staked.
    pub open spec fn lp_supply_matches(self) -> bool {
        &&& self.lp_balances.dom().finite()
        &&& self.stakes.dom().finite()
        &&& forall|token: AccountId| #[trigger] self.supply_matches(token)
    }

    /// Every pool of the manager is consistent and no stake is negative.
    pub open spec fn wf(self) -> bool {
        &&& forall|token: AccountId| #[trigger] self.pools.contains_key(token) ==> pool_wf(self.pools[token])
        &&& forall|key: u128| #[trigger] self.stakes.contains_key(key) ==> self.stakes[key].staked_amount >= 0
    }
}

impl LiquidityManager {
    /// A liquidity manager contract that holds no state yet.
    pub fn new() -> (m: LiquidityManager)
        ensures
            !m@.initialized,
            !m@.paused,
            m@.pools == Map::<AccountId, PoolInfo>::empty(),
            m@.lp_balances == Map::<u128, i128>::empty(),
            m@.stakes == Map::<u128, LPStake>::empty(),
            m@.lp_supply_matches(),
    {
        let m = LiquidityManager {
            initialized: false,
            admin: 0,
            paused: false,
            pools: HashMap::new(),
            lp_balances: HashMap::new(),
            stakes: HashMap::new(),
        };
        proof {
            assert forall|token: AccountId| #[trigger] m@.supply_matches(token) by {
                lemma_map_total_empty(balance_weight(token));
                lemma_map_total_empty(stake_weight(token));
            }
        }
        m
    }

    /// Check that the manager was initialized and return the admin, whose authorization the
    /// admin-only functions then demand.
    pub fn require_admin(&self) -> (r: Result<AccountId, Error>)
        ensures
            r == (if self@.initialized {
                Ok::<AccountId, Error>(self@.admin)
            } else {
                Err(Error::NotInitialized)
            }),
    {
        if !self.initialized {
            return Err(Error::NotInitialized);
        }
        Ok(self.admin)
    }

    /// Fail with `Paused` while the manager is paused.
    pub fn require_not_paused(&self) -> (r: Result<(), Error>)
        ensures
            r == self@.pause_check(),
    {
        if self.paused {
            return Err(Error::Paused);
        }
        Ok(())
    }

    /// Initialize the manager with its admin.
    pub fn initialize(&mut self, admin: AccountId) -> (r: Result<(), Error>)
        ensures
            match old(self)@.initialize_outcome(admin) {
                Ok(v) => r == Ok::<(), Error>(()) && final(self)@ == v,
                Err(e) => r == Err::<(), Error>(e) && final(self)@ == old(self)@,
            },
    {
        if self.initialized {
            return Err(Error::AlreadyInitialized);
        }
        self.admin = admin;
        self.initialized = true;
        self.paused = false;
        Ok(())
    }

    /// Create an empty pool for `token`, replacing any pool it had (admin only).
    pub fn create_pool(&mut self, token: AccountId) -> (r: Result<(), Error>)
        ensures
            r == old(self)@.initialized_check(),
            final(self)@ == (if old(self)@.initialized {
                old(self)@.with_pool(token, empty_pool(token))
            } else {
                old(self)@
            }),
    {
        self.require_admin()?;
        self.pools.insert(token, new_pool(token));
        Ok(())
    }

    /// The LP token balance of `user` in the pool of `token`.
    pub fn get_lp_balance(&self, user: AccountId, token: AccountId) -> (r: i128)
        ensures
            r == self@.lp_balance(user, token),
    {
        match self.lp_balances.get(&holder_key_of(user, token)) {
            Some(b) => *b,
            None => 0,
        }
    }

    /// The pool of `token`.
    pub fn get_pool_info(&self, token: AccountId) -> (r: Result<PoolInfo, Error>)
        ensures
            r == self@.pool_of(token),
    {
        match self.pools.get(&token) {
            Some(p) => Ok(*p),
            None => Err(Error::PoolNotFound),
        }
    }

    /// The stake of `user` in the pool of `token`, if any.
    pub fn get_user_stake_info(&self, user: AccountId, token: AccountId) -> (r: Option<LPStake>)
        ensures
            r == (if self@.stakes.contains_key(holder_key(user, token)) {
                Some(self@.stakes[holder_key(user, token)])
            } else {
                None
            }),
    {
        match self.stakes.get(&holder_key_of(user, token)) {
            Some(s) => Some(*s),
            None => None,
        }
    }

    /// Deposit `amount` of `token` for `user` and mint LP tokens. Returns the LP tokens minted.
    pub fn deposit(&mut self, user: AccountId, token: AccountId, amount: i128) -> (r: Result<i128, Error>)
        ensures
            match old(self)@.deposit_outcome(user, token, amount) {
                Ok((v, minted)) => r == Ok::<i128, Error>(minted) && final(self)@ == v,
                Err(e) => r == Err::<i128, Error>(e) && final(self)@ == old(self)@,
            },
    {
        self.require_not_paused()?;
        validate_positive_amount(amount)?;
        let pool = self.get_pool_info(token)?;
        let minted = calculate_lp_tokens(amount, pool.total_liquidity, pool.total_lp_tokens)?;
        let new_pool = recompute_pool(
            &pool,
            pool.total_liquidity.checked_add(amount),
            pool.available_liquidity.checked_add(amount),
            Some(pool.reserved_liquidity),
            pool.total_lp_tokens.checked_add(minted),
            Some(pool.accumulated_fees),
        )?;
        let balance = match self.get_lp_balance(user, token).checked_add(minted) {
            Some(b) => b,
            None => return Err(Error::Overflow),
        };
        self.pools.insert(token, new_pool);
        self.lp_balances.insert(holder_key_of(user, token), balance);
        Ok(minted)
    }

    /// Burn `lp_tokens` of `user` in the pool of `token` and pay out their share of the
    /// liquidity. Returns the amount paid out.
    pub fn withdraw(&mut self, user: AccountId, token: AccountId, lp_tokens: i128) -> (r: Result<i128, Error>)
        ensures
            match old(self)@.withdraw_outcome(user, token, lp_tokens) {
                Ok((v, amount)) => r == Ok::<i128, Error>(amount) && final(self)@ == v,
                Err(e) => r == Err::<i128, Error>(e) && final(self)@ == old(self)@,
            },
    {
        self.require_not_paused()?;
        validate_positive_amount(lp_tokens)?;
        let pool = self.get_pool_info(token)?;
        let user_balance = self.get_lp_balance(user, token);
        if user_balance < lp_tokens {
            return Err(Error::InsufficientBalance);
        }
        let amount = calculate_withdrawal_amount(lp_tokens, pool.total_liquidity, pool.total_lp_tokens)?;
        if pool.available_liquidity < amount {
            return Err(Error::InsufficientLiquidity);
        }
        let new_pool = recompute_pool(
            &pool,
            pool.total_liquidity.checked_sub(amount),
            pool.available_liquidity.checked_sub(amount),
            Some(pool.reserved_liquidity),
            pool.total_lp_tokens.checked_sub(lp_tokens),
            Some(pool.accumulated_fees),
        )?;
        self.pools.insert(token, new_pool);
        self.lp_balances.insert(holder_key_of(user, token), user_balance - lp_tokens);
        Ok(amount)
    }

    /// Move `amount` of the available liquidity of `token`'s pool to its reserve (admin only).
    pub fn reserve_liquidity(&mut self, token: AccountId, amount: i128) -> (r: Result<(), Error>)
        ensures
            match old(self)@.reserve_outcome(token, amount) {
                Ok(v) => r == Ok::<(), Error>(()) && final(self)@ == v,
                Err(e) => r == Err::<(), Error>(e) && final(self)@ == old(self)@,
            },
    {
        self.require_admin()?;
        validate_positive_amount(amount)?;
        let pool = self.get_pool_info(token)?;
        let new_pool = reserve_in_pool(&pool, amount)?;
        self.pools.insert(token, new_pool);
        Ok(())
    }

    /// Move `amount` of the reserved liquidity of `token`'s pool back to the available part
    /// (admin only).
    pub fn release_liquidity(&mut self, token: AccountId, amount: i128) -> (r: Result<(), Error>)
        ensures
            match old(self)@.release_outcome(token, amount) {
                Ok(v) => r == Ok::<(), Error>(()) && final(self)@ == v,
                Err(e) => r == Err::<(), Error>(e) && final(self)@ == old(self)@,
            },
    {
        self.require_admin()?;
        validate_positive_amount(amount)?;
        let pool = self.get_pool_info(token)?;
        let new_pool = release_in_pool(&pool, amount)?;
        self.pools.insert(token, new_pool);
        Ok(())
    }

    /// Whether settling `pnl` against the pool of `token` would overflow (negating
    /// `i128::MIN`).
    pub fn settle_trader_pnl_panics(&self, token: AccountId, pnl: i128) -> (r: bool)
        ensures
            r == self@.settle_panics(token, pnl),
    {
        self.initialized && self.pools.contains_key(&token) && pnl == i128::MIN
    }

    /// Settle a trader's PnL against the pool of `token` (admin only): a profit is paid out of
    /// the available liquidity, a loss is added to it.
    pub fn settle_trader_pnl(&mut self, token: AccountId, pnl: i128) -> (r: Result<(), Error>)
        requires
            !old(self)@.settle_panics(token, pnl),
        ensures
            match old(self)@.settle_outcome(token, pnl) {
                Ok(v) => r == Ok::<(), Error>(()) && final(self)@ == v,
                Err(e) => r == Err::<(), Error>(e) && final(self)@ == old(self)@,
            },
    {
        self.require_admin()?;
        let pool = self.get_pool_info(token)?;
        let new_pool = if pnl > 0 {
            if pool.available_liquidity < pnl {
                return Err(Error::InsufficientLiquidity);
            }
            recompute_pool(
                &pool,
                pool.total_liquidity.checked_sub(pnl),
                pool.available_liquidity.checked_sub(pnl),
                Some(pool.reserved_liquidity),
                Some(pool.total_lp_tokens),
                Some(pool.accumulated_fees),
            )?
        } else if pnl < 0 {
            let gain = -pnl;
            recompute_pool(
                &pool,
                pool.total_liquidity.checked_add(gain),
                pool.available_liquidity.checked_add(gain),
                Some(pool.reserved_liquidity),
                Some(pool.total_lp_tokens),
                Some(pool.accumulated_fees),
            )?
        } else {
            recompute_pool(
                &pool,
                Some(pool.total_liquidity),
                Some(pool.available_liquidity),
                Some(pool.reserved_liquidity),
                Some(pool.total_lp_tokens),
                Some(pool.accumulated_fees),
            )?
        };
        self.pools.insert(token, new_pool);
        Ok(())
    }

    /// Stake `amount` LP tokens of `user` in the pool of `token` for `lock_period` seconds from
    /// `now`. A new stake gets the boost of its lock period; staking again adds to the stake and
    /// restarts its lock.
    pub fn stake_lp_tokens(
        &mut self,
        user: AccountId,
        token: AccountId,
        amount: i128,
        lock_period: u64,
        now: u64,
    ) -> (r: Result<(), Error>)
        ensures
            match old(self)@.stake_outcome(user, token, amount, lock_period, now) {
                Ok(v) => r == Ok::<(), Error>(()) && final(self)@ == v,
                Err(e) => r == Err::<(), Error>(e) && final(self)@ == old(self)@,
            },
    {
        self.require_not_paused()?;
        validate_positive_amount(amount)?;
        let user_balance = self.get_lp_balance(user, token);
        if user_balance < amount {
            return Err(Error::InsufficientBalance);
        }
        let key = holder_key_of(user, token);
        let stake = match self.stakes.get(&key) {
            Some(s) => *s,
            None => LPStake {
                user,
                staked_amount: 0,
                rewards_earned: 0,
                stake_timestamp: now,
                lock_period,
                boost_multiplier: boost_multiplier(lock_period),
            },
        };
        let staked = match stake.staked_amount.checked_add(amount) {
            Some(v) => v,
            None => return Err(Error::Overflow),
        };
        self.lp_balances.insert(key, user_balance - amount);
        self.stakes.insert(
            key,
            LPStake { staked_amount: staked, stake_timestamp: now, lock_period, ..stake },
        );
        Ok(())
    }

    /// Whether unstaking `amount` for `user` from the pool of `token` would overflow (adding
    /// the lock period to the stake time).
    pub fn unstake_lp_tokens_panics(&self, user: AccountId, token: AccountId, amount: i128) -> (r: bool)
        ensures
            r == self@.unstake_panics(user, token, amount),
    {
        if self.paused || amount <= 0 {
            return false;
        }
        match self.stakes.get(&holder_key_of(user, token)) {
            Some(stake) => stake.staked_amount >= amount && stake.stake_timestamp.checked_add(
                stake.lock_period,
            ).is_none(),
            None => false,
        }
    }

    /// Unstake `amount` LP tokens of `user` in the pool of `token` once the lock has expired at
    /// `now`; they return to the user's LP balance.
    pub fn unstake_lp_tokens(&mut self, user: AccountId, token: AccountId, amount: i128, now: u64) -> (r: Result<
        (),
        Error,
    >)
        requires
            !old(self)@.unstake_panics(user, token, amount),
        ensures
            match old(self)@.unstake_outcome(user, token, amount, now) {
                Ok(v) => r == Ok::<(), Error>(()) && final(self)@ == v,
                Err(e) => r == Err::<(), Error>(e) && final(self)@ == old(self)@,
            },
    {
        self.require_not_paused()?;
        validate_positive_amount(amount)?;
        let key = holder_key_of(user, token);
        let stake = match self.stakes.get(&key) {
            Some(s) => *s,
            None => return Err(Error::InvalidParameter),
        };
        if stake.staked_amount < amount {
            return Err(Error::InsufficientBalance);
        }
        if now < stake.stake_timestamp + stake.lock_period {
            return Err(Error::Unauthorized);
        }
        let balance = match self.get_lp_balance(user, token).checked_add(amount) {
            Some(b) => b,
            None => return Err(Error::Overflow),
        };
        self.stakes.insert(key, LPStake { staked_amount: stake.staked_amount - amount, ..stake });
        self.lp_balances.insert(key, balance);
        Ok(())
    }

    /// Pause the user functions (admin only).
    pub fn pause(&mut self) -> (r: Result<(), Error>)
        ensures
            r == old(self)@.initialized_check(),
            final(self)@ == (if old(self)@.initialized {
                old(self)@.with_paused(true)
            } else {
                old(self)@
            }),
    {
        self.require_admin()?;
        self.paused = true;
        Ok(())
    }

    /// Resume the user functions (admin only).
    pub fn unpause(&mut self) -> (r: Result<(), Error>)
        ensures
            r == old(self)@.initialized_check(),
            final(self)@ == (if old(self)@.initialized {
                old(self)@.with_paused(false)
            } else {
                old(self)@
            }),
    {
        self.require_admin()?;
        self.paused = false;
        Ok(())
    }
}

/// Staking and unstaking keep the manager well formed.
pub proof fn lemma_stake_unstake_keep_wf(
    v: LiquidityManagerView,
    user: AccountId,
    token: AccountId,
    amount: i128,
    lock_period: u64,
    now: u64,
)
    requires
        v.wf(),
    ensures
        v.stake_outcome(user, token, amount, lock_period, now) is Ok ==> v.stake_outcome(
            user,
            token,
            amount,
            lock_period,
            now,
        )->Ok_0.wf(),
        v.unstake_outcome(user, token, amount, now) is Ok ==> v.unstake_outcome(user, token, amount, now)->Ok_0.wf(),
{
}

/// Creating a pool keeps the manager well formed.
pub proof fn lemma_create_pool_keeps_wf(v: LiquidityManagerView, token: AccountId)
    requires
        v.wf(),
    ensures
        v.with_pool(token, empty_pool(token)).wf(),
{
}

/// Deposits keep the manager well formed.
pub proof fn lemma_deposit_keeps_wf(v: LiquidityManagerView, user: AccountId, token: AccountId, amount: i128)
    requires
        v.wf(),
        v.deposit_outcome(user, token, amount) is Ok,
    ensures
        v.deposit_outcome(user, token, amount)->Ok_0.0.wf(),
{
}

/// Withdrawals keep the manager well formed.
pub proof fn lemma_withdraw_keeps_wf(v: LiquidityManagerView, user: AccountId, token: AccountId, lp_tokens: i128)
    requires
        v.wf(),
        v.withdraw_outcome(user, token, lp_tokens) is Ok,
    ensures
        v.withdraw_outcome(user, token, lp_tokens)->Ok_0.0.wf(),
{
}

/// Reserving and releasing liquidity keep the manager well formed.
pub proof fn lemma_reserve_release_keep_wf(v: LiquidityManagerView, token: AccountId, amount: i128)
    requires
        v.wf(),
    ensures
        v.reserve_outcome(token, amount) is Ok ==> v.reserve_outcome(token, amount)->Ok_0.wf(),
        v.release_outcome(token, amount) is Ok ==> v.release_outcome(token, amount)->Ok_0.wf(),
{
    if amount > 0 && v.pools.contains_key(token) {
        crate::pool::lemma_reserve_release_keep_wf(v.pools[token], amount);
    }
}

/// Settling a trader's PnL keeps the manager well formed.
pub proof fn lemma_settle_keeps_wf(v: LiquidityManagerView, token: AccountId, pnl: i128)
    requires
        v.wf(),
        v.settle_outcome(token, pnl) is Ok,
    ensures
        v.settle_outcome(token, pnl)->Ok_0.wf(),
{
}

/// Releasing the liquidity just reserved gives back the manager as it was.
pub proof fn lemma_release_undoes_reserve(v: LiquidityManagerView, token: AccountId, amount: i128)
    requires
        v.wf(),
        v.reserve_outcome(token, amount) is Ok,
    ensures
        v.reserve_outcome(token, amount)->Ok_0.release_outcome(token, amount)
            == Ok::<LiquidityManagerView, Error>(v),
{
    crate::pool::lemma_release_undoes_reserve(v.pools[token], amount);
    let after = v.reserve_outcome(token, amount)->Ok_0;
    assert(after.release_outcome(token, amount)->Ok_0.pools =~= v.pools);
}

/// A deposit followed by the withdrawal of the LP tokens it minted gives the user back the LP
/// balance held before and pays out no more than was deposited; this holds unless the pool
/// holds liquidity without LP tokens.
pub proof fn lemma_round_trip_never_gains(v: LiquidityManagerView, user: AccountId, token: AccountId, amount: i128)
    requires
        v.wf(),
        v.pools.contains_key(token),
        v.pools[token].total_lp_tokens >= 0,
        !(v.pools[token].total_lp_tokens == 0 && v.pools[token].total_liquidity > 0),
        v.deposit_outcome(user, token, amount) is Ok,
        v.deposit_outcome(user, token, amount)->Ok_0.0.withdraw_outcome(
            user,
            token,
            v.deposit_outcome(user, token, amount)->Ok_0.1,
        ) is Ok,
    ensures
        ({
            let (after_deposit, minted) = v.deposit_outcome(user, token, amount)->Ok_0;
            let (after_withdraw, paid) = after_deposit.withdraw_outcome(user, token, minted)->Ok_0;
            &&& after_withdraw.lp_balance(user, token) == v.lp_balance(user, token)
            &&& paid <= amount
        }),
{
    crate::math::lemma_mint_then_redeem_never_gains(
        amount as int,
        v.pools[token].total_liquidity as int,
        v.pools[token].total_lp_tokens as int,
    );
}

/// Staking LP tokens and unstaking them once the lock has run out gives the user back the LP
/// balance held before.
pub proof fn lemma_unstake_undoes_stake(
    v: LiquidityManagerView,
    user: AccountId,
    token: AccountId,
    amount: i128,
    lock_period: u64,
    staked_at: u64,
    unstaked_at: u64,
)
    requires
        v.wf(),
        v.stake_outcome(user, token, amount, lock_period, staked_at) is Ok,
        staked_at + lock_period <= unstaked_at,
    ensures
        v.stake_outcome(user, token, amount, lock_period, staked_at)->Ok_0.unstake_outcome(
            user,
            token,
            amount,
            unstaked_at,
        ) is Ok,
        v.stake_outcome(user, token, amount, lock_period, staked_at)->Ok_0.unstake_outcome(
            user,
            token,
            amount,
            unstaked_at,
        )->Ok_0.lp_balance(user, token) == v.lp_balance(user, token),
{
}

/// While the manager is paused, deposits, withdrawals, staking and unstaking fail with
/// `Paused`.
pub proof fn lemma_paused_manager_refuses(
    v: LiquidityManagerView,
    user: AccountId,
    token: AccountId,
    amount: i128,
    lock_period: u64,
    now: u64,
)
    requires
        v.paused,
    ensures
        v.deposit_outcome(user, token, amount) == Err::<(LiquidityManagerView, i128), Error>(Error::Paused),
        v.withdraw_outcome(user, token, amount) == Err::<(LiquidityManagerView, i128), Error>(Error::Paused),
        v.stake_outcome(user, token, amount, lock_period, now) == Err::<LiquidityManagerView, Error>(Error::Paused),
        v.unstake_outcome(user, token, amount, now) == Err::<LiquidityManagerView, Error>(Error::Paused),
{
}

/// Deposits and withdrawals keep every pool's LP supply equal to the LP tokens its holders
/// hold and have staked.
pub proof fn lemma_deposit_withdraw_keep_lp_supply(
    v: LiquidityManagerView,
    user: AccountId,
    token: AccountId,
    amount: i128,
)
    requires
        v.lp_supply_matches(),
    ensures
        v.deposit_outcome(user, token, amount) is Ok ==> v.deposit_outcome(
            user,
            token,
            amount,
        )->Ok_0.0.lp_supply_matches(),
        v.withdraw_outcome(user, token, amount) is Ok ==> v.withdraw_outcome(
            user,
            token,
            amount,
        )->Ok_0.0.lp_supply_matches(),
{
    let key = holder_key(user, token);
    lemma_key_token(user, token);
    if v.deposit_outcome(user, token, amount) is Ok {
        let after = v.deposit_outcome(user, token, amount)->Ok_0.0;
        assert forall|t: AccountId| #[trigger] after.supply_matches(t) by {
            lemma_map_total_insert(v.lp_balances, balance_weight(t), key, after.lp_balances[key]);
            assert(v.supply_matches(t));
        }
    }
    if v.withdraw_outcome(user, token, amount) is Ok {
        let after = v.withdraw_outcome(user, token, amount)->Ok_0.0;
        assert forall|t: AccountId| #[trigger] after.supply_matches(t) by {
            lemma_map_total_insert(v.lp_balances, balance_weight(t), key, after.lp_balances[key]);
            assert(v.supply_matches(t));
        }
    }
}

/// Staking and unstaking move LP tokens between a holder's balance and stake, so every pool's
/// LP supply stays equal to the LP tokens its holders hold and have staked.
pub proof fn lemma_stake_unstake_keep_lp_supply(
    v: LiquidityManagerView,
    user: AccountId,
    token: AccountId,
    amount: i128,
    lock_period: u64,
    now: u64,
)
    requires
        v.lp_supply_matches(),
    ensures
        v.stake_outcome(user, token, amount, lock_period, now) is Ok ==> v.stake_outcome(
            user,
            token,
            amount,
            lock_period,
            now,
        )->Ok_0.lp_supply_matches(),
        v.unstake_outcome(user, token, amount, now) is Ok ==> v.unstake_outcome(
            user,
            token,
            amount,
            now,
        )->Ok_0.lp_supply_matches(),
{
    let key = holder_key(user, token);
    lemma_key_token(user, token);
    if v.stake_outcome(user, token, amount, lock_period, now) is Ok {
        let after = v.stake_outcome(user, token, amount, lock_period, now)->Ok_0;
        assert forall|t: AccountId| #[trigger] after.supply_matches(t) by {
            lemma_map_total_insert(v.lp_balances, balance_weight(t), key, after.lp_balances[key]);
            lemma_map_total_insert(v.stakes, stake_weight(t), key, after.stakes[key]);
            assert(v.supply_matches(t));
        }
    }
    if v.unstake_outcome(user, token, amount, now) is Ok {
        let after = v.unstake_outcome(user, token, amount, now)->Ok_0;
        assert forall|t: AccountId| #[trigger] after.supply_matches(t) by {
            lemma_map_total_insert(v.lp_balances, balance_weight(t), key, after.lp_balances[key]);
            lemma_map_total_insert(v.stakes, stake_weight(t), key, after.stakes[key]);
            assert(v.supply_matches(t));
        }
    }
}

/// Initializing the manager, reserving, releasing and settling PnL leave every pool's LP supply
/// as it was, equal to the LP tokens its holders hold and have staked.
pub proof fn lemma_admin_operations_keep_lp_supply(
    v: LiquidityManagerView,
    admin: AccountId,
    token: AccountId,
    amount: i128,
    pnl: i128,
)
    requires
        v.lp_supply_matches(),
    ensures
        v.initialize_outcome(admin) is Ok ==> v.initialize_outcome(admin)->Ok_0.lp_supply_matches(),
        v.reserve_outcome(token, amount) is Ok ==> v.reserve_outcome(token, amount)->Ok_0.lp_supply_matches(),
        v.release_outcome(token, amount) is Ok ==> v.release_outcome(token, amount)->Ok_0.lp_supply_matches(),
        v.settle_outcome(token, pnl) is Ok ==> v.settle_outcome(token, pnl)->Ok_0.lp_supply_matches(),
{
    if v.initialize_outcome(admin) is Ok {
        let after = v.initialize_outcome(admin)->Ok_0;
        assert forall|t: AccountId| #[trigger] after.supply_matches(t) by {
            assert(v.supply_matches(t));
        }
    }
    if v.reserve_outcome(token, amount) is Ok {
        let after = v.reserve_outcome(token, amount)->Ok_0;
        assert forall|t: AccountId| #[trigger] after.supply_matches(t) by {
            assert(v.supply_matches(t));
        }
    }
    if v.release_outcome(token, amount) is Ok {
        let after = v.release_outcome(token, amount)->Ok_0;
        assert forall|t: AccountId| #[trigger] after.supply_matches(t) by {
            assert(v.supply_matches(t));
        }
    }
    if v.settle_outcome(token, pnl) is Ok {
        let after = v.settle_outcome(token, pnl)->Ok_0;
        assert forall|t: AccountId| #[trigger] after.supply_matches(t) by {
            assert(v.supply_matches(t));
        }
    }
}

/// Creating a pool keeps every pool's LP supply equal to the LP tokens its holders hold and
/// have staked, unless it replaces a pool that had LP tokens (whose holders then keep LP
/// tokens the new pool does not count).
pub proof fn lemma_create_pool_keeps_lp_supply(v: LiquidityManagerView, token: AccountId)
    requires
        v.lp_supply_matches(),
        v.pools.contains_key(token) ==> v.pools[token].total_lp_tokens == 0,
    ensures
        v.with_pool(token, empty_pool(token)).lp_supply_matches(),
{
    let after = v.with_pool(token, empty_pool(token));
    assert forall|t: AccountId| #[trigger] after.supply_matches(t) by {
        assert(v.supply_matches(t));
    }
}

/// Settling a trader's PnL moves exactly that amount between the trader and the pool: the
/// pool's total and available liquidity each drop by `pnl` (a trader profit is paid out of the
/// pool, a trader loss flows into it), while its reserved liquidity and LP supply stay as they
/// were; a profit therefore strictly shrinks the pool.
pub proof fn lemma_settle_moves_pnl_out_of_pool(v: LiquidityManagerView, token: AccountId, pnl: i128)
    requires
        v.settle_outcome(token, pnl) is Ok,
    ensures
        ({
            let before = v.pools[token];
            let after = v.settle_outcome(token, pnl)->Ok_0.pools[token];
            &&& v.pools.contains_key(token)
            &&& after.total_liquidity == before.total_liquidity - pnl
            &&& after.available_liquidity == before.available_liquidity - pnl
            &&& after.reserved_liquidity == before.reserved_liquidity
            &&& after.total_lp_tokens == before.total_lp_tokens
            &&& pnl > 0 ==> after.total_liquidity < before.total_liquidity
                && after.available_liquidity < before.available_liquidity
        }),
{
}

/// A successful stake at time `now` (re)starts the lock: the stake is stamped with `now` and the
/// given lock period, holds what was staked before plus `amount`, and the LP balance drops by
/// `amount`; so unstaking any part of it before `now + lock_period` is refused. A new stake
/// earns no rewards yet and gets the boost of its lock period (2x from 180 days, 1.5x from 90,
/// 1.2x from 30, 1x below); staking again keeps the boost and rewards already there.
pub proof fn lemma_stake_restarts_lock(
    v: LiquidityManagerView,
    user: AccountId,
    token: AccountId,
    amount: i128,
    lock_period: u64,
    now: u64,
    unstaked: i128,
    later: u64,
)
    requires
        v.stake_outcome(user, token, amount, lock_period, now) is Ok,
    ensures
        ({
            let key = holder_key(user, token);
            let after = v.stake_outcome(user, token, amount, lock_period, now)->Ok_0;
            let staked_before = if v.stakes.contains_key(key) { v.stakes[key].staked_amount as int } else { 0 };
            &&& after.stakes.contains_key(key)
            &&& after.stakes[key].stake_timestamp == now
            &&& after.stakes[key].lock_period == lock_period
            &&& after.stakes[key].staked_amount == staked_before + amount
            &&& after.lp_balance(user, token) == v.lp_balance(user, token) - amount
            &&& v.stakes.contains_key(key) ==> after.stakes[key].boost_multiplier == v.stakes[key].boost_multiplier
                && after.stakes[key].rewards_earned == v.stakes[key].rewards_earned
            &&& !v.stakes.contains_key(key) ==> after.stakes[key].rewards_earned == 0 && after.stakes[key].boost_multiplier
                == (if lock_period >= 180 * 86400 {
                20000u32
            } else if lock_period >= 90 * 86400 {
                15000u32
            } else if lock_period >= 30 * 86400 {
                12000u32
            } else {
                10000u32
            })
            &&& (0 < unstaked <= after.stakes[key].staked_amount && later < now + lock_period) ==> after.unstake_outcome(
                user,
                token,
                unstaked,
                later,
            ) == Err::<LiquidityManagerView, Error>(Error::Unauthorized)
        }),
{
}

} // verus!

//! A single-token liquidity vault: deposits mint LP tokens, withdrawals burn them, and an admin
//! reserves part of the available liquidity for trading. Deposit and withdrawal fees stay in
//! the vault and are tracked in `accumulated_fees`.
use std::collections::HashMap;
use vstd::prelude::*;

use crate::errors::Error;
use crate::math::{
    calculate_fee, calculate_lp_tokens, calculate_withdrawal_amount, checked_mul_div, checked_value, fee_for,
    lp_tokens_for, withdrawal_for,
};
use crate::pool::{
    empty_pool, new_pool, pool_release, pool_reserve, pool_wf, pool_with, recompute_pool,
    release_in_pool, reserve_in_pool,
};
use crate::totals::{lemma_map_total_empty, lemma_map_total_insert, map_total};
use crate::types::{AccountId, PoolInfo};
use crate::validation::validate_positive_amount;

verus! {

broadcast use vstd::std_specs::hash::group_hash_axioms;

/// The largest deposit or withdrawal fee that `initialize` accepts (10%).
pub const MAX_VAULT_FEE_BPS: u32 = 1000;

/// The LP token price reported for an empty vault: one unit of liquidity per LP token.
pub const INITIAL_LP_PRICE: i128 = 10_000_000;

/// What an LP balance counts towards the LP tokens held: its amount.
pub open spec fn balance_weight() -> spec_fn(AccountId, i128) -> int {
    |holder: AccountId, balance: i128| balance as int
}

/// The LP tokens held, summed over all holders.
pub open spec fn lp_held(balances: Map<AccountId, i128>) -> int {
    map_total(balances, balance_weight())
}

/// The state of the vault contract.
pub struct Vault {
    pub initialized: bool,
    pub admin: AccountId,
    pub paused: bool,
    pub token: AccountId,
    pub deposit_fee_bps: u32,
    pub withdraw_fee_bps: u32,
    pub pool: PoolInfo,
    pub lp_balances: HashMap<AccountId, i128>,
}

/// The vault's state as mathematical values.
pub struct VaultView {
    pub initialized: bool,
    pub admin: AccountId,
    pub paused: bool,
    pub token: AccountId,
    pub deposit_fee_bps: u32,
    pub withdraw_fee_bps: u32,
    pub pool: PoolInfo,
    pub lp_balances: Map<AccountId, i128>,
}

impl View for Vault {
    type V = VaultView;

    open spec fn view(&self) -> VaultView {
        VaultView {
            initialized: self.initialized,
            admin: self.admin,
            paused: self.paused,
            token: self.token,
            deposit_fee_bps: self.deposit_fee_bps,
            withdraw_fee_bps: self.withdraw_fee_bps,
            pool: self.pool,
            lp_balances: self.lp_balances@,
        }
    }
}

impl VaultView {
    /// The LP token balance of `user` (zero when none is recorded).
    pub open spec fn lp_balance(self, user: AccountId) -> i128 {
        if self.lp_balances.contains_key(user) {
            self.lp_balances[user]
        } else {
            0
        }
    }

    /// Every function but the setup ones fails on a vault that was never initialized.
    pub open spec fn initialized_check(self) -> Result<(), Error> {
        if !self.initialized {
            Err(Error::NotInitialized)
        } else {
            Ok(())
        }
    }

    /// Deposits and withdrawals need an initialized vault that is not paused.
    pub open spec fn active_check(self) -> Result<(), Error> {
        if !self.initialized {
            Err(Error::NotInitialized)
        } else if self.paused {
            Err(Error::Paused)
        } else {
            Ok(())
        }
    }

    /// The same state with the pause flag set to `paused`.
    pub open spec fn with_paused(self, paused: bool) -> VaultView {
        VaultView { paused, ..self }
    }

    /// The same state with `admin` as the admin.
    pub open spec fn with_admin(self, admin: AccountId) -> VaultView {
        VaultView { admin, ..self }
    }

    /// The outcome of `Vault::initialize`.
    pub open spec fn initialize_outcome(
        self,
        admin: AccountId,
        token: AccountId,
        deposit_fee_bps: u32,
        withdraw_fee_bps: u32,
    ) -> Result<VaultView, Error> {
        if self.initialized {
            Err(Error::AlreadyInitialized)
        } else if deposit_fee_bps > MAX_VAULT_FEE_BPS || withdraw_fee_bps > MAX_VAULT_FEE_BPS {
            Err(Error::InvalidParameter)
        } else {
            Ok(
                VaultView {
                    initialized: true,
                    admin,
                    paused: false,
                    token,
                    deposit_fee_bps,
                    withdraw_fee_bps,
                    pool: empty_pool(token),
                    ..self
                },
            )
        }
    }

    /// The outcome of `Vault::deposit`: the new state and the LP tokens minted.
    pub open spec fn deposit_outcome(self, user: AccountId, amount: i128) -> Result<(VaultView, i128), Error> {
        if self.active_check() is Err {
            Err(self.active_check()->Err_0)
        } else if amount <= 0 {
            Err(Error::InvalidAmount)
        } else {
            match fee_for(amount, self.deposit_fee_bps) {
                Err(e) => Err(e),
                Ok(fee) => if !(checked_value(amount - fee) is Ok) {
                    Err(Error::Overflow)
                } else {
                    let net = amount - fee;
                    let pool = self.pool;
                    match lp_tokens_for(net, pool.total_liquidity as int, pool.total_lp_tokens as int) {
                        Err(e) => Err(e),
                        Ok(minted) => match pool_with(
                            pool,
                            pool.total_liquidity + net,
                            pool.available_liquidity + net,
                            pool.reserved_liquidity as int,
                            pool.total_lp_tokens + minted,
                            pool.accumulated_fees + fee,
                        ) {
                            Err(e) => Err(e),
                            Ok(new_pool) => if !(checked_value(self.lp_balance(user) + minted) is Ok) {
                                Err(Error::Overflow)
                            } else {
                                Ok(
                                    (
                                        VaultView {
                                            pool: new_pool,
                                            lp_balances: self.lp_balances.insert(
                                                user,
                                                (self.lp_balance(user) + minted) as i128,
                                            ),
                                            ..self
                                        },
                                        minted,
                                    ),
                                )
                            },
                        },
                    }
                },
            }
        }
    }

    /// The outcome of `Vault::withdraw`: the new state and the amount paid out after the fee.
    pub open spec fn withdraw_outcome(self, user: AccountId, lp_tokens: i128) -> Result<(VaultView, i128), Error> {
        if self.active_check() is Err {
            Err(self.active_check()->Err_0)
        } else if lp_tokens <= 0 {
            Err(Error::InvalidAmount)
        } else if self.lp_balance(user) < lp_tokens {
            Err(Error::InsufficientBalance)
        } else {
            let pool = self.pool;
            match withdrawal_for(lp_tokens as int, pool.total_liquidity as int, pool.total_lp_tokens as int) {
                Err(e) => Err(e),
                Ok(gross) => if pool.available_liquidity < gross {
                    Err(Error::InsufficientLiquidity)
                } else {
                    match fee_for(gross, self.withdraw_fee_bps) {
                        Err(e) => Err(e),
                        Ok(fee) => if !(checked_value(gross - fee) is Ok) {
                            Err(Error::Overflow)
                        } else {
                            match pool_with(
                                pool,
                                pool.total_liquidity - gross,
                                pool.available_liquidity - gross,
                                pool.reserved_liquidity as int,
                                pool.total_lp_tokens - lp_tokens,
                                pool.accumulated_fees + fee,
                            ) {
                                Err(e) => Err(e),
                                Ok(new_pool) => Ok(
                                    (
                                        VaultView {
                                            pool: new_pool,
                                            lp_balances: self.lp_balances.insert(
                                                user,
                                                (self.lp_balance(user) - lp_tokens) as i128,
                                            ),
                                            ..self
                                        },
                                        (gross - fee) as i128,
                                    ),
                                ),
                            }
                        },
                    }
                },
            }
        }
    }

    /// The outcome of `Vault::reserve_liquidity`.
    pub open spec fn reserve_outcome(self, amount: i128) -> Result<VaultView, Error> {
        if self.initialized_check() is Err {
            Err(self.initialized_check()->Err_0)
        } else if amount <= 0 {
            Err(Error::InvalidAmount)
        } else {
            match pool_reserve(self.pool, amount) {
                Err(e) => Err(e),
                Ok(new_pool) => Ok(VaultView { pool: new_pool, ..self }),
            }
        }
    }

    /// The outcome of `Vault::release_liquidity`.
    pub open spec fn release_outcome(self, amount: i128) -> Result<VaultView, Error> {
        if self.initialized_check() is Err {
            Err(self.initialized_check()->Err_0)
        } else if amount <= 0 {
            Err(Error::InvalidAmount)
        } else {
            match pool_release(self.pool, amount) {
                Err(e) => Err(e),
                Ok(new_pool) => Ok(VaultView { pool: new_pool, ..self }),
            }
        }
    }

    /// The LP token price: liquidity per LP token scaled by `PRECISION`.
    pub open spec fn lp_price(self) -> Result<i128, Error> {
        if self.initialized_check() is Err {
            Err(self.initialized_check()->Err_0)
        } else if self.pool.total_lp_tokens == 0 {
            Ok(INITIAL_LP_PRICE)
        } else {
            checked_mul_div(
                self.pool.total_liquidity as int,
                INITIAL_LP_PRICE as int,
                self.pool.total_lp_tokens as int,
            )
        }
    }

    /// The well-formedness of a vault: its pool is consistent, its fees are within bounds, and
    /// its LP token supply is what the holders hold (none before initialization).
    pub open spec fn wf(self) -> bool {
        &&& pool_wf(self.pool)
        &&& self.deposit_fee_bps <= MAX_VAULT_FEE_BPS
        &&& self.withdraw_fee_bps <= MAX_VAULT_FEE_BPS
        &&& self.lp_balances.dom().finite()
        &&& lp_held(self.lp_balances) == self.pool.total_lp_tokens
        &&& !self.initialized ==> self.pool.total_lp_tokens == 0
    }
}

impl Vault {
    /// A vault contract that holds no state yet.
    pub fn new() -> (v: Vault)
        ensures
            !v@.initialized,
            !v@.paused,
            v@.lp_balances == Map::<AccountId, i128>::empty(),
            v@.wf(),
    {
        let v = Vault {
            initialized: false,
            admin: 0,
            paused: false,
            token: 0,
            deposit_fee_bps: 0,
            withdraw_fee_bps: 0,
            pool: new_pool(0),
            lp_balances: HashMap::new(),
        };
        proof {
            lemma_map_total_empty(balance_weight());
        }
        v
    }

    /// Fail with `NotInitialized` unless the vault was initialized.
    pub fn require_initialized(&self) -> (r: Result<(), Error>)
        ensures
            r == self@.initialized_check(),
    {
        if !self.initialized {
            return Err(Error::NotInitialized);
        }
        Ok(())
    }

    /// Check that the vault was initialized and return the admin, whose authorization the
    /// admin-only functions then demand.
    pub fn require_admin(&self) -> (r: Result<AccountId, Error>)
        ensures
            r == (if self@.initialized {
                Ok::<AccountId, Error>(self@.admin)
            } else {
                Err(Error::NotInitialized)
            }),
    {
        self.require_initialized()?;
        Ok(self.admin)
    }

    /// Fail unless the vault is initialized and not paused.
    pub fn require_not_paused(&self) -> (r: Result<(), Error>)
        ensures
            r == self@.active_check(),
    {
        self.require_initialized()?;
        if self.paused {
            return Err(Error::Paused);
        }
        Ok(())
    }

    /// Initialize the vault with its admin, its token and its fees (each at most 10%).
    pub fn initialize(
        &mut self,
        admin: AccountId,
        token: AccountId,
        deposit_fee_bps: u32,
        withdraw_fee_bps: u32,
    ) -> (r: Result<(), Error>)
        ensures
            match old(self)@.initialize_outcome(admin, token, deposit_fee_bps, withdraw_fee_bps) {
                Ok(v) => r == Ok::<(), Error>(()) && final(self)@ == v,
                Err(e) => r == Err::<(), Error>(e) && final(self)@ == old(self)@,
            },
    {
        if self.initialized {
            return Err(Error::AlreadyInitialized);
        }
        if deposit_fee_bps > MAX_VAULT_FEE_BPS || withdraw_fee_bps > MAX_VAULT_FEE_BPS {
            return Err(Error::InvalidParameter);
        }
        self.admin = admin;
        self.token = token;
        self.deposit_fee_bps = deposit_fee_bps;
        self.withdraw_fee_bps = withdraw_fee_bps;
        self.initialized = true;
        self.paused = false;
        self.pool = new_pool(token);
        Ok(())
    }

    /// The LP token balance of `user`.
    pub fn get_lp_balance(&self, user: AccountId) -> (r: i128)
        ensures
            r == self@.lp_balance(user),
    {
        match self.lp_balances.get(&user) {
            Some(b) => *b,
            None => 0,
        }
    }

    /// Deposit `amount` tokens of `user` and mint LP tokens for the amount net of the deposit
    /// fee. Returns the LP tokens minted; the caller moves `amount` tokens from `user` to the
    /// vault.
    pub fn deposit(&mut self, user: AccountId, amount: i128) -> (r: Result<i128, Error>)
        ensures
            match old(self)@.deposit_outcome(user, amount) {
                Ok((v, minted)) => r == Ok::<i128, Error>(minted) && final(self)@ == v,
                Err(e) => r == Err::<i128, Error>(e) && final(self)@ == old(self)@,
            },
    {
        self.require_not_paused()?;
        validate_positive_amount(amount)?;
        let fee = calculate_fee(amount, self.deposit_fee_bps)?;
        let net_amount = match amount.checked_sub(fee) {
            Some(v) => v,
            None => return Err(Error::Overflow),
        };
        let minted = calculate_lp_tokens(net_amount, self.pool.total_liquidity, self.pool.total_lp_tokens)?;
        let new_pool = recompute_pool(
            &self.pool,
            self.pool.total_liquidity.checked_add(net_amount),
            self.pool.available_liquidity.checked_add(net_amount),
            Some(self.pool.reserved_liquidity),
            self.pool.total_lp_tokens.checked_add(minted),
            self.pool.accumulated_fees.checked_add(fee),
        )?;
        let balance = match self.get_lp_balance(user).checked_add(minted) {
            Some(b) => b,
            None => return Err(Error::Overflow),
        };
        self.pool = new_pool;
        self.lp_balances.insert(user, balance);
        Ok(minted)
    }

    /// Burn `lp_tokens` of `user` and pay out their share of the liquidity net of the
    /// withdrawal fee. Returns the amount that the caller moves from the vault to `user`.
    pub fn withdraw(&mut self, user: AccountId, lp_tokens: i128) -> (r: Result<i128, Error>)
        ensures
            match old(self)@.withdraw_outcome(user, lp_tokens) {
                Ok((v, paid)) => r == Ok::<i128, Error>(paid) && final(self)@ == v,
                Err(e) => r == Err::<i128, Error>(e) && final(self)@ == old(self)@,
            },
    {
        self.require_not_paused()?;
        validate_positive_amount(lp_tokens)?;
        let user_balance = self.get_lp_balance(user);
        if user_balance < lp_tokens {
            return Err(Error::InsufficientBalance);
        }
        let gross = calculate_withdrawal_amount(lp_tokens, self.pool.total_liquidity, self.pool.total_lp_tokens)?;
        if self.pool.available_liquidity < gross {
            return Err(Error::InsufficientLiquidity);
        }
        let fee = calculate_fee(gross, self.withdraw_fee_bps)?;
        let net = match gross.checked_sub(fee) {
            Some(v) => v,
            None => return Err(Error::Overflow),
        };
        let new_pool = recompute_pool(
            &self.pool,
            self.pool.total_liquidity.checked_sub(gross),
            self.pool.available_liquidity.checked_sub(gross),
            Some(self.pool.reserved_liquidity),
            self.pool.total_lp_tokens.checked_sub(lp_tokens),
            self.pool.accumulated_fees.checked_add(fee),
        )?;
        self.pool = new_pool;
        self.lp_balances.insert(user, user_balance - lp_tokens);
        Ok(net)
    }

    /// Move `amount` of the available liquidity to the reserved part (admin only).
    pub fn reserve_liquidity(&mut self, amount: i128) -> (r: Result<(), Error>)
        ensures
            match old(self)@.reserve_outcome(amount) {
                Ok(v) => r == Ok::<(), Error>(()) && final(self)@ == v,
                Err(e) => r == Err::<(), Error>(e) && final(self)@ == old(self)@,
            },
    {
        self.require_admin()?;
        validate_positive_amount(amount)?;
        let new_pool = reserve_in_pool(&self.pool, amount)?;
        self.pool = new_pool;
        Ok(())
    }

    /// Move `amount` of the reserved liquidity back to the available part (admin only).
    pub fn release_liquidity(&mut self, amount: i128) -> (r: Result<(), Error>)
        ensures
            match old(self)@.release_outcome(amount) {
                Ok(v) => r == Ok::<(), Error>(()) && final(self)@ == v,
                Err(e) => r == Err::<(), Error>(e) && final(self)@ == old(self)@,
            },
    {
        self.require_admin()?;
        validate_positive_amount(amount)?;
        let new_pool = release_in_pool(&self.pool, amount)?;
        self.pool = new_pool;
        Ok(())
    }

    /// The pool's state.
    pub fn get_pool_info(&self) -> (r: Result<PoolInfo, Error>)
        ensures
            r == (if self@.initialized {
                Ok::<PoolInfo, Error>(self@.pool)
            } else {
                Err(Error::NotInitialized)
            }),
    {
        self.require_initialized()?;
        Ok(self.pool)
    }

    /// The LP token price (liquidity per LP token, 7 decimals).
    pub fn get_lp_price(&self) -> (r: Result<i128, Error>)
        ensures
            r == self@.lp_price(),
    {
        self.require_initialized()?;
        if self.pool.total_lp_tokens == 0 {
            return Ok(INITIAL_LP_PRICE);
        }
        match self.pool.total_liquidity.checked_mul(INITIAL_LP_PRICE) {
            Some(p) => match p.checked_div(self.pool.total_lp_tokens) {
                Some(v) => Ok(v),
                None => Err(Error::Overflow),
            },
            None => Err(Error::Overflow),
        }
    }

    /// Pause deposits and withdrawals (admin only).
    pub fn pause(&mut self) -> (r: Result<(), Error>)
        ensures
            r == old(self)@.initialized_check(),
            final(self)@ == (if old(self)@.initialized {
                old(self)@.with_paused(true)
            } else {
                old(self)@
            }),
    {
        self.require_admin()?;
        self.paused = true;
        Ok(())
    }

    /// Resume deposits and withdrawals (admin only).
    pub fn unpause(&mut self) -> (r: Result<(), Error>)
        ensures
            r == old(self)@.initialized_check(),
            final(self)@ == (if old(self)@.initialized {
                old(self)@.with_paused(false)
            } else {
                old(self)@
            }),
    {
        self.require_admin()?;
        self.paused = false;
        Ok(())
    }

    /// Whether the vault is paused.
    pub fn is_paused(&self) -> (r: bool)
        ensures
            r == self@.paused,
    {
        self.paused
    }

    /// The admin of the vault.
    pub fn get_admin(&self) -> (r: Result<AccountId, Error>)
        ensures
            r == (if self@.initialized {
                Ok::<AccountId, Error>(self@.admin)
            } else {
                Err(Error::NotInitialized)
            }),
    {
        self.require_initialized()?;
        Ok(self.admin)
    }

    /// Transfer the admin role to `new_admin` (admin only; the new admin authorizes too).
    pub fn set_admin(&mut self, new_admin: AccountId) -> (r: Result<(), Error>)
        ensures
            r == old(self)@.initialized_check(),
            final(self)@ == (if old(self)@.initialized {
                old(self)@.with_admin(new_admin)
            } else {
                old(self)@
            }),
    {
        self.require_admin()?;
        self.admin = new_admin;
        Ok(())
    }
}

/// Initializing a vault leaves it well formed.
pub proof fn lemma_vault_initialize_wf(
    v: VaultView,
    admin: AccountId,
    token: AccountId,
    deposit_fee_bps: u32,
    withdraw_fee_bps: u32,
)
    requires
        v.wf(),
        v.initialize_outcome(admin, token, deposit_fee_bps, withdraw_fee_bps) is Ok,
    ensures
        v.initialize_outcome(admin, token, deposit_fee_bps, withdraw_fee_bps)->Ok_0.wf(),
{
}

/// Deposits keep a vault well formed.
pub proof fn lemma_vault_deposit_keeps_wf(v: VaultView, user: AccountId, amount: i128)
    requires
        v.wf(),
        v.deposit_outcome(user, amount) is Ok,
    ensures
        v.deposit_outcome(user, amount)->Ok_0.0.wf(),
{
    crate::math::lemma_fee_bounded(amount, v.deposit_fee_bps);
    let (after, minted) = v.deposit_outcome(user, amount)->Ok_0;
    lemma_map_total_insert(v.lp_balances, balance_weight(), user, after.lp_balances[user]);
}

/// Withdrawals keep a vault well formed.
pub proof fn lemma_vault_withdraw_keeps_wf(v: VaultView, user: AccountId, lp_tokens: i128)
    requires
        v.wf(),
        v.withdraw_outcome(user, lp_tokens) is Ok,
    ensures
        v.withdraw_outcome(user, lp_tokens)->Ok_0.0.wf(),
{
    let after = v.withdraw_outcome(user, lp_tokens)->Ok_0.0;
    lemma_map_total_insert(v.lp_balances, balance_weight(), user, after.lp_balances[user]);
}

/// Reserving and releasing liquidity keep a vault well formed.
pub proof fn lemma_vault_reserve_release_keep_wf(v: VaultView, amount: i128)
    requires
        v.wf(),
    ensures
        v.reserve_outcome(amount) is Ok ==> v.reserve_outcome(amount)->Ok_0.wf(),
        v.release_outcome(amount) is Ok ==> v.release_outcome(amount)->Ok_0.wf(),
{
    if amount > 0 {
        crate::pool::lemma_reserve_release_keep_wf(v.pool, amount);
    }
}

/// Releasing the liquidity just reserved gives back the vault as it was.
pub proof fn lemma_vault_release_undoes_reserve(v: VaultView, amount: i128)
    requires
        v.wf(),
        v.reserve_outcome(amount) is Ok,
    ensures
        v.reserve_outcome(amount)->Ok_0.release_outcome(amount) == Ok::<VaultView, Error>(v),
{
    crate::pool::lemma_release_undoes_reserve(v.pool, amount);
}

/// A deposit followed by the withdrawal of the LP tokens it minted gives the user back the LP
/// balance held before, and pays out no more than was deposited; this holds unless the vault
/// holds liquidity without LP tokens.
pub proof fn lemma_vault_round_trip_never_gains(v: VaultView, user: AccountId, amount: i128)
    requires
        v.wf(),
        v.pool.total_lp_tokens >= 0,
        !(v.pool.total_lp_tokens == 0 && v.pool.total_liquidity > 0),
        v.deposit_outcome(user, amount) is Ok,
        v.deposit_outcome(user, amount)->Ok_0.0.withdraw_outcome(
            user,
            v.deposit_outcome(user, amount)->Ok_0.1,
        ) is Ok,
    ensures
        ({
            let (after_deposit, minted) = v.deposit_outcome(user, amount)->Ok_0;
            let (after_withdraw, paid) = after_deposit.withdraw_outcome(user, minted)->Ok_0;
            &&& after_withdraw.lp_balance(user) == v.lp_balance(user)
            &&& paid <= amount
        }),
{
    let fee = fee_for(amount, v.deposit_fee_bps)->Ok_0;
    crate::math::lemma_fee_bounded(amount, v.deposit_fee_bps);
    let net = amount - fee;
    let (after_deposit, minted) = v.deposit_outcome(user, amount)->Ok_0;
    let gross = withdrawal_for(
        minted as int,
        after_deposit.pool.total_liquidity as int,
        after_deposit.pool.total_lp_tokens as int,
    )->Ok_0;
    crate::math::lemma_mint_then_redeem_never_gains(
        net,
        v.pool.total_liquidity as int,
        v.pool.total_lp_tokens as int,
    );
    crate::math::lemma_fee_bounded(gross, after_deposit.withdraw_fee_bps);
}

/// While an initialized vault is paused, deposits and withdrawals fail with `Paused`.
pub proof fn lemma_paused_vault_refuses(v: VaultView, user: AccountId, amount: i128)
    requires
        v.initialized,
        v.paused,
    ensures
        v.deposit_outcome(user, amount) == Err::<(VaultView, i128), Error>(Error::Paused),
        v.withdraw_outcome(user, amount) == Err::<(VaultView, i128), Error>(Error::Paused),
{
}

} // verus!

//! The risk manager: per-asset risk parameters, position risk assessment, liquidation threshold
//! checks and margin requirements.
use std::collections::HashMap;
use vstd::prelude::*;

use crate::constants::{BASIS_POINTS, MAX_LEVERAGE, MIN_COLLATERAL};
use crate::errors::Error;
use crate::math::{checked_mul_div, checked_value, div_trunc, liquidation_due, should_liquidate};
use crate::types::{AccountId, AssetClass, AssetId, PortfolioRisk, RiskParameters};
use crate::validation::{validate_collateral, validate_leverage};

verus! {

broadcast use vstd::std_specs::hash::group_hash_axioms;

/// The state of the risk manager contract.
pub struct RiskManager {
    pub initialized: bool,
    pub admin: AccountId,
    pub paused: bool,
    pub risk_params: HashMap<AssetId, RiskParameters>,
}

/// The risk manager's state as mathematical values.
pub struct RiskManagerView {
    pub initialized: bool,
    pub admin: AccountId,
    pub paused: bool,
    pub risk_params: Map<AssetId, RiskParameters>,
}

impl View for RiskManager {
    type V = RiskManagerView;

    open spec fn view(&self) -> RiskManagerView {
        RiskManagerView {
            initialized: self.initialized,
            admin: self.admin,
            paused: self.paused,
            risk_params: self.risk_params@,
        }
    }
}

/// `amount * ratio_bps / BASIS_POINTS` with checked arithmetic.
pub open spec fn bps_of(amount: i128, ratio_bps: u32) -> Result<i128, Error> {
    checked_mul_div(amount as int, ratio_bps as int, BASIS_POINTS as int)
}

/// The risk score in basis points: the share of the collateral used as margin, or 10000 when
/// no margin is left.
pub open spec fn risk_score_for(margin_used: int, margin_available: int, collateral: int) -> u32 {
    if margin_available == 0 {
        10000
    } else {
        div_trunc(margin_used * 10000, collateral) as u32
    }
}

/// The leverage allowed under `volatility_bps`: the maximum leverage scaled down by the
/// volatility, rounded down, and at least 1.
pub open spec fn max_leverage_for(max_leverage: u32, volatility_bps: u32) -> u32 {
    if volatility_bps >= BASIS_POINTS {
        1
    } else {
        let adjusted = max_leverage * (BASIS_POINTS - volatility_bps) / (BASIS_POINTS as int);
        if adjusted == 0 {
            1
        } else {
            adjusted as u32
        }
    }
}

impl RiskManagerView {
    /// The admin-only functions fail on a manager that was never initialized.
    pub open spec fn initialized_check(self) -> Result<(), Error> {
        if !self.initialized {
            Err(Error::NotInitialized)
        } else {
            Ok(())
        }
    }

    /// The risk parameters of `asset`, or `InvalidParameter` when none were set.
    pub open spec fn params_of(self, asset: AssetId) -> Result<RiskParameters, Error> {
        if self.risk_params.contains_key(asset) {
            Ok(self.risk_params[asset])
        } else {
            Err(Error::InvalidParameter)
        }
    }

    /// The same state with the pause flag set to `paused`.
    pub open spec fn with_paused(self, paused: bool) -> RiskManagerView {
        RiskManagerView { paused, ..self }
    }

    /// The outcome of `RiskManager::initialize`.
    pub open spec fn initialize_outcome(self, admin: AccountId) -> Result<RiskManagerView, Error> {
        if self.initialized {
            Err(Error::AlreadyInitialized)
        } else {
            Ok(RiskManagerView { initialized: true, admin, paused: false, ..self })
        }
    }

    /// The outcome of `RiskManager::update_risk_parameters` with `params` (whose asset is the
    /// key it is stored under).
    pub open spec fn update_outcome(self, params: RiskParameters) -> Result<RiskManagerView, Error> {
        if !self.initialized {
            Err(Error::NotInitialized)
        } else if params.min_margin_ratio > BASIS_POINTS || params.maintenance_margin_ratio > BASIS_POINTS {
            Err(Error::InvalidParameter)
        } else if params.max_leverage > MAX_LEVERAGE {
            Err(Error::InvalidLeverage)
        } else {
            Ok(RiskManagerView { risk_params: self.risk_params.insert(params.asset, params), ..self })
        }
    }

    /// The outcome of `RiskManager::assess_position_risk`.
    pub open spec fn assessment(
        self,
        user: AccountId,
        asset: AssetId,
        position_size: i128,
        collateral: i128,
        leverage: u32,
    ) -> Result<PortfolioRisk, Error> {
        if self.paused {
            Err(Error::Paused)
        } else if self.params_of(asset) is Err {
            Err(Error::InvalidParameter)
        } else {
            let params = self.risk_params[asset];
            if collateral < MIN_COLLATERAL {
                Err(Error::InsufficientCollateral)
            } else if leverage == 0 || leverage > params.max_leverage {
                Err(Error::InvalidLeverage)
            } else if position_size > params.max_position_size {
                Err(Error::PositionTooLarge)
            } else {
                match bps_of(position_size, params.min_margin_ratio) {
                    Err(e) => Err(e),
                    Ok(margin_used) => if collateral < margin_used {
                        Err(Error::InsufficientMargin)
                    } else if !(checked_value(collateral - margin_used) is Ok) {
                        Err(Error::Overflow)
                    } else {
                        let margin_available = (collateral - margin_used) as i128;
                        Ok(
                            PortfolioRisk {
                                user,
                                total_exposure: position_size,
                                margin_used,
                                margin_available,
                                risk_score: risk_score_for(
                                    margin_used as int,
                                    margin_available as int,
                                    collateral as int,
                                ),
                                liquidation_distance: margin_available,
                            },
                        )
                    },
                }
            }
        }
    }

    /// The outcome of `RiskManager::check_liquidation_threshold`.
    pub open spec fn liquidation_check(
        self,
        asset: AssetId,
        collateral: i128,
        unrealized_pnl: i128,
        funding_accumulated: i128,
        position_size: i128,
    ) -> Result<bool, Error> {
        if self.paused {
            Err(Error::Paused)
        } else if self.params_of(asset) is Err {
            Err(Error::InvalidParameter)
        } else {
            match bps_of(position_size, self.risk_params[asset].maintenance_margin_ratio) {
                Err(e) => Err(e),
                Ok(maintenance_margin) => Ok(
                    liquidation_due(
                        collateral as int,
                        unrealized_pnl as int,
                        funding_accumulated as int,
                        maintenance_margin as int,
                    ),
                ),
            }
        }
    }

    /// Computing a margin requirement panics (adding the volatility to `BASIS_POINTS` in `u32`)
    /// when that sum does not fit and the computation gets that far.
    pub open spec fn margin_requirement_panics(self, asset: AssetId, position_size: i128, volatility_bps: u32) -> bool {
        &&& !self.paused
        &&& self.risk_params.contains_key(asset)
        &&& bps_of(position_size, self.risk_params[asset].min_margin_ratio) is Ok
        &&& BASIS_POINTS + volatility_bps > u32::MAX
    }

    /// The outcome of `RiskManager::calculate_margin_requirement`: the base margin raised by
    /// the volatility.
    pub open spec fn margin_requirement(self, asset: AssetId, position_size: i128, volatility_bps: u32) -> Result<
        i128,
        Error,
    > {
        if self.paused {
            Err(Error::Paused)
        } else if self.params_of(asset) is Err {
            Err(Error::InvalidParameter)
        } else {
            match bps_of(position_size, self.risk_params[asset].min_margin_ratio) {
                Err(e) => Err(e),
                Ok(base_margin) => checked_mul_div(
                    base_margin as int,
                    BASIS_POINTS + volatility_bps,
                    BASIS_POINTS as int,
                ),
            }
        }
    }
}

/// Multiplying a quotient rounded toward zero back by its divisor gives back no more than the
/// dividend in absolute value.
proof fn lemma_scaled_back_quotient_fits(x: int, d: int)
    requires
        d > 0,
    ensures
        x >= 0 ==> 0 <= div_trunc(x, d) * d <= x,
        x < 0 ==> x <= div_trunc(x, d) * d <= 0,
{
    if x >= 0 {
        assert(0 <= (x / d) * d <= x) by (nonlinear_arith)
            requires x >= 0, d > 0;
    } else {
        assert(0 <= ((-x) / d) * d <= -x) by (nonlinear_arith)
            requires x < 0, d > 0;
        assert(-((-x) / d) * d == -(((-x) / d) * d)) by (nonlinear_arith);
    }
}

fn margin_part(amount: i128, ratio_bps: u32) -> (r: Result<i128, Error>)
    ensures
        r == bps_of(amount, ratio_bps),
{
    match amount.checked_mul(ratio_bps as i128) {
        Some(p) => match p.checked_div(BASIS_POINTS as i128) {
            Some(v) => Ok(v),
            None => Err(Error::Overflow),
        },
        None => Err(Error::Overflow),
    }
}

impl RiskManager {
    /// A risk manager contract that holds no state yet.
    pub fn new() -> (m: RiskManager)
        ensures
            !m@.initialized,
            !m@.paused,
            m@.risk_params == Map::<AssetId, RiskParameters>::empty(),
    {
        RiskManager { initialized: false, admin: 0, paused: false, risk_params: HashMap::new() }
    }

    /// Check that the manager was initialized and return the admin, whose authorization the
    /// admin-only functions then demand.
    pub fn require_admin(&self) -> (r: Result<AccountId, Error>)
        ensures
            r == (if self@.initialized {
                Ok::<AccountId, Error>(self@.admin)
            } else {
                Err(Error::NotInitialized)
            }),
    {
        if !self.initialized {
            return Err(Error::NotInitialized);
        }
        Ok(self.admin)
    }

    /// Fail with `Paused` while the manager is paused.
    pub fn require_not_paused(&self) -> (r: Result<(), Error>)
        ensures
            r == (if self@.paused {
                Err(Error::Paused)
            } else {
                Ok::<(), Error>(())
            }),
    {
        if self.paused {
            return Err(Error::Paused);
        }
        Ok(())
    }

    /// Initialize the manager with its admin.
    pub fn initialize(&mut self, admin: AccountId) -> (r: Result<(), Error>)
        ensures
            match old(self)@.initialize_outcome(admin) {
                Ok(v) => r == Ok::<(), Error>(()) && final(self)@ == v,
                Err(e) => r == Err::<(), Error>(e) && final(self)@ == old(self)@,
            },
    {
        if self.initialized {
            return Err(Error::AlreadyInitialized);
        }
        self.admin = admin;
        self.initialized = true;
        self.paused = false;
        Ok(())
    }

    /// Set the risk parameters of `asset` (admin only). Margin ratios are at most 100% and the
    /// maximum leverage at most `MAX_LEVERAGE`.
    pub fn update_risk_parameters(
        &mut self,
        asset: AssetId,
        asset_class: AssetClass,
        min_margin_ratio: u32,
        maintenance_margin_ratio: u32,
        liquidation_threshold: u32,
        max_leverage: u32,
        max_position_size: i128,
        max_open_interest: i128,
    ) -> (r: Result<(), Error>)
        ensures
            ({
                let params = RiskParameters {
                    asset,
                    asset_class,
                    min_margin_ratio,
                    maintenance_margin_ratio,
                    liquidation_threshold,
                    max_leverage,
                    max_position_size,
                    max_open_interest,
                };
                match old(self)@.update_outcome(params) {
                    Ok(v) => r == Ok::<(), Error>(()) && final(self)@ == v,
                    Err(e) => r == Err::<(), Error>(e) && final(self)@ == old(self)@,
                }
            }),
    {
        self.require_admin()?;
        if min_margin_ratio > BASIS_POINTS || maintenance_margin_ratio > BASIS_POINTS {
            return Err(Error::InvalidParameter);
        }
        if max_leverage > MAX_LEVERAGE {
            return Err(Error::InvalidLeverage);
        }
        let params = RiskParameters {
            asset,
            asset_class,
            min_margin_ratio,
            maintenance_margin_ratio,
            liquidation_threshold,
            max_leverage,
            max_position_size,
            max_open_interest,
        };
        self.risk_params.insert(asset, params);
        Ok(())
    }

    /// The risk parameters of `asset`.
    pub fn get_risk_parameters(&self, asset: AssetId) -> (r: Result<RiskParameters, Error>)
        ensures
            r == self@.params_of(asset),
    {
        match self.risk_params.get(&asset) {
            Some(p) => Ok(*p),
            None => Err(Error::InvalidParameter),
        }
    }

    /// Assess the risk of a position of `position_size` backed by `collateral` at `leverage`.
    pub fn assess_position_risk(
        &self,
        user: AccountId,
        asset: AssetId,
        position_size: i128,
        collateral: i128,
        leverage: u32,
    ) -> (r: Result<PortfolioRisk, Error>)
        ensures
            r == self@.assessment(user, asset, position_size, collateral, leverage),
    {
        self.require_not_paused()?;
        let params = self.get_risk_parameters(asset)?;
        validate_collateral(collateral)?;
        validate_leverage(leverage, params.max_leverage)?;
        if position_size > params.max_position_size {
            return Err(Error::PositionTooLarge);
        }
        let margin_used = margin_part(position_size, params.min_margin_ratio)?;
        if collateral < margin_used {
            return Err(Error::InsufficientMargin);
        }
        let margin_available = match collateral.checked_sub(margin_used) {
            Some(v) => v,
            None => return Err(Error::Overflow),
        };
        let risk_score = if margin_available == 0 {
            10000
        } else {
            proof {
                lemma_scaled_back_quotient_fits(position_size * params.min_margin_ratio, 10000);
            }
            let scaled = margin_used * 10000;
            match scaled.checked_div(collateral) {
                Some(v) => v as u32,
                None => 0,
            }
        };
        Ok(
            PortfolioRisk {
                user,
                total_exposure: position_size,
                margin_used,
                margin_available,
                risk_score,
                liquidation_distance: margin_available,
            },
        )
    }

    /// Check whether a position of `asset` must be liquidated under its maintenance margin.
    pub fn check_liquidation_threshold(
        &self,
        asset: AssetId,
        collateral: i128,
        unrealized_pnl: i128,
        funding_accumulated: i128,
        position_size: i128,
    ) -> (r: Result<bool, Error>)
        ensures
            r == self@.liquidation_check(asset, collateral, unrealized_pnl, funding_accumulated, position_size),
    {
        self.require_not_paused()?;
        let params = self.get_risk_parameters(asset)?;
        let maintenance_margin = margin_part(position_size, params.maintenance_margin_ratio)?;
        Ok(should_liquidate(collateral, unrealized_pnl, funding_accumulated, maintenance_margin))
    }

    /// Whether computing the margin requirement would overflow (adding the volatility to
    /// `BASIS_POINTS` in `u32`).
    pub fn calculate_margin_requirement_panics(&self, asset: AssetId, position_size: i128, volatility_bps: u32) -> (r:
        bool)
        ensures
            r == self@.margin_requirement_panics(asset, position_size, volatility_bps),
    {
        if self.paused {
            return false;
        }
        match self.risk_params.get(&asset) {
            Some(params) => margin_part(position_size, params.min_margin_ratio).is_ok() && volatility_bps
                > u32::MAX - BASIS_POINTS,
            None => false,
        }
    }

    /// The margin required for a position of `asset`: its minimum margin raised by
    /// `volatility_bps`.
    pub fn calculate_margin_requirement(&self, asset: AssetId, position_size: i128, volatility_bps: u32) -> (r:
        Result<i128, Error>)
        requires
            !self@.margin_requirement_panics(asset, position_size, volatility_bps),
        ensures
            r == self@.margin_requirement(asset, position_size, volatility_bps),
    {
        self.require_not_paused()?;
        let params = self.get_risk_parameters(asset)?;
        let base_margin = margin_part(position_size, params.min_margin_ratio)?;
        let volatility_multiplier = (BASIS_POINTS + volatility_bps) as i128;
        match base_margin.checked_mul(volatility_multiplier) {
            Some(p) => match p.checked_div(BASIS_POINTS as i128) {
                Some(v) => Ok(v),
                None => Err(Error::Overflow),
            },
            None => Err(Error::Overflow),
        }
    }

    /// The maximum leverage of `asset` under `volatility_bps`.
    pub fn get_max_leverage(&self, asset: AssetId, volatility_bps: u32) -> (r: Result<u32, Error>)
        ensures
            r == (match self@.params_of(asset) {
                Ok(params) => Ok(max_leverage_for(params.max_leverage, volatility_bps)),
                Err(e) => Err(e),
            }),
    {
        let params = self.get_risk_parameters(asset)?;
        if volatility_bps >= BASIS_POINTS {
            return Ok(1);
        }
        let scale = BASIS_POINTS - volatility_bps;
        proof {
            assert(params.max_leverage * scale <= u32::MAX * u32::MAX) by (nonlinear_arith)
                requires params.max_leverage <= u32::MAX, scale <= u32::MAX;
        }
        let adjusted = (params.max_leverage as u64 * scale as u64) / BASIS_POINTS as u64;
        Ok(if adjusted == 0 { 1 } else { adjusted as u32 })
    }

    /// Pause the assessments (admin only).
    pub fn pause(&mut self) -> (r: Result<(), Error>)
        ensures
            r == old(self)@.initialized_check(),
            final(self)@ == (if old(self)@.initialized {
                old(self)@.with_paused(true)
            } else {
                old(self)@
            }),
    {
        self.require_admin()?;
        self.paused = true;
        Ok(())
    }

    /// Resume the assessments (admin only).
    pub fn unpause(&mut self) -> (r: Result<(), Error>)
        ensures
            r == old(self)@.initialized_check(),
            final(self)@ == (if old(self)@.initialized {
                old(self)@.with_paused(false)
            } else {
                old(self)@
            }),
    {
        self.require_admin()?;
        self.paused = false;
        Ok(())
    }
}

/// A successful assessment splits the collateral into the margin used and a non-negative
/// margin available, which is also the distance to liquidation.
pub proof fn lemma_assessment_splits_collateral(
    v: RiskManagerView,
    user: AccountId,
    asset: AssetId,
    position_size: i128,
    collateral: i128,
    leverage: u32,
)
    requires
        v.assessment(user, asset, position_size, collateral, leverage) is Ok,
    ensures
        ({
            let risk = v.assessment(user, asset, position_size, collateral, leverage)->Ok_0;
            &&& risk.margin_available >= 0
            &&& risk.margin_used + risk.margin_available == collateral
            &&& risk.liquidation_distance == risk.margin_available
            &&& risk.total_exposure == position_size
            &&& risk.user == user
        }),
{
}

/// The volatility-adjusted leverage lies between 1 and the asset's maximum leverage.
pub proof fn lemma_max_leverage_bounded(max_leverage: u32, volatility_bps: u32)
    requires
        max_leverage >= 1,
    ensures
        1 <= max_leverage_for(max_leverage, volatility_bps) <= max_leverage,
{
    if volatility_bps < BASIS_POINTS {
        let scale = BASIS_POINTS - volatility_bps;
        assert(max_leverage * scale / 10000 <= max_leverage) by (nonlinear_arith)
            requires max_leverage >= 1, 0 < scale <= 10000;
    }
}

/// While the risk manager is paused, assessments, liquidation checks and margin requirements
/// fail with `Paused`.
pub proof fn lemma_paused_risk_manager_refuses(
    v: RiskManagerView,
    user: AccountId,
    asset: AssetId,
    position_size: i128,
    collateral: i128,
    leverage: u32,
    unrealized_pnl: i128,
    funding_accumulated: i128,
    volatility_bps: u32,
)
    requires
        v.paused,
    ensures
        v.assessment(user, asset, position_size, collateral, leverage) == Err::<PortfolioRisk, Error>(Error::Paused),
        v.liquidation_check(asset, collateral, unrealized_pnl, funding_accumulated, position_size) == Err::<
            bool,
            Error,
        >(Error::Paused),
        v.margin_requirement(asset, position_size, volatility_bps) == Err::<i128, Error>(Error::Paused),
{
}

/// A successful assessment scores the share of the collateral used as margin: with margin
/// left, the risk score is `margin_used * 10000 / collateral` rounded down (for a non-negative
/// position), so it grows with the margin used; with no margin left it is 10000. The margin
/// used is the asset's minimum margin ratio of the position size, rounded down.
pub proof fn lemma_risk_score_is_margin_share(
    v: RiskManagerView,
    user: AccountId,
    asset: AssetId,
    position_size: i128,
    collateral: i128,
    leverage: u32,
)
    requires
        v.assessment(user, asset, position_size, collateral, leverage) is Ok,
        position_size >= 0,
    ensures
        ({
            let risk = v.assessment(user, asset, position_size, collateral, leverage)->Ok_0;
            let ratio = v.risk_params[asset].min_margin_ratio;
            &&& collateral > 0
            &&& 0 <= risk.margin_used
            &&& risk.margin_used * 10000 <= position_size * ratio < (risk.margin_used + 1) * 10000
            &&& risk.margin_available == 0 ==> risk.risk_score == 10000
            &&& risk.margin_available != 0 ==> risk.risk_score * collateral <= risk.margin_used * 10000 < (
                risk.risk_score + 1) * collateral
        }),
{
    let risk = v.assessment(user, asset, position_size, collateral, leverage)->Ok_0;
    let ratio = v.risk_params[asset].min_margin_ratio;
    let product = position_size * ratio;
    assert(product >= 0) by (nonlinear_arith)
        requires
            position_size >= 0,
            product == position_size * ratio,
    ;
    lemma_floor_quotient(product, 10000);
    if risk.margin_available != 0 {
        let scaled = risk.margin_used * 10000;
        assert(0 <= scaled <= 10000 * collateral) by (nonlinear_arith)
            requires
                0 <= risk.margin_used <= collateral,
                scaled == risk.margin_used * 10000,
        ;
        lemma_floor_quotient(scaled, collateral as int);
        crate::math::lemma_div_trunc_between(scaled, collateral as int, 0, 10000);
    }
}

/// Rounding a non-negative quotient toward zero rounds it down.
proof fn lemma_floor_quotient(x: int, d: int)
    requires
        x >= 0,
        d > 0,
    ensures
        div_trunc(x, d) * d <= x < (div_trunc(x, d) + 1) * d,
        div_trunc(x, d) >= 0,
{
    vstd::arithmetic::div_mod::lemma_fundamental_div_mod(x, d);
    vstd::arithmetic::div_mod::lemma_mod_pos_bound(x, d);
    vstd::arithmetic::div_mod::lemma_div_pos_is_pos(x, d);
    let q = x / d;
    assert(q * d <= x < (q + 1) * d) by (nonlinear_arith)
        requires
            x == d * q + x % d,
            0 <= x % d < d,
    ;
}

/// A successful liquidation check counts the accumulated funding against the position: when the
/// equity `collateral + unrealized_pnl - funding_accumulated` fits, the position is due exactly
/// when that equity is below the maintenance margin (the asset's maintenance ratio of the
/// position size, rounded toward zero).
pub proof fn lemma_liquidation_compares_equity_net_of_funding(
    v: RiskManagerView,
    asset: AssetId,
    collateral: i128,
    unrealized_pnl: i128,
    funding_accumulated: i128,
    position_size: i128,
)
    requires
        v.liquidation_check(asset, collateral, unrealized_pnl, funding_accumulated, position_size) is Ok,
        i128::MIN <= collateral + unrealized_pnl <= i128::MAX,
        i128::MIN <= collateral + unrealized_pnl - funding_accumulated <= i128::MAX,
    ensures
        v.liquidation_check(asset, collateral, unrealized_pnl, funding_accumulated, position_size)->Ok_0 == (
        collateral + unrealized_pnl - funding_accumulated < div_trunc(
            position_size * v.risk_params[asset].maintenance_margin_ratio,
            10000,
        )),
{
}

/// More accumulated funding never makes a position safer: a position due for liquidation with
/// some funding (whose equity fits) is still due with any larger funding.
pub proof fn lemma_more_funding_never_saves_a_position(
    v: RiskManagerView,
    asset: AssetId,
    collateral: i128,
    unrealized_pnl: i128,
    funding: i128,
    more_funding: i128,
    position_size: i128,
)
    requires
        v.liquidation_check(asset, collateral, unrealized_pnl, funding, position_size) == Ok::<bool, Error>(true),
        i128::MIN <= collateral + unrealized_pnl - funding <= i128::MAX,
        funding <= more_funding,
    ensures
        v.liquidation_check(asset, collateral, unrealized_pnl, more_funding, position_size) == Ok::<bool, Error>(true),
{
}

} // verus!

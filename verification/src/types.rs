use vstd::prelude::*;

verus! {

/// An account (trader, liquidity provider, admin or token contract), identified by a number.
pub type AccountId = u64;

/// A traded asset (such as XAUUSD), identified by a number.
pub type AssetId = u64;

/// Trading direction.
#[derive(Clone, Copy, Debug, PartialEq, Eq, Structural)]
pub enum Direction {
    Long,
    Short,
}

/// Position status.
#[derive(Clone, Copy, Debug, PartialEq, Eq, Structural)]
pub enum PositionStatus {
    Open,
    Closed,
    Liquidated,
}

/// Asset class type.
#[derive(Clone, Copy, Debug, PartialEq, Eq, Structural)]
pub enum AssetClass {
    Crypto,
    Commodity,
    Forex,
}

/// Order type.
#[derive(Clone, Copy, Debug, PartialEq, Eq, Structural)]
pub enum OrderType {
    LimitEntry,
    StopLoss,
    TakeProfit,
}

/// Order status.
#[derive(Clone, Copy, Debug, PartialEq, Eq, Structural)]
pub enum OrderStatus {
    Pending,
    Executed,
    Cancelled,
    CancelledSlippage,
}

/// Trigger condition.
#[derive(Clone, Copy, Debug, PartialEq, Eq, Structural)]
pub enum TriggerCondition {
    Above,
    Below,
}

/// Trading position.
#[derive(Clone, Copy, Debug, PartialEq, Eq, Structural)]
pub struct Position {
    pub id: u64,
    pub trader: AccountId,
    pub asset: AssetId,
    pub collateral_token: AccountId,
    pub collateral_amount: i128,
    pub position_size: i128,
    pub entry_price: i128,
    pub leverage: u32,
    pub direction: Direction,
    pub liquidation_price: i128,
    pub unrealized_pnl: i128,
    pub funding_accumulated: i128,
    pub opened_at: u64,
    pub last_updated: u64,
    pub status: PositionStatus,
}

/// Trading order.
#[derive(Clone, Copy, Debug, PartialEq, Eq, Structural)]
pub struct Order {
    pub id: u64,
    pub trader: AccountId,
    pub asset: AssetId,
    pub order_type: OrderType,
    pub direction: Direction,
    pub trigger_price: i128,
    pub size: i128,
    pub collateral: i128,
    pub leverage: u32,
    pub slippage_tolerance: u32,
    pub created_at: u64,
    pub status: OrderStatus,
    pub linked_position_id: u64,
}

/// Price data from the oracle.
#[derive(Clone, Copy, Debug, PartialEq, Eq, Structural)]
pub struct PriceData {
    pub asset: AssetId,
    pub price: i128,
    pub confidence: u32,
    pub timestamp: u64,
    pub expo: i32,
}

/// Oracle source.
#[derive(Clone, Copy, Debug, PartialEq, Eq, Structural)]
pub struct OracleSource {
    pub name: AssetId,
    pub address: AccountId,
    pub weight: u32,
    pub is_active: bool,
    pub last_update: u64,
}

/// Price feed configuration.
#[derive(Clone, Debug)]
pub struct PriceFeed {
    pub asset: AssetId,
    pub pyth_feed_id: Vec<u8>,
    pub max_staleness: u64,
    pub max_deviation_bps: u32,
    pub circuit_breaker_enabled: bool,
}

/// Liquidity pool information.
#[derive(Clone, Copy, Debug, PartialEq, Eq, Structural)]
pub struct PoolInfo {
    pub token: AccountId,
    pub total_liquidity: i128,
    pub available_liquidity: i128,
    pub reserved_liquidity: i128,
    pub total_lp_tokens: i128,
    pub accumulated_fees: i128,
    pub utilization_rate: u32,
}

/// LP stake information.
#[derive(Clone, Copy, Debug, PartialEq, Eq, Structural)]
pub struct LPStake {
    pub user: AccountId,
    pub staked_amount: i128,
    pub rewards_earned: i128,
    pub stake_timestamp: u64,
    pub lock_period: u64,
    pub boost_multiplier: u32,
}

/// Risk parameters for an asset.
#[derive(Clone, Copy, Debug, PartialEq, Eq, Structural)]
pub struct RiskParameters {
    pub asset: AssetId,
    pub asset_class: AssetClass,
    pub min_margin_ratio: u32,
    pub maintenance_margin_ratio: u32,
    pub liquidation_threshold: u32,
    pub max_leverage: u32,
    pub max_position_size: i128,
    pub max_open_interest: i128,
}

/// Portfolio risk assessment.
#[derive(Clone, Copy, Debug, PartialEq, Eq, Structural)]
pub struct PortfolioRisk {
    pub user: AccountId,
    pub total_exposure: i128,
    pub margin_used: i128,
    pub margin_available: i128,
    pub risk_score: u32,
    pub liquidation_distance: i128,
}

/// Market statistics.
#[derive(Clone, Copy, Debug, PartialEq, Eq, Structural)]
pub struct MarketStats {
    pub asset: AssetId,
    pub total_long_size: i128,
    pub total_short_size: i128,
    pub open_interest: i128,
    pub funding_rate: i128,
    pub last_funding_time: u64,
}

/// Faucet claim record.
#[derive(Clone, Copy, Debug, PartialEq, Eq, Structural)]
pub struct ClaimRecord {
    pub user: AccountId,
    pub token: AccountId,
    pub amount_claimed: i128,
    pub last_claim_time: u64,
    pub total_claims: u32,
}

} // verus!

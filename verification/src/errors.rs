use vstd::prelude::*;

verus! {

/// The errors that the exchange contracts report.
#[derive(Clone, Copy, Debug, PartialEq, Eq, Structural)]
pub enum Error {
    // General errors
    NotInitialized,
    AlreadyInitialized,
    Unauthorized,
    Paused,
    InvalidParameter,
    // Position errors
    PositionNotFound,
    InvalidLeverage,
    InsufficientCollateral,
    PositionTooLarge,
    NotPositionOwner,
    InsufficientMargin,
    PositionAlreadyClosed,
    MaxPositionsReached,
    // Oracle errors
    PriceStale,
    InvalidPrice,
    OracleUnavailable,
    PriceDeviationTooHigh,
    InvalidPriceFeed,
    // Liquidity errors
    InsufficientLiquidity,
    InvalidAmount,
    InsufficientBalance,
    PoolNotFound,
    InvalidToken,
    // Liquidation errors
    NotLiquidatable,
    LiquidationFailed,
    // Order errors
    OrderNotFound,
    OrderNotPending,
    OrderNotTriggered,
    SlippageExceeded,
    NotOrderOwner,
    InvalidTriggerPrice,
    InvalidSlippageTolerance,
    OrderAlreadyExists,
    InvalidOrderType,
    // Risk errors
    RiskLimitExceeded,
    VolatilityTooHigh,
    ConcentrationLimitExceeded,
    // Math errors
    Overflow,
    DivisionByZero,
    NegativeValue,
    // Funding errors
    FundingIntervalNotElapsed,
    // Faucet errors
    ClaimLimitExceeded,
    CooldownNotElapsed,
    FaucetDepleted,
}

} // verus!

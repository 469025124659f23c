use exchange_core::constants::PRECISION;
use exchange_core::errors::Error;
use exchange_core::risk::RiskManager;
use exchange_core::types::AssetClass;

const ADMIN: u64 = 1;
const USER: u64 = 2;
const XAUUSD: u64 = 10;

fn manager() -> RiskManager {
    let mut manager = RiskManager::new();
    manager.initialize(ADMIN).unwrap();
    manager
        .update_risk_parameters(
            XAUUSD,
            AssetClass::Commodity,
            1000,
            500,
            500,
            10,
            10_000 * PRECISION,
            1_000_000 * PRECISION,
        )
        .unwrap();
    manager
}

#[test]
fn test_assess_position_risk() {
    let manager = manager();

    let profile = manager
        .assess_position_risk(USER, XAUUSD, 1_000 * PRECISION, 200 * PRECISION, 5)
        .unwrap();

    assert!(profile.margin_available >= 0);
}

#[test]
fn test_assessment_values() {
    let manager = manager();
    let profile = manager
        .assess_position_risk(USER, XAUUSD, 1_000 * PRECISION, 200 * PRECISION, 5)
        .unwrap();
    // 10% of 1000 is used as margin, half of the collateral
    assert_eq!(profile.margin_used, 100 * PRECISION);
    assert_eq!(profile.margin_available, 100 * PRECISION);
    assert_eq!(profile.liquidation_distance, 100 * PRECISION);
    assert_eq!(profile.risk_score, 5_000);
    assert_eq!(profile.total_exposure, 1_000 * PRECISION);
    assert_eq!(profile.user, USER);
    // all of the collateral used: risk score 10000
    let full = manager
        .assess_position_risk(USER, XAUUSD, 2_000 * PRECISION, 200 * PRECISION, 5)
        .unwrap();
    assert_eq!(full.margin_available, 0);
    assert_eq!(full.risk_score, 10_000);
}

#[test]
fn test_assessment_errors() {
    let manager = manager();
    assert_eq!(
        manager.assess_position_risk(USER, 99, 1_000, 200 * PRECISION, 5),
        Err(Error::InvalidParameter)
    );
    assert_eq!(
        manager.assess_position_risk(USER, XAUUSD, 1_000, PRECISION, 5),
        Err(Error::InsufficientCollateral)
    );
    assert_eq!(
        manager.assess_position_risk(USER, XAUUSD, 1_000, 200 * PRECISION, 11),
        Err(Error::InvalidLeverage)
    );
    assert_eq!(
        manager.assess_position_risk(USER, XAUUSD, 10_001 * PRECISION, 2_000 * PRECISION, 5),
        Err(Error::PositionTooLarge)
    );
    assert_eq!(
        manager.assess_position_risk(USER, XAUUSD, 3_000 * PRECISION, 200 * PRECISION, 5),
        Err(Error::InsufficientMargin)
    );
}

#[test]
fn test_risk_parameter_updates() {
    let mut manager = RiskManager::new();
    assert_eq!(
        manager.update_risk_parameters(XAUUSD, AssetClass::Forex, 100, 50, 50, 5, 1, 1),
        Err(Error::NotInitialized)
    );
    manager.initialize(ADMIN).unwrap();
    assert_eq!(manager.initialize(ADMIN), Err(Error::AlreadyInitialized));
    assert_eq!(
        manager.update_risk_parameters(XAUUSD, AssetClass::Forex, 10_001, 50, 50, 5, 1, 1),
        Err(Error::InvalidParameter)
    );
    assert_eq!(
        manager.update_risk_parameters(XAUUSD, AssetClass::Forex, 100, 50, 50, 11, 1, 1),
        Err(Error::InvalidLeverage)
    );
    assert_eq!(manager.get_risk_parameters(XAUUSD), Err(Error::InvalidParameter));
    manager
        .update_risk_parameters(XAUUSD, AssetClass::Forex, 100, 50, 50, 10, 1, 1)
        .unwrap();
    let params = manager.get_risk_parameters(XAUUSD).unwrap();
    assert_eq!(params.asset_class, AssetClass::Forex);
    assert_eq!(params.max_leverage, 10);
}

#[test]
fn test_liquidation_threshold_and_margin() {
    let mut manager = manager();
    // maintenance margin 5% of 1000 = 50
    assert_eq!(manager.check_liquidation_threshold(XAUUSD, 100, -40, 0, 1_000), Ok(false));
    assert_eq!(manager.check_liquidation_threshold(XAUUSD, 100, -51, 0, 1_000), Ok(true));
    assert_eq!(manager.check_liquidation_threshold(99, 100, 0, 0, 1_000), Err(Error::InvalidParameter));
    // 10% of 1000, raised by 50% volatility
    assert_eq!(manager.calculate_margin_requirement(XAUUSD, 1_000, 5_000), Ok(150));
    assert_eq!(manager.get_max_leverage(XAUUSD, 5_000), Ok(5));
    assert_eq!(manager.get_max_leverage(XAUUSD, 9_999), Ok(1));
    assert_eq!(manager.get_max_leverage(XAUUSD, 20_000), Ok(1));
    assert_eq!(manager.get_max_leverage(99, 0), Err(Error::InvalidParameter));
    manager.pause().unwrap();
    assert_eq!(manager.calculate_margin_requirement(XAUUSD, 1_000, 5_000), Err(Error::Paused));
    assert_eq!(manager.check_liquidation_threshold(XAUUSD, 100, 0, 0, 1_000), Err(Error::Paused));
    // the leverage query works while paused
    assert_eq!(manager.get_max_leverage(XAUUSD, 0), Ok(10));
    manager.unpause().unwrap();
    assert_eq!(manager.calculate_margin_requirement(XAUUSD, 1_000, 0), Ok(100));
}

#[test]
fn test_margin_requirement_overflow_check() {
    let manager = manager();
    assert!(manager.calculate_margin_requirement_panics(XAUUSD, 1_000, u32::MAX));
    assert!(!manager.calculate_margin_requirement_panics(XAUUSD, 1_000, 5_000));
    assert!(!manager.calculate_margin_requirement_panics(XAUUSD, i128::MAX, u32::MAX));
    assert_eq!(
        manager.calculate_margin_requirement(XAUUSD, i128::MAX, u32::MAX),
        Err(Error::Overflow)
    );
}

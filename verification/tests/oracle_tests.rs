use exchange_core::constants::PRECISION;
use exchange_core::errors::Error;
use exchange_core::oracle::{validate_price_update, OracleManager};
use exchange_core::types::{PriceData, PriceFeed};

const ADMIN: u64 = 1;
const XAUUSD: u64 = 10;
const XAGUSD: u64 = 11;
const EURUSD: u64 = 12;

fn initialized() -> OracleManager {
    let mut oracle = OracleManager::new();
    oracle.initialize(ADMIN).unwrap();
    oracle
}

#[test]
fn test_initialize() {
    let oracle = initialized();
    assert_eq!(oracle.get_admin(), Ok(ADMIN));
    assert!(!oracle.is_paused());
}

#[test]
fn test_initialize_twice() {
    let mut oracle = initialized();
    // a second initialization is refused with `Unauthorized` (contract error 3)
    assert_eq!(oracle.initialize(ADMIN), Err(Error::Unauthorized));
    assert_eq!(oracle.get_admin(), Ok(ADMIN));
}

#[test]
fn test_register_and_update_price() {
    let mut oracle = initialized();
    let now = 1_000;

    // Register feed
    oracle.register_feed(XAUUSD, Vec::new(), 60, 100).unwrap();

    // Update price
    let price = 2000 * PRECISION;
    oracle.update_price(XAUUSD, price, 100, -7, now).unwrap();

    // Get price
    let price_data = oracle.get_price(XAUUSD, now).unwrap();
    assert_eq!(price_data.price, price);
    assert_eq!(price_data.confidence, 100);
}

#[test]
fn test_price_staleness() {
    let mut oracle = initialized();
    let now = 1_000;

    // Register feed with 60 second staleness
    oracle.register_feed(XAUUSD, Vec::new(), 60, 100).unwrap();

    // Update price
    oracle.update_price(XAUUSD, 2000 * PRECISION, 100, -7, now).unwrap();

    // Advance time by 70 seconds: should fail due to staleness
    let result = oracle.get_price(XAUUSD, now + 70);
    assert!(result.is_err());
    assert_eq!(result, Err(Error::PriceStale));
}

#[test]
fn test_circuit_breaker() {
    let mut oracle = initialized();
    let now = 1_000;

    // Register feed with 1% max deviation
    oracle.register_feed(XAUUSD, Vec::new(), 60, 100).unwrap();

    // Update initial price
    oracle.update_price(XAUUSD, 2000 * PRECISION, 100, -7, now).unwrap();

    // Try to update with 2% deviation (should fail)
    let result = oracle.update_price(XAUUSD, 2040 * PRECISION, 100, -7, now);
    assert!(result.is_err());
    assert_eq!(result, Err(Error::PriceDeviationTooHigh));

    // Enable circuit breaker
    oracle.set_circuit_breaker(XAUUSD, true).unwrap();

    // Now the same update should succeed
    oracle.update_price(XAUUSD, 2040 * PRECISION, 100, -7, now).unwrap();

    let price_data = oracle.get_price(XAUUSD, now).unwrap();
    assert_eq!(price_data.price, 2040 * PRECISION);
}

#[test]
fn test_pause_unpause() {
    let mut oracle = initialized();
    let now = 1_000;

    oracle.register_feed(XAUUSD, Vec::new(), 60, 100).unwrap();
    oracle.update_price(XAUUSD, 2000 * PRECISION, 100, -7, now).unwrap();

    // Pause
    oracle.pause().unwrap();
    assert!(oracle.is_paused());

    // Should not be able to get price when paused
    let result = oracle.get_price(XAUUSD, now);
    assert!(result.is_err());

    // Unpause
    oracle.unpause().unwrap();
    assert!(!oracle.is_paused());

    // Should work again
    let price_data = oracle.get_price(XAUUSD, now).unwrap();
    assert_eq!(price_data.price, 2000 * PRECISION);
}

#[test]
fn test_get_multiple_prices() {
    let mut oracle = initialized();
    let now = 1_000;

    // Register multiple assets
    oracle.register_feed(XAUUSD, Vec::new(), 60, 100).unwrap();
    oracle.register_feed(XAGUSD, Vec::new(), 60, 100).unwrap();
    oracle.register_feed(EURUSD, Vec::new(), 60, 100).unwrap();

    // Update prices
    oracle.update_price(XAUUSD, 2000 * PRECISION, 100, -7, now).unwrap();
    oracle.update_price(XAGUSD, 25 * PRECISION, 100, -7, now).unwrap();
    oracle.update_price(EURUSD, 1_0500000, 100, -7, now).unwrap(); // 1.05

    // Get all prices at once
    let assets = vec![XAUUSD, XAGUSD, EURUSD];
    let prices = oracle.get_prices(&assets, now).unwrap();

    assert_eq!(prices.len(), 3);
    assert_eq!(prices[0].price, 2000 * PRECISION);
    assert_eq!(prices[1].price, 25 * PRECISION);
    assert_eq!(prices[2].price, 1_0500000);
}

fn xau(price: i128, timestamp: u64) -> PriceData {
    PriceData { asset: XAUUSD, price, confidence: 100, timestamp, expo: -7 }
}

fn xau_feed() -> PriceFeed {
    PriceFeed {
        asset: XAUUSD,
        pyth_feed_id: Vec::new(),
        max_staleness: 60,
        max_deviation_bps: 100, // 1%
        circuit_breaker_enabled: false,
    }
}

#[test]
fn test_validate_price_update_within_deviation() {
    let previous = xau(2000 * PRECISION, 1000);
    let new = xau(2010 * PRECISION, 1010); // 0.5% increase
    assert!(validate_price_update(&previous, &new, &xau_feed()).is_ok());
}

#[test]
fn test_validate_price_update_exceeds_deviation() {
    let previous = xau(2000 * PRECISION, 1000);
    let new = xau(2030 * PRECISION, 1010); // 1.5% increase
    assert!(validate_price_update(&previous, &new, &xau_feed()).is_err());
}

#[test]
fn test_oracle_errors() {
    let mut oracle = OracleManager::new();
    assert_eq!(oracle.get_admin(), Err(Error::NotInitialized));
    assert_eq!(oracle.register_feed(XAUUSD, vec![1, 2], 60, 100), Err(Error::NotInitialized));
    // a price may be published before its feed is registered, but not read
    assert_eq!(oracle.update_price(XAUUSD, 100, 1, 0, 5), Ok(()));
    assert_eq!(oracle.get_price(XAUUSD, 5), Err(Error::InvalidPriceFeed));
    // a second update needs the feed for its deviation check
    assert_eq!(oracle.update_price(XAUUSD, 100, 1, 0, 6), Err(Error::InvalidPriceFeed));
    assert_eq!(oracle.get_price(XAGUSD, 5), Err(Error::OracleUnavailable));
    assert_eq!(oracle.update_price(XAUUSD, 0, 1, 0, 5), Err(Error::InvalidPrice));
    assert_eq!(oracle.get_prices(&vec![XAUUSD, XAGUSD], 5), Err(Error::InvalidPriceFeed));
    assert_eq!(oracle.get_prices(&vec![], 5), Ok(vec![]));
    oracle.initialize(ADMIN).unwrap();
    assert_eq!(oracle.set_circuit_breaker(XAGUSD, true), Err(Error::InvalidPriceFeed));
    assert_eq!(oracle.update_feed_config(XAGUSD, 1, 1), Err(Error::InvalidPriceFeed));
    oracle.register_feed(XAUUSD, vec![1, 2], 60, 100).unwrap();
    oracle.update_feed_config(XAUUSD, 5, 0).unwrap();
    assert_eq!(oracle.get_price(XAUUSD, 10), Ok(PriceData { asset: XAUUSD, price: 100, confidence: 1, timestamp: 5, expo: 0 }));
    assert_eq!(oracle.get_price(XAUUSD, 11), Err(Error::PriceStale));
    assert_eq!(oracle.update_price(XAUUSD, 101, 1, 0, 12), Err(Error::PriceDeviationTooHigh));
    oracle.set_admin(4).unwrap();
    assert_eq!(oracle.get_admin(), Ok(4));
    oracle.pause().unwrap();
    assert_eq!(oracle.update_price(XAUUSD, 100, 1, 0, 5), Err(Error::Paused));
    assert_eq!(oracle.get_prices(&vec![], 5), Err(Error::Paused));
}

#[test]
fn test_update_price_overflow_check() {
    let mut oracle = initialized();
    oracle.register_feed(XAUUSD, Vec::new(), 60, 100).unwrap();
    assert!(!oracle.update_price_panics(XAUUSD, i128::MAX, 1));
    oracle.update_price(XAUUSD, i128::MAX, 1, 0, 1).unwrap();
    // the average of the two prices overflows
    assert!(oracle.update_price_panics(XAUUSD, 1, 2));
    oracle.set_circuit_breaker(XAUUSD, true).unwrap();
    assert!(!oracle.update_price_panics(XAUUSD, 1, 2));
}

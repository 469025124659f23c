use exchange_core::constants::PRECISION;
use exchange_core::errors::Error;
use exchange_core::trading::TradingCore;
use exchange_core::types::{Direction, OrderStatus, OrderType, PositionStatus};

const ADMIN: u64 = 1;
const TRADER: u64 = 2;
const OTHER: u64 = 3;
const XAUUSD: u64 = 10;
const EURUSD: u64 = 11;

fn trading_core() -> TradingCore {
    let mut tc = TradingCore::new();
    tc.initialize(ADMIN, 10, 100).unwrap();
    tc
}

#[test]
fn test_open_close_position() {
    let mut tc = trading_core();

    let collateral = 100 * PRECISION;
    let entry = 2000 * PRECISION;

    let pid = tc
        .open_position(TRADER, XAUUSD, TRADER, collateral, 10, Direction::Long, entry, 1_000)
        .unwrap();

    let pnl = tc.close_position(TRADER, pid, 2100 * PRECISION, 2_000).unwrap();
    assert!(pnl > 0);
}

#[test]
fn test_order_execution_limit_entry() {
    let mut tc = trading_core();

    let oid = tc
        .place_order(
            TRADER,
            EURUSD,
            OrderType::LimitEntry,
            Direction::Long,
            1_0500000,
            1000 * PRECISION,
            100 * PRECISION,
            10,
            100,
            0,
            1_000,
        )
        .unwrap();

    let pid = tc.execute_order(oid, 1_0510000, 1_001).unwrap();
    assert!(pid > 0);
}

#[test]
fn test_position_values_and_stats() {
    let mut tc = trading_core();
    let pid = tc
        .open_position(TRADER, XAUUSD, 77, 100 * PRECISION, 10, Direction::Long, 2000 * PRECISION, 5)
        .unwrap();
    assert_eq!(pid, 1);
    let position = tc.get_position(pid).unwrap();
    assert_eq!(position.position_size, 1000 * PRECISION);
    // 2000 * (1 - 0.1 + 0.01) = 1820
    assert_eq!(position.liquidation_price, 1820 * PRECISION);
    assert_eq!(position.collateral_token, 77);
    assert_eq!(position.status, PositionStatus::Open);
    assert_eq!(position.opened_at, 5);
    let stats = tc.get_market_stats(XAUUSD);
    assert_eq!(stats.open_interest, 1000 * PRECISION);
    assert_eq!(stats.total_long_size, 1000 * PRECISION);
    assert_eq!(stats.total_short_size, 0);

    let short = tc
        .open_position(OTHER, XAUUSD, OTHER, 50 * PRECISION, 2, Direction::Short, 2000 * PRECISION, 6)
        .unwrap();
    assert_eq!(short, 2);
    let stats = tc.get_market_stats(XAUUSD);
    assert_eq!(stats.open_interest, 1100 * PRECISION);
    assert_eq!(stats.total_short_size, 100 * PRECISION);

    // 1000 * 100 / 2000 = 50, less a fee of 1
    assert_eq!(tc.close_position(TRADER, pid, 2100 * PRECISION, 7), Ok(49 * PRECISION));
    let closed = tc.get_position(pid).unwrap();
    assert_eq!(closed.status, PositionStatus::Closed);
    assert_eq!(closed.unrealized_pnl, 49 * PRECISION);
    assert_eq!(closed.last_updated, 7);
    let stats = tc.get_market_stats(XAUUSD);
    assert_eq!(stats.open_interest, 100 * PRECISION);
    assert_eq!(stats.total_long_size, 0);

    let positions = tc.get_user_positions(TRADER).unwrap();
    assert_eq!(positions.len(), 1);
    assert_eq!(positions[0].id, pid);
    assert_eq!(tc.get_user_position_ids(OTHER), vec![2]);
    assert_eq!(tc.get_user_positions(99).unwrap().len(), 0);
}

#[test]
fn test_position_errors() {
    let mut tc = trading_core();
    assert_eq!(
        tc.open_position(TRADER, XAUUSD, TRADER, 5 * PRECISION, 10, Direction::Long, 100, 1),
        Err(Error::InsufficientCollateral)
    );
    assert_eq!(
        tc.open_position(TRADER, XAUUSD, TRADER, 100 * PRECISION, 11, Direction::Long, 100, 1),
        Err(Error::InvalidLeverage)
    );
    assert_eq!(
        tc.open_position(TRADER, XAUUSD, TRADER, 100 * PRECISION, 10, Direction::Long, 0, 1),
        Err(Error::InvalidAmount)
    );
    assert_eq!(tc.close_position(TRADER, 1, 100, 1), Err(Error::PositionNotFound));
    let pid = tc
        .open_position(TRADER, XAUUSD, TRADER, 100 * PRECISION, 10, Direction::Long, 1000, 1)
        .unwrap();
    assert_eq!(tc.close_position(OTHER, pid, 100, 1), Err(Error::NotPositionOwner));
    tc.close_position(TRADER, pid, 1000, 2).unwrap();
    assert_eq!(tc.close_position(TRADER, pid, 1000, 3), Err(Error::PositionAlreadyClosed));
    assert_eq!(tc.liquidate_position(pid, 1, 3), Err(Error::PositionAlreadyClosed));
    tc.pause().unwrap();
    assert_eq!(
        tc.open_position(TRADER, XAUUSD, TRADER, 100 * PRECISION, 10, Direction::Long, 1000, 1),
        Err(Error::Paused)
    );
    tc.unpause().unwrap();
}

#[test]
fn test_liquidation() {
    let mut tc = trading_core();
    let pid = tc
        .open_position(TRADER, XAUUSD, TRADER, 100 * PRECISION, 10, Direction::Long, 2000 * PRECISION, 1)
        .unwrap();
    // liquidation price 1820
    assert_eq!(tc.liquidate_position(pid, 1821 * PRECISION, 2), Err(Error::NotLiquidatable));
    assert_eq!(tc.liquidate_position(pid, 1820 * PRECISION, 2), Ok(()));
    let position = tc.get_position(pid).unwrap();
    assert_eq!(position.status, PositionStatus::Liquidated);
    assert_eq!(tc.get_market_stats(XAUUSD).open_interest, 0);

    let short = tc
        .open_position(TRADER, XAUUSD, TRADER, 100 * PRECISION, 10, Direction::Short, 2000 * PRECISION, 3)
        .unwrap();
    // 2000 * (1 + 0.1 - 0.01) = 2180
    assert_eq!(tc.liquidate_position(short, 2179 * PRECISION, 4), Err(Error::NotLiquidatable));
    assert_eq!(tc.liquidate_position(short, 2180 * PRECISION, 4), Ok(()));
    assert_eq!(tc.liquidate_position(99, 1, 4), Err(Error::PositionNotFound));
}

#[test]
fn test_orders() {
    let mut tc = trading_core();
    assert_eq!(
        tc.place_order(TRADER, XAUUSD, OrderType::StopLoss, Direction::Long, 0, 1, 100 * PRECISION, 10, 100, 0, 1),
        Err(Error::InvalidAmount)
    );
    assert_eq!(
        tc.place_order(TRADER, XAUUSD, OrderType::StopLoss, Direction::Long, 1, 0, 100 * PRECISION, 10, 100, 0, 1),
        Err(Error::InvalidAmount)
    );
    assert_eq!(
        tc.place_order(TRADER, XAUUSD, OrderType::StopLoss, Direction::Long, 1, 1, PRECISION, 10, 100, 0, 1),
        Err(Error::InsufficientCollateral)
    );
    assert_eq!(
        tc.place_order(TRADER, XAUUSD, OrderType::StopLoss, Direction::Long, 1, 1, 100 * PRECISION, 0, 100, 0, 1),
        Err(Error::InvalidLeverage)
    );
    let pid = tc
        .open_position(TRADER, XAUUSD, TRADER, 100 * PRECISION, 10, Direction::Long, 2000 * PRECISION, 1)
        .unwrap();
    let stop = tc
        .place_order(TRADER, XAUUSD, OrderType::StopLoss, Direction::Long, 1900 * PRECISION, 1, 100 * PRECISION, 10, 100, pid, 2)
        .unwrap();
    let unlinked = tc
        .place_order(TRADER, XAUUSD, OrderType::TakeProfit, Direction::Long, 2100 * PRECISION, 1, 100 * PRECISION, 10, 100, 0, 2)
        .unwrap();
    assert_eq!(tc.execute_order(unlinked, 2100 * PRECISION, 3), Err(Error::InvalidParameter));
    // more than 1% away from the trigger
    assert_eq!(tc.execute_order(stop, 1800 * PRECISION, 3), Err(Error::SlippageExceeded));
    assert_eq!(tc.execute_order(stop, 1890 * PRECISION, 3), Ok(pid));
    assert_eq!(tc.get_order(stop).unwrap().status, OrderStatus::Executed);
    assert_eq!(tc.get_position(pid).unwrap().status, PositionStatus::Closed);
    assert_eq!(tc.execute_order(stop, 1890 * PRECISION, 4), Err(Error::OrderNotPending));
    assert_eq!(tc.cancel_order(OTHER, unlinked), Err(Error::NotOrderOwner));
    assert_eq!(tc.cancel_order(TRADER, unlinked), Ok(()));
    assert_eq!(tc.get_order(unlinked).unwrap().status, OrderStatus::Cancelled);
    assert_eq!(tc.cancel_order(TRADER, unlinked), Err(Error::OrderNotPending));
    assert_eq!(tc.cancel_order(TRADER, 99), Err(Error::OrderNotFound));
    assert_eq!(tc.execute_order(99, 1, 4), Err(Error::OrderNotFound));
    let orders = tc.get_user_orders(TRADER).unwrap();
    assert_eq!(orders.len(), 2);
    assert_eq!(orders[0].id, stop);
    assert_eq!(orders[1].id, unlinked);
    assert_eq!(tc.get_user_order_ids(TRADER), vec![stop, unlinked]);
}

#[test]
fn test_defaults_before_initialize() {
    let mut tc = TradingCore::new();
    assert_eq!(tc.get_trading_fee_bps(), 10);
    assert_eq!(tc.get_maintenance_margin_bps(), 100);
    assert_eq!(tc.pause(), Err(Error::NotInitialized));
    // positions can be opened before initialization, with the default margin
    let pid = tc
        .open_position(TRADER, XAUUSD, TRADER, 100 * PRECISION, 10, Direction::Long, 2000 * PRECISION, 1)
        .unwrap();
    assert_eq!(tc.get_position(pid).unwrap().liquidation_price, 1820 * PRECISION);
    tc.initialize(ADMIN, 20, 200).unwrap();
    assert_eq!(tc.initialize(ADMIN, 20, 200), Err(Error::AlreadyInitialized));
    assert_eq!(tc.get_trading_fee_bps(), 20);
    assert_eq!(tc.get_maintenance_margin_bps(), 200);
}

#[test]
fn test_side_totals_follow_open_positions() {
    let mut tc = trading_core();
    let collateral = 100 * PRECISION;
    let a = tc
        .open_position(TRADER, XAUUSD, TRADER, collateral, 10, Direction::Long, 2000 * PRECISION, 1)
        .unwrap();
    let b = tc
        .open_position(OTHER, XAUUSD, OTHER, collateral, 5, Direction::Long, 2000 * PRECISION, 2)
        .unwrap();
    tc.open_position(OTHER, XAUUSD, OTHER, collateral, 2, Direction::Short, 2000 * PRECISION, 3)
        .unwrap();
    let stats = tc.get_market_stats(XAUUSD);
    assert_eq!(stats.total_long_size, 1500 * PRECISION);
    assert_eq!(stats.total_short_size, 200 * PRECISION);
    assert_eq!(stats.open_interest, 1700 * PRECISION);

    tc.close_position(TRADER, a, 2000 * PRECISION, 4).unwrap();
    tc.liquidate_position(b, 1, 5).unwrap();
    let stats = tc.get_market_stats(XAUUSD);
    assert_eq!(stats.total_long_size, 0);
    assert_eq!(stats.total_short_size, 200 * PRECISION);
    assert_eq!(stats.open_interest, 200 * PRECISION);
}

#[test]
fn test_counter_overflow_only_where_an_id_is_taken() {
    let mut tc = trading_core();
    tc.position_counter = u64::MAX;
    tc.order_counter = u64::MAX;
    let collateral = 100 * PRECISION;
    assert!(tc.open_position_overflows(collateral, 10, Direction::Long, 2000 * PRECISION));
    // an invalid leverage is refused before any id is taken
    assert!(!tc.open_position_overflows(collateral, 11, Direction::Long, 2000 * PRECISION));
    assert_eq!(
        tc.open_position(TRADER, XAUUSD, TRADER, collateral, 11, Direction::Long, 2000 * PRECISION, 1),
        Err(Error::InvalidLeverage)
    );
    assert!(tc.place_order_overflows(2000 * PRECISION, 10, collateral, 10));
    assert!(!tc.place_order_overflows(0, 10, collateral, 10));
    assert_eq!(
        tc.place_order(TRADER, XAUUSD, OrderType::StopLoss, Direction::Long, 0, 10, collateral, 10, 100, 1, 1),
        Err(Error::InvalidAmount)
    );
}

#[test]
fn test_execute_order_panics_only_on_overflow() {
    let mut tc = trading_core();
    let oid = tc
        .place_order(
            TRADER,
            EURUSD,
            OrderType::LimitEntry,
            Direction::Long,
            1_0500000,
            1000 * PRECISION,
            100 * PRECISION,
            10,
            100,
            0,
            1,
        )
        .unwrap();
    assert!(!tc.execute_order_panics(oid, 1_0510000));
    assert!(tc.execute_order_panics(oid, i128::MAX));
    tc.position_counter = u64::MAX;
    assert!(tc.execute_order_panics(oid, 1_0510000));
    // outside the slippage tolerance no position is opened, so nothing overflows
    assert!(!tc.execute_order_panics(oid, 2_0000000));
    assert_eq!(tc.execute_order(oid, 2_0000000, 2), Err(Error::SlippageExceeded));
}

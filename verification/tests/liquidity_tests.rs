use exchange_core::constants::PRECISION;
use exchange_core::errors::Error;
use exchange_core::liquidity::{boost_multiplier, LiquidityManager};

const ADMIN: u64 = 1;
const USER: u64 = 2;
const TOKEN: u64 = 3;

fn manager_with_pool() -> LiquidityManager {
    let mut manager = LiquidityManager::new();
    manager.initialize(ADMIN).unwrap();
    manager.create_pool(TOKEN).unwrap();
    manager
}

#[test]
fn test_deposit_withdraw() {
    let mut manager = manager_with_pool();

    let minted = manager.deposit(USER, TOKEN, 1_000 * PRECISION).unwrap();
    assert_eq!(minted, 1_000 * PRECISION);

    let withdrawn = manager.withdraw(USER, TOKEN, 500 * PRECISION).unwrap();
    assert!(withdrawn > 0);
}

#[test]
fn test_liquidity_accounting() {
    let mut manager = manager_with_pool();
    assert_eq!(manager.deposit(USER, TOKEN, 1_000), Ok(1_000));
    assert_eq!(manager.deposit(7, TOKEN, 500), Ok(500));
    assert_eq!(manager.reserve_liquidity(TOKEN, 300), Ok(()));
    let pool = manager.get_pool_info(TOKEN).unwrap();
    assert_eq!(pool.total_liquidity, 1_500);
    assert_eq!(pool.available_liquidity, 1_200);
    assert_eq!(pool.reserved_liquidity, 300);
    assert_eq!(pool.utilization_rate, 2_000);
    // a trader loss of 300 enters the pool; LP tokens are now worth more
    assert_eq!(manager.settle_trader_pnl(TOKEN, -300), Ok(()));
    assert_eq!(manager.withdraw(USER, TOKEN, 1_000), Ok(1_200));
    assert_eq!(manager.get_lp_balance(USER, TOKEN), 0);
    assert_eq!(manager.withdraw(USER, TOKEN, 1), Err(Error::InsufficientBalance));
    // a trader profit larger than the available liquidity cannot be paid
    assert_eq!(manager.settle_trader_pnl(TOKEN, 400), Err(Error::InsufficientLiquidity));
    assert_eq!(manager.release_liquidity(TOKEN, 301), Err(Error::InsufficientLiquidity));
    assert_eq!(manager.release_liquidity(TOKEN, 300), Ok(()));
    let pool = manager.get_pool_info(TOKEN).unwrap();
    assert_eq!(pool.available_liquidity, 600);
    assert_eq!(pool.reserved_liquidity, 0);
}

#[test]
fn test_liquidity_errors() {
    let mut manager = LiquidityManager::new();
    assert_eq!(manager.create_pool(TOKEN), Err(Error::NotInitialized));
    assert_eq!(manager.deposit(USER, TOKEN, 10), Err(Error::PoolNotFound));
    manager.initialize(ADMIN).unwrap();
    assert_eq!(manager.initialize(ADMIN), Err(Error::AlreadyInitialized));
    assert_eq!(manager.get_pool_info(TOKEN), Err(Error::PoolNotFound));
    manager.create_pool(TOKEN).unwrap();
    assert_eq!(manager.deposit(USER, TOKEN, 0), Err(Error::InvalidAmount));
    assert_eq!(manager.reserve_liquidity(TOKEN, 1), Err(Error::InsufficientLiquidity));
    manager.pause().unwrap();
    assert_eq!(manager.deposit(USER, TOKEN, 10), Err(Error::Paused));
    manager.unpause().unwrap();
    assert_eq!(manager.deposit(USER, TOKEN, 10), Ok(10));
}

#[test]
fn test_stake_and_unstake() {
    let mut manager = manager_with_pool();
    manager.deposit(USER, TOKEN, 1_000).unwrap();
    let lock = 90 * 24 * 3600;
    assert_eq!(manager.stake_lp_tokens(USER, TOKEN, 1_001, lock, 100), Err(Error::InsufficientBalance));
    assert_eq!(manager.stake_lp_tokens(USER, TOKEN, 400, lock, 100), Ok(()));
    assert_eq!(manager.get_lp_balance(USER, TOKEN), 600);
    let stake = manager.get_user_stake_info(USER, TOKEN).unwrap();
    assert_eq!(stake.staked_amount, 400);
    assert_eq!(stake.boost_multiplier, 15_000);
    assert_eq!(stake.stake_timestamp, 100);
    // still locked
    assert_eq!(manager.unstake_lp_tokens(USER, TOKEN, 400, 100 + lock - 1), Err(Error::Unauthorized));
    assert_eq!(manager.unstake_lp_tokens(USER, TOKEN, 401, 100 + lock), Err(Error::InsufficientBalance));
    assert_eq!(manager.unstake_lp_tokens(USER, TOKEN, 400, 100 + lock), Ok(()));
    assert_eq!(manager.get_lp_balance(USER, TOKEN), 1_000);
    assert_eq!(manager.unstake_lp_tokens(9, TOKEN, 1, 0), Err(Error::InvalidParameter));
    assert_eq!(manager.get_user_stake_info(9, TOKEN), None);
}

#[test]
fn test_boost_multiplier() {
    assert_eq!(boost_multiplier(0), 10_000);
    assert_eq!(boost_multiplier(30 * 24 * 3600), 12_000);
    assert_eq!(boost_multiplier(90 * 24 * 3600 - 1), 12_000);
    assert_eq!(boost_multiplier(90 * 24 * 3600), 15_000);
    assert_eq!(boost_multiplier(180 * 24 * 3600), 20_000);
}

#[test]
fn test_lp_supply_is_held_plus_staked() {
    let mut manager = manager_with_pool();
    let other = 9;
    manager.deposit(USER, TOKEN, 1_000).unwrap();
    manager.deposit(other, TOKEN, 600).unwrap();
    manager.stake_lp_tokens(USER, TOKEN, 400, 0, 10).unwrap();
    manager.withdraw(other, TOKEN, 100).unwrap();
    let pool = manager.get_pool_info(TOKEN).unwrap();
    let staked = manager.get_user_stake_info(USER, TOKEN).unwrap().staked_amount;
    assert_eq!(staked, 400);
    assert_eq!(
        pool.total_lp_tokens,
        manager.get_lp_balance(USER, TOKEN) + manager.get_lp_balance(other, TOKEN) + staked
    );
    manager.unstake_lp_tokens(USER, TOKEN, 400, 20).unwrap();
    assert_eq!(manager.get_lp_balance(USER, TOKEN), 1_000);
    assert_eq!(pool.total_lp_tokens, 1_500);
}

#[test]
fn test_settle_and_unstake_overflow_checks() {
    let mut manager = manager_with_pool();
    assert!(manager.settle_trader_pnl_panics(TOKEN, i128::MIN));
    assert!(!manager.settle_trader_pnl_panics(TOKEN, -5));
    assert!(!manager.settle_trader_pnl_panics(99, i128::MIN));
    manager.deposit(USER, TOKEN, 1_000).unwrap();
    manager.stake_lp_tokens(USER, TOKEN, 400, u64::MAX, 10).unwrap();
    assert!(manager.unstake_lp_tokens_panics(USER, TOKEN, 100));
    assert!(!manager.unstake_lp_tokens_panics(USER, TOKEN, 500));
    assert_eq!(manager.unstake_lp_tokens(USER, TOKEN, 500, 20), Err(Error::InsufficientBalance));
}

use exchange_core::errors::Error;
use exchange_core::vault::Vault;

const ADMIN: u64 = 1;
const USER: u64 = 2;
const TOKEN: u64 = 3;

fn vault() -> Vault {
    let mut vault = Vault::new();
    vault.initialize(ADMIN, TOKEN, 30, 30).unwrap();
    vault
}

#[test]
fn test_test_initialize() {
    let vault = vault();
    assert_eq!(vault.get_admin(), Ok(ADMIN));
    assert!(!vault.is_paused());
}

#[test]
fn test_deposit_and_withdraw() {
    let mut vault = vault();

    // Deposit
    let lp_tokens = vault.deposit(USER, 100_0000000).unwrap();
    assert!(lp_tokens > 0);

    let pool = vault.get_pool_info().unwrap();
    assert!(pool.total_liquidity > 0);
    assert_eq!(vault.get_lp_balance(USER), lp_tokens);

    // Withdraw
    let withdrawn = vault.withdraw(USER, lp_tokens).unwrap();
    assert!(withdrawn > 0);
    assert_eq!(vault.get_lp_balance(USER), 0);
}

#[test]
fn test_reserve_and_release() {
    let mut vault = vault();
    vault.deposit(USER, 100_0000000).unwrap();

    let pool_before = vault.get_pool_info().unwrap();
    let available_before = pool_before.available_liquidity;

    // Reserve
    vault.reserve_liquidity(50_0000000).unwrap();
    let pool_after = vault.get_pool_info().unwrap();
    assert_eq!(pool_after.available_liquidity, available_before - 50_0000000);
    assert_eq!(pool_after.reserved_liquidity, 50_0000000);

    // Release
    vault.release_liquidity(50_0000000).unwrap();
    let pool_final = vault.get_pool_info().unwrap();
    assert_eq!(pool_final.available_liquidity, available_before);
    assert_eq!(pool_final.reserved_liquidity, 0);
}

#[test]
fn test_test_pause_unpause() {
    let mut vault = vault();

    assert!(!vault.is_paused());

    vault.pause().unwrap();
    assert!(vault.is_paused());

    vault.unpause().unwrap();
    assert!(!vault.is_paused());
}

#[test]
fn test_vault_fees_and_amounts() {
    let mut vault = vault();
    // a fee of 0.3% on 1_000_000_000 is 3_000_000
    assert_eq!(vault.deposit(USER, 1_000_000_000), Ok(997_000_000));
    let pool = vault.get_pool_info().unwrap();
    assert_eq!(pool.total_liquidity, 997_000_000);
    assert_eq!(pool.accumulated_fees, 3_000_000);
    assert_eq!(vault.get_lp_price(), Ok(10_000_000));
    // withdrawing everything pays the liquidity less 0.3%
    assert_eq!(vault.withdraw(USER, 997_000_000), Ok(994_009_000));
    let pool = vault.get_pool_info().unwrap();
    assert_eq!(pool.total_liquidity, 0);
    assert_eq!(pool.total_lp_tokens, 0);
    assert_eq!(pool.accumulated_fees, 5_991_000);
}

#[test]
fn test_vault_errors() {
    let mut vault = Vault::new();
    assert_eq!(vault.deposit(USER, 10), Err(Error::NotInitialized));
    assert_eq!(vault.get_pool_info(), Err(Error::NotInitialized));
    assert_eq!(vault.get_lp_price(), Err(Error::NotInitialized));
    assert_eq!(vault.initialize(ADMIN, TOKEN, 1001, 0), Err(Error::InvalidParameter));
    assert_eq!(vault.initialize(ADMIN, TOKEN, 0, 1001), Err(Error::InvalidParameter));
    vault.initialize(ADMIN, TOKEN, 1000, 1000).unwrap();
    assert_eq!(vault.initialize(ADMIN, TOKEN, 0, 0), Err(Error::AlreadyInitialized));
    assert_eq!(vault.deposit(USER, 0), Err(Error::InvalidAmount));
    assert_eq!(vault.withdraw(USER, 1), Err(Error::InsufficientBalance));
    assert_eq!(vault.deposit(USER, 1000), Ok(900));
    assert_eq!(vault.reserve_liquidity(901), Err(Error::InsufficientLiquidity));
    assert_eq!(vault.reserve_liquidity(900), Ok(()));
    assert_eq!(vault.get_pool_info().unwrap().utilization_rate, 10_000);
    // everything is reserved: nothing can be withdrawn
    assert_eq!(vault.withdraw(USER, 900), Err(Error::InsufficientLiquidity));
    assert_eq!(vault.release_liquidity(0), Err(Error::InvalidAmount));
    assert_eq!(vault.release_liquidity(901), Err(Error::InsufficientLiquidity));
    vault.pause().unwrap();
    assert_eq!(vault.deposit(USER, 10), Err(Error::Paused));
    vault.set_admin(9).unwrap();
    assert_eq!(vault.get_admin(), Ok(9));
}

#[test]
fn test_lp_price_after_growth() {
    let mut vault = Vault::new();
    vault.initialize(ADMIN, TOKEN, 0, 0).unwrap();
    vault.deposit(USER, 1_000).unwrap();
    vault.deposit(4, 3_000).unwrap();
    assert_eq!(vault.get_lp_balance(4), 3_000);
    assert_eq!(vault.get_lp_price(), Ok(10_000_000));
}

#[test]
fn test_lp_supply_is_what_holders_hold() {
    let mut vault = vault();
    let other = 9;
    let a = vault.deposit(USER, 100_0000000).unwrap();
    let b = vault.deposit(other, 50_0000000).unwrap();
    vault.withdraw(USER, a / 4).unwrap();
    let pool = vault.get_pool_info().unwrap();
    assert_eq!(
        pool.total_lp_tokens,
        vault.get_lp_balance(USER) + vault.get_lp_balance(other)
    );
    assert_eq!(vault.get_lp_balance(USER), a - a / 4);
    assert_eq!(vault.get_lp_balance(other), b);
}

#[test]
fn test_uninitialized_vault_refuses_before_checking_amounts() {
    // deposits and withdrawals check initialization first, as `require_not_paused` does
    let mut vault = Vault::new();
    assert_eq!(vault.deposit(USER, 0), Err(Error::NotInitialized));
    assert_eq!(vault.withdraw(USER, 5), Err(Error::NotInitialized));
}

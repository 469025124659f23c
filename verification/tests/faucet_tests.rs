use exchange_core::constants::PRECISION;
use exchange_core::errors::Error;
use exchange_core::faucet::Faucet;

const ADMIN: u64 = 1;
const USER: u64 = 2;
const USDC: u64 = 3;

fn faucet(can_mint: bool) -> Faucet {
    let mut faucet = Faucet::new();
    faucet
        .initialize(ADMIN, USDC, 100 * PRECISION, 60, 3, 500 * PRECISION, can_mint)
        .unwrap();
    faucet
}

#[test]
fn test_claim_usdc_transfer_mode() {
    let mut faucet = faucet(false);

    // Refill faucet: the admin's transfer of 600 is checked by the faucet
    assert_eq!(faucet.refill_usdc(600 * PRECISION), Ok(()));
    let faucet_balance = 600 * PRECISION;

    let claimed = faucet.claim_usdc(USER, 1_000, faucet_balance).unwrap();
    assert_eq!(claimed, 100 * PRECISION);
    assert!(!faucet.can_mint());
}

#[test]
fn test_claim_usdc_mint_mode() {
    let mut faucet = faucet(true);

    // in mint mode the faucet's own balance does not matter
    let claimed = faucet.claim_usdc(USER, 1_000, 0).unwrap();
    assert_eq!(claimed, 100 * PRECISION);
    assert!(faucet.can_mint());
}

#[test]
fn test_faucet_depleted_in_transfer_mode() {
    let mut faucet = faucet(false);
    assert_eq!(faucet.claim_usdc(USER, 1_000, 99 * PRECISION), Err(Error::FaucetDepleted));
    assert_eq!(faucet.get_claim_info(USER).total_claims, 0);
}

#[test]
fn test_faucet_cooldown_and_limits() {
    let mut faucet = faucet(true);
    let day = 86_400;
    assert_eq!(faucet.claim_usdc(USER, day + 10, 0), Ok(100 * PRECISION));
    assert_eq!(faucet.get_next_claim_time(USER), day + 70);
    // within the cooldown
    assert_eq!(faucet.claim_usdc(USER, day + 69, 0), Err(Error::CooldownNotElapsed));
    assert_eq!(faucet.claim_usdc(USER, day + 70, 0), Ok(100 * PRECISION));
    assert_eq!(faucet.claim_usdc(USER, day + 200, 0), Ok(100 * PRECISION));
    // three claims a day at most
    assert_eq!(faucet.claim_usdc(USER, day + 400, 0), Err(Error::ClaimLimitExceeded));
    let record = faucet.get_claim_info(USER);
    assert_eq!(record.total_claims, 3);
    assert_eq!(record.amount_claimed, 300 * PRECISION);
    assert_eq!(record.token, USDC);
    // the next day starts over
    assert_eq!(faucet.claim_usdc(USER, 2 * day + 5, 0), Ok(100 * PRECISION));
    let record = faucet.get_claim_info(USER);
    assert_eq!(record.total_claims, 1);
    assert_eq!(record.amount_claimed, 100 * PRECISION);
}

#[test]
fn test_faucet_daily_amount_limit() {
    let mut faucet = Faucet::new();
    faucet.initialize(ADMIN, USDC, 100, 0, 10, 250, true).unwrap();
    assert_eq!(faucet.claim_usdc(USER, 10, 0), Ok(100));
    assert_eq!(faucet.claim_usdc(USER, 11, 0), Ok(100));
    assert_eq!(faucet.claim_usdc(USER, 12, 0), Err(Error::ClaimLimitExceeded));
}

#[test]
fn test_faucet_admin_and_pause() {
    let mut faucet = Faucet::new();
    assert_eq!(faucet.pause(), Err(Error::NotInitialized));
    assert_eq!(faucet.refill_usdc(5), Err(Error::NotInitialized));
    assert_eq!(
        faucet.initialize(ADMIN, USDC, 0, 60, 3, 500, false),
        Err(Error::InvalidAmount)
    );
    assert_eq!(
        faucet.initialize(ADMIN, USDC, 10, 60, 3, 0, false),
        Err(Error::InvalidAmount)
    );
    faucet.initialize(ADMIN, USDC, 10, 60, 3, 500, false).unwrap();
    assert_eq!(
        faucet.initialize(ADMIN, USDC, 10, 60, 3, 500, false),
        Err(Error::AlreadyInitialized)
    );
    assert_eq!(faucet.get_admin(), Ok(ADMIN));
    assert_eq!(faucet.get_usdc_token(), USDC);
    assert_eq!(faucet.refill_usdc(0), Err(Error::InvalidAmount));
    faucet.pause().unwrap();
    assert_eq!(faucet.claim_usdc(USER, 100, 1_000), Err(Error::Paused));
    faucet.unpause().unwrap();
    assert_eq!(faucet.claim_usdc(USER, 100, 1_000), Ok(10));
    assert_eq!(faucet.get_next_claim_time(9), 0);
}

#[test]
fn test_claims_over_a_day_stay_within_limits() {
    // 100 per claim, 60 s cooldown, 3 claims and 500 a day
    let mut faucet = faucet(true);
    let day = 24 * 3600;
    let start = 10 * day + 100;
    assert_eq!(faucet.claim_usdc(USER, start, 0), Ok(100 * PRECISION));
    assert_eq!(faucet.claim_usdc(USER, start + 59, 0), Err(Error::CooldownNotElapsed));
    assert_eq!(faucet.claim_usdc(USER, start + 60, 0), Ok(100 * PRECISION));
    assert_eq!(faucet.claim_usdc(USER, start + 120, 0), Ok(100 * PRECISION));
    assert_eq!(faucet.claim_usdc(USER, start + 180, 0), Err(Error::ClaimLimitExceeded));
    let record = faucet.get_claim_info(USER);
    assert_eq!(record.total_claims, 3);
    assert_eq!(record.amount_claimed, 300 * PRECISION);
    // the next day counts afresh
    assert_eq!(faucet.claim_usdc(USER, 11 * day, 0), Ok(100 * PRECISION));
    assert_eq!(faucet.get_claim_info(USER).total_claims, 1);
}

#[test]
fn test_claim_overflow_checks() {
    let mut faucet = faucet(true);
    assert!(!faucet.claim_usdc_panics(USER, 1_000));
    assert!(!faucet.next_claim_time_overflows(USER));
    faucet.claim_usdc(USER, 1_000, 0).unwrap();
    faucet.cooldown_secs = u64::MAX;
    assert!(faucet.claim_usdc_panics(USER, 2_000));
    assert!(faucet.next_claim_time_overflows(USER));
    // a faucet without a token cannot hand out claims
    let empty = Faucet::new();
    assert!(empty.claim_usdc_panics(USER, 1_000));
}

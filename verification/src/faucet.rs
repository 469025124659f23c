//! The USDC faucet: each user may claim a fixed amount, at most `max_claims_per_day` times and
//! up to `daily_limit` per day (days restart at midnight UTC), with a cooldown between claims.
//! In mint mode the faucet mints what it hands out; otherwise it hands out its own balance,
//! which the admin refills.
use std::collections::HashMap;
use vstd::prelude::*;

use crate::constants::SECONDS_PER_DAY;
use crate::errors::Error;
use crate::math::fits_i128;
use crate::types::{AccountId, ClaimRecord};
use crate::validation::validate_positive_amount;

verus! {

broadcast use vstd::std_specs::hash::group_hash_axioms;

/// The state of the faucet contract.
pub struct Faucet {
    pub initialized: bool,
    pub admin: AccountId,
    pub paused: bool,
    pub usdc_token: Option<AccountId>,
    pub amount_per_claim: i128,
    pub cooldown_secs: u64,
    pub max_claims_per_day: u32,
    pub daily_limit: i128,
    pub can_mint: bool,
    pub claims: HashMap<AccountId, ClaimRecord>,
}

/// The faucet's state as mathematical values.
pub struct FaucetView {
    pub initialized: bool,
    pub admin: AccountId,
    pub paused: bool,
    pub usdc_token: Option<AccountId>,
    pub amount_per_claim: i128,
    pub cooldown_secs: u64,
    pub max_claims_per_day: u32,
    pub daily_limit: i128,
    pub can_mint: bool,
    pub claims: Map<AccountId, ClaimRecord>,
}

impl View for Faucet {
    type V = FaucetView;

    open spec fn view(&self) -> FaucetView {
        FaucetView {
            initialized: self.initialized,
            admin: self.admin,
            paused: self.paused,
            usdc_token: self.usdc_token,
            amount_per_claim: self.amount_per_claim,
            cooldown_secs: self.cooldown_secs,
            max_claims_per_day: self.max_claims_per_day,
            daily_limit: self.daily_limit,
            can_mint: self.can_mint,
            claims: self.claims@,
        }
    }
}

/// The record of a claim history at time `now`: its daily counters restart when `now` falls
/// on another day than the last claim.
pub open spec fn day_refreshed(record: ClaimRecord, now: u64) -> ClaimRecord {
    if record.last_claim_time != 0 && now / SECONDS_PER_DAY != record.last_claim_time / SECONDS_PER_DAY {
        ClaimRecord { amount_claimed: 0, total_claims: 0, ..record }
    } else {
        record
    }
}

impl FaucetView {
    /// The claim record of `user` (an empty one for `token` when none is kept).
    pub open spec fn record_of(self, user: AccountId, token: AccountId) -> ClaimRecord {
        if self.claims.contains_key(user) {
            self.claims[user]
        } else {
            ClaimRecord { user, token, amount_claimed: 0, last_claim_time: 0, total_claims: 0 }
        }
    }

    /// The admin-only functions fail on a faucet that was never initialized.
    pub open spec fn initialized_check(self) -> Result<(), Error> {
        if !self.initialized {
            Err(Error::NotInitialized)
        } else {
            Ok(())
        }
    }

    /// The same state with the pause flag set to `paused`.
    pub open spec fn with_paused(self, paused: bool) -> FaucetView {
        FaucetView { paused, ..self }
    }

    /// The outcome of `Faucet::initialize`.
    pub open spec fn initialize_outcome(
        self,
        admin: AccountId,
        usdc_token: AccountId,
        amount_per_claim: i128,
        cooldown_secs: u64,
        max_claims_per_day: u32,
        daily_limit: i128,
        can_mint: bool,
    ) -> Result<FaucetView, Error> {
        if self.initialized {
            Err(Error::AlreadyInitialized)
        } else if amount_per_claim <= 0 || daily_limit <= 0 {
            Err(Error::InvalidAmount)
        } else {
            Ok(
                FaucetView {
                    initialized: true,
                    admin,
                    paused: false,
                    usdc_token: Some(usdc_token),
                    amount_per_claim,
                    cooldown_secs,
                    max_claims_per_day,
                    daily_limit,
                    can_mint,
                    ..self
                },
            )
        }
    }

    /// Claiming panics when the faucet has no token yet, when the end of the cooldown does not
    /// fit in `u64`, or when the day's total after the claim does not fit in `i128`.
    pub open spec fn claim_panics(self, user: AccountId, now: u64) -> bool {
        !self.paused && (self.usdc_token is None || {
            let record = self.record_of(user, self.usdc_token->Some_0);
            ||| record.last_claim_time != 0 && record.last_claim_time + self.cooldown_secs > u64::MAX
            ||| {
                &&& !(record.last_claim_time != 0 && now < record.last_claim_time + self.cooldown_secs)
                &&& day_refreshed(record, now).total_claims < self.max_claims_per_day
                &&& !fits_i128(day_refreshed(record, now).amount_claimed + self.amount_per_claim)
            }
        })
    }

    /// The outcome of `Faucet::claim_usdc` by `user` at time `now`, with `faucet_balance` the
    /// faucet's own token balance (which mint mode does not use): the new state and the amount
    /// handed out.
    pub open spec fn claim_outcome(self, user: AccountId, now: u64, faucet_balance: i128) -> Result<
        (FaucetView, i128),
        Error,
    > {
        if self.paused {
            Err(Error::Paused)
        } else {
            let record = self.record_of(user, self.usdc_token->Some_0);
            if record.last_claim_time != 0 && now < record.last_claim_time + self.cooldown_secs {
                Err(Error::CooldownNotElapsed)
            } else {
                let current = day_refreshed(record, now);
                if current.total_claims >= self.max_claims_per_day {
                    Err(Error::ClaimLimitExceeded)
                } else if current.amount_claimed + self.amount_per_claim > self.daily_limit {
                    Err(Error::ClaimLimitExceeded)
                } else if !self.can_mint && faucet_balance < self.amount_per_claim {
                    Err(Error::FaucetDepleted)
                } else {
                    Ok(
                        (
                            FaucetView {
                                claims: self.claims.insert(
                                    user,
                                    ClaimRecord {
                                        amount_claimed: (current.amount_claimed + self.amount_per_claim) as i128,
                                        last_claim_time: now,
                                        total_claims: (current.total_claims + 1) as u32,
                                        ..current
                                    },
                                ),
                                ..self
                            },
                            self.amount_per_claim,
                        ),
                    )
                }
            }
        }
    }
}

impl FaucetView {
    /// The well-formedness of a faucet: the amount of a claim, the daily limit and every amount
    /// claimed are non-negative.
    pub open spec fn wf(self) -> bool {
        &&& self.amount_per_claim >= 0
        &&& self.daily_limit >= 0
        &&& forall|user: AccountId| #[trigger] self.claims.contains_key(user) ==> self.claims[user].amount_claimed >= 0
    }

    /// The state after `user` claims at each of `times` in turn, the faucet holding
    /// `balances[i]` at the `i`-th claim; `None` when one of the claims fails.
    pub open spec fn claims_run(self, user: AccountId, times: Seq<u64>, balances: Seq<i128>) -> Option<FaucetView>
        decreases times.len(),
    {
        if times.len() == 0 {
            Some(self)
        } else {
            match self.claims_run(user, times.drop_last(), balances.drop_last()) {
                None => None,
                Some(before) => match before.claim_outcome(user, times.last(), balances.last()) {
                    Ok((after, _)) => Some(after),
                    Err(_) => None,
                },
            }
        }
    }
}

/// How many of `times` fall on day `day` (days counted from the epoch, in UTC).
pub open spec fn day_count(times: Seq<u64>, day: int) -> nat
    decreases times.len(),
{
    if times.len() == 0 {
        0
    } else {
        day_count(times.drop_last(), day) + if times.last() / SECONDS_PER_DAY == day {
            1nat
        } else {
            0nat
        }
    }
}

impl Faucet {
    /// A faucet contract that holds no state yet.
    pub fn new() -> (f: Faucet)
        ensures
            !f@.initialized,
            !f@.paused,
            f@.usdc_token is None,
            f@.claims == Map::<AccountId, ClaimRecord>::empty(),
            f@.wf(),
    {
        Faucet {
            initialized: false,
            admin: 0,
            paused: false,
            usdc_token: None,
            amount_per_claim: 0,
            cooldown_secs: 0,
            max_claims_per_day: 0,
            daily_limit: 0,
            can_mint: false,
            claims: HashMap::new(),
        }
    }

    /// Check that the faucet was initialized and return the admin, whose authorization the
    /// admin-only functions then demand.
    pub fn require_admin(&self) -> (r: Result<AccountId, Error>)
        ensures
            r == (if self@.initialized {
                Ok::<AccountId, Error>(self@.admin)
            } else {
                Err(Error::NotInitialized)
            }),
    {
        if !self.initialized {
            return Err(Error::NotInitialized);
        }
        Ok(self.admin)
    }

    /// Fail with `Paused` while the faucet is paused.
    pub fn require_not_paused(&self) -> (r: Result<(), Error>)
        ensures
            r == (if self@.paused {
                Err(Error::Paused)
            } else {
                Ok::<(), Error>(())
            }),
    {
        if self.paused {
            return Err(Error::Paused);
        }
        Ok(())
    }

    /// Initialize the faucet: its admin, its token, the amount of one claim, the cooldown
    /// between claims, the daily claim count and amount limits, and whether it mints.
    pub fn initialize(
        &mut self,
        admin: AccountId,
        usdc_token: AccountId,
        amount_per_claim: i128,
        cooldown_secs: u64,
        max_claims_per_day: u32,
        daily_limit: i128,
        can_mint: bool,
    ) -> (r: Result<(), Error>)
        ensures
            match old(self)@.initialize_outcome(
                admin,
                usdc_token,
                amount_per_claim,
                cooldown_secs,
                max_claims_per_day,
                daily_limit,
                can_mint,
            ) {
                Ok(v) => r == Ok::<(), Error>(()) && final(self)@ == v,
                Err(e) => r == Err::<(), Error>(e) && final(self)@ == old(self)@,
            },
    {
        if self.initialized {
            return Err(Error::AlreadyInitialized);
        }
        validate_positive_amount(amount_per_claim)?;
        validate_positive_amount(daily_limit)?;
        self.admin = admin;
        self.usdc_token = Some(usdc_token);
        self.amount_per_claim = amount_per_claim;
        self.cooldown_secs = cooldown_secs;
        self.max_claims_per_day = max_claims_per_day;
        self.daily_limit = daily_limit;
        self.can_mint = can_mint;
        self.initialized = true;
        self.paused = false;
        Ok(())
    }

    /// Check a refill of `amount` (admin only); the caller then moves `amount` tokens from the
    /// admin to the faucet.
    pub fn refill_usdc(&self, amount: i128) -> (r: Result<(), Error>)
        ensures
            r == (if !self@.initialized {
                Err(Error::NotInitialized)
            } else if amount <= 0 {
                Err(Error::InvalidAmount)
            } else {
                Ok::<(), Error>(())
            }),
    {
        self.require_admin()?;
        validate_positive_amount(amount)?;
        Ok(())
    }

    fn claim_record(&self, user: AccountId, token: AccountId) -> (r: ClaimRecord)
        ensures
            r == self@.record_of(user, token),
    {
        match self.claims.get(&user) {
            Some(rec) => *rec,
            None => ClaimRecord { user, token, amount_claimed: 0, last_claim_time: 0, total_claims: 0 },
        }
    }

    /// Whether a claim by `user` at time `now` would overflow: with no token set, at the end of
    /// the cooldown, or in the day's total after the claim.
    pub fn claim_usdc_panics(&self, user: AccountId, now: u64) -> (r: bool)
        ensures
            r == self@.claim_panics(user, now),
    {
        if self.paused {
            return false;
        }
        let token = match self.usdc_token {
            Some(t) => t,
            None => return true,
        };
        let record = self.claim_record(user, token);
        if record.last_claim_time != 0 {
            if record.last_claim_time > u64::MAX - self.cooldown_secs {
                return true;
            }
            if now < record.last_claim_time + self.cooldown_secs {
                return false;
            }
        }
        let new_day = record.last_claim_time != 0 && now / SECONDS_PER_DAY != record.last_claim_time
            / SECONDS_PER_DAY;
        let (claimed, count) = if new_day {
            (0i128, 0u32)
        } else {
            (record.amount_claimed, record.total_claims)
        };
        count < self.max_claims_per_day && claimed.checked_add(self.amount_per_claim).is_none()
    }

    /// Claim one amount for `user` at time `now`; `faucet_balance` is the faucet's own token
    /// balance, which must cover the claim unless the faucet mints. Returns the amount that the
    /// caller then mints or transfers to `user`.
    pub fn claim_usdc(&mut self, user: AccountId, now: u64, faucet_balance: i128) -> (r: Result<i128, Error>)
        requires
            !old(self)@.claim_panics(user, now),
        ensures
            match old(self)@.claim_outcome(user, now, faucet_balance) {
                Ok((v, amount)) => r == Ok::<i128, Error>(amount) && final(self)@ == v,
                Err(e) => r == Err::<i128, Error>(e) && final(self)@ == old(self)@,
            },
    {
        self.require_not_paused()?;
        let token = match self.usdc_token {
            Some(t) => t,
            None => return Err(Error::NotInitialized),
        };
        let amount = self.amount_per_claim;
        let mut record = self.claim_record(user, token);
        if record.last_claim_time != 0 && now < record.last_claim_time + self.cooldown_secs {
            return Err(Error::CooldownNotElapsed);
        }
        if record.last_claim_time != 0 && now / SECONDS_PER_DAY != record.last_claim_time / SECONDS_PER_DAY {
            record.amount_claimed = 0;
            record.total_claims = 0;
        }
        if record.total_claims >= self.max_claims_per_day {
            return Err(Error::ClaimLimitExceeded);
        }
        if record.amount_claimed + amount > self.daily_limit {
            return Err(Error::ClaimLimitExceeded);
        }
        if !self.can_mint && faucet_balance < amount {
            return Err(Error::FaucetDepleted);
        }
        record.amount_claimed = record.amount_claimed + amount;
        record.last_claim_time = now;
        record.total_claims = record.total_claims + 1;
        self.claims.insert(user, record);
        Ok(amount)
    }

    /// The claim record of `user`.
    pub fn get_claim_info(&self, user: AccountId) -> (r: ClaimRecord)
        requires
            self@.usdc_token is Some,
        ensures
            r == self@.record_of(user, self@.usdc_token->Some_0),
    {
        let token = match self.usdc_token {
            Some(t) => t,
            None => 0,
        };
        self.claim_record(user, token)
    }

    /// Whether the end of the cooldown after the last claim of `user` does not fit in `u64`.
    pub fn next_claim_time_overflows(&self, user: AccountId) -> (r: bool)
        requires
            self@.usdc_token is Some,
        ensures
            r == (self@.record_of(user, self@.usdc_token->Some_0).last_claim_time + self@.cooldown_secs
                > u64::MAX),
    {
        let record = self.get_claim_info(user);
        record.last_claim_time > u64::MAX - self.cooldown_secs
    }

    /// When `user` may claim next: zero before the first claim, otherwise the end of the
    /// cooldown after the last claim.
    pub fn get_next_claim_time(&self, user: AccountId) -> (r: u64)
        requires
            self@.usdc_token is Some,
            self@.record_of(user, self@.usdc_token->Some_0).last_claim_time + self@.cooldown_secs
                <= u64::MAX,
        ensures
            ({
                let record = self@.record_of(user, self@.usdc_token->Some_0);
                r == (if record.last_claim_time == 0 {
                    0
                } else {
                    record.last_claim_time + self@.cooldown_secs
                })
            }),
    {
        let record = self.get_claim_info(user);
        if record.last_claim_time == 0 {
            0
        } else {
            record.last_claim_time + self.cooldown_secs
        }
    }

    /// Pause claims (admin only).
    pub fn pause(&mut self) -> (r: Result<(), Error>)
        ensures
            r == old(self)@.initialized_check(),
            final(self)@ == (if old(self)@.initialized {
                old(self)@.with_paused(true)
            } else {
                old(self)@
            }),
    {
        self.require_admin()?;
        self.paused = true;
        Ok(())
    }

    /// Resume claims (admin only).
    pub fn unpause(&mut self) -> (r: Result<(), Error>)
        ensures
            r == old(self)@.initialized_check(),
            final(self)@ == (if old(self)@.initialized {
                old(self)@.with_paused(false)
            } else {
                old(self)@
            }),
    {
        self.require_admin()?;
        self.paused = false;
        Ok(())
    }

    /// The token that the faucet hands out.
    pub fn get_usdc_token(&self) -> (r: AccountId)
        requires
            self@.usdc_token is Some,
        ensures
            r == self@.usdc_token->Some_0,
    {
        match self.usdc_token {
            Some(t) => t,
            None => 0,
        }
    }

    /// Whether the faucet mints what it hands out.
    pub fn can_mint(&self) -> (r: bool)
        ensures
            r == self@.can_mint,
    {
        self.can_mint
    }

    /// The admin of the faucet.
    pub fn get_admin(&self) -> (r: Result<AccountId, Error>)
        ensures
            r == (if self@.initialized {
                Ok::<AccountId, Error>(self@.admin)
            } else {
                Err(Error::NotInitialized)
            }),
    {
        self.require_admin()
    }
}

/// After a successful claim the user's record stays within the daily limits: no more claims
/// than `max_claims_per_day` and no more than `daily_limit` claimed, with the claim time stamped.
pub proof fn lemma_claim_within_daily_limits(v: FaucetView, user: AccountId, now: u64, faucet_balance: i128)
    requires
        !v.claim_panics(user, now),
        v.claim_outcome(user, now, faucet_balance) is Ok,
    ensures
        ({
            let (after, amount) = v.claim_outcome(user, now, faucet_balance)->Ok_0;
            let record = after.claims[user];
            &&& amount == v.amount_per_claim
            &&& record.total_claims <= v.max_claims_per_day
            &&& record.amount_claimed <= v.daily_limit
            &&& record.last_claim_time == now
        }),
{
}

/// A second claim at the same time as a successful one waits for the cooldown, when there is
/// one.
pub proof fn lemma_claim_cooldown(v: FaucetView, user: AccountId, now: u64, faucet_balance: i128)
    requires
        v.claim_outcome(user, now, faucet_balance) is Ok,
        v.cooldown_secs > 0,
        now > 0,
        now + v.cooldown_secs <= u64::MAX,
    ensures
        v.claim_outcome(user, now, faucet_balance)->Ok_0.0.claim_outcome(user, now, faucet_balance) == Err::<
            (FaucetView, i128),
            Error,
        >(Error::CooldownNotElapsed),
{
}

/// On a new day the claim counters start over: a user who claimed on an earlier day and has
/// waited out the cooldown is held only to that day's limits.
pub proof fn lemma_claim_counters_restart_daily(v: FaucetView, user: AccountId, now: u64)
    requires
        v.usdc_token is Some,
        v.claims.contains_key(user),
        v.claims[user].last_claim_time != 0,
        now / SECONDS_PER_DAY != v.claims[user].last_claim_time / SECONDS_PER_DAY,
    ensures
        day_refreshed(v.record_of(user, v.usdc_token->Some_0), now).amount_claimed == 0,
        day_refreshed(v.record_of(user, v.usdc_token->Some_0), now).total_claims == 0,
{
}

/// While the faucet is paused, claims fail with `Paused`.
pub proof fn lemma_paused_faucet_refuses(v: FaucetView, user: AccountId, now: u64, faucet_balance: i128)
    requires
        v.paused,
    ensures
        v.claim_outcome(user, now, faucet_balance) == Err::<(FaucetView, i128), Error>(Error::Paused),
{
}

/// Initializing a faucet and claiming keep it well formed.
pub proof fn lemma_faucet_operations_keep_wf(
    v: FaucetView,
    admin: AccountId,
    usdc_token: AccountId,
    amount_per_claim: i128,
    cooldown_secs: u64,
    max_claims_per_day: u32,
    daily_limit: i128,
    can_mint: bool,
    user: AccountId,
    now: u64,
    faucet_balance: i128,
)
    requires
        v.wf(),
    ensures
        v.initialize_outcome(
            admin,
            usdc_token,
            amount_per_claim,
            cooldown_secs,
            max_claims_per_day,
            daily_limit,
            can_mint,
        ) is Ok ==> v.initialize_outcome(
            admin,
            usdc_token,
            amount_per_claim,
            cooldown_secs,
            max_claims_per_day,
            daily_limit,
            can_mint,
        )->Ok_0.wf(),
        v.claim_outcome(user, now, faucet_balance) is Ok ==> v.claim_outcome(user, now, faucet_balance)->Ok_0.0.wf(),
{
}

/// No time of `times` falls on a day after all of them.
proof fn lemma_day_count_zero(times: Seq<u64>, day: int)
    requires
        forall|i: int| 0 <= i < times.len() ==> times[i] / SECONDS_PER_DAY < day,
    ensures
        day_count(times, day) == 0,
    decreases times.len(),
{
    if times.len() > 0 {
        lemma_day_count_zero(times.drop_last(), day);
    }
}

/// What a run of successful claims leaves behind: the faucet's settings unchanged, and a record
/// of `user` stamped with the last claim that counts at least the claims of the last day.
proof fn lemma_claims_run_record(v: FaucetView, user: AccountId, times: Seq<u64>, balances: Seq<i128>)
    requires
        v.wf(),
        balances.len() == times.len(),
        forall|i: int| 0 <= i < times.len() ==> times[i] > 0,
        forall|i: int, j: int| 0 <= i < j < times.len() ==> times[i] <= times[j],
        v.claims_run(user, times, balances) is Some,
    ensures
        ({
            let after = v.claims_run(user, times, balances)->Some_0;
            &&& after.wf()
            &&& after.paused == v.paused
            &&& after.usdc_token == v.usdc_token
            &&& after.amount_per_claim == v.amount_per_claim
            &&& after.cooldown_secs == v.cooldown_secs
            &&& after.max_claims_per_day == v.max_claims_per_day
            &&& after.daily_limit == v.daily_limit
            &&& after.can_mint == v.can_mint
            &&& times.len() > 0 ==> {
                let record = after.claims[user];
                let last_day = times.last() / SECONDS_PER_DAY;
                &&& after.claims.contains_key(user)
                &&& record.last_claim_time == times.last()
                &&& record.total_claims >= day_count(times, last_day as int)
                &&& record.amount_claimed >= day_count(times, last_day as int) * v.amount_per_claim
            }
            &&& forall|i: int| #![trigger times[i]] 0 <= i < times.len() - 1 ==> times[i + 1] >= times[i] + v.cooldown_secs
            &&& forall|day: int| {
                &&& #[trigger] day_count(times, day) <= v.max_claims_per_day
                &&& day_count(times, day) * v.amount_per_claim <= v.daily_limit
            }
        }),
    decreases times.len(),
{
    if times.len() == 0 {
        assert forall|day: int| {
            &&& #[trigger] day_count(times, day) <= v.max_claims_per_day
            &&& day_count(times, day) * v.amount_per_claim <= v.daily_limit
        } by {
            assert(day_count(times, day) == 0);
            assert(0 * v.amount_per_claim == 0);
        }
        return;
    }
    let prefix = times.drop_last();
    let prefix_balances = balances.drop_last();
    assert forall|i: int, j: int| 0 <= i < j < prefix.len() implies prefix[i] <= prefix[j] by {
        assert(prefix[i] == times[i] && prefix[j] == times[j]);
    }
    assert forall|i: int| 0 <= i < prefix.len() implies prefix[i] > 0 by {
        assert(prefix[i] == times[i]);
    }
    lemma_claims_run_record(v, user, prefix, prefix_balances);
    let before = v.claims_run(user, prefix, prefix_balances)->Some_0;
    let after = v.claims_run(user, times, balances)->Some_0;
    let t = times.last();
    let amount = v.amount_per_claim;
    let record = before.record_of(user, before.usdc_token->Some_0);
    let current = day_refreshed(record, t);
    let day = t / SECONDS_PER_DAY;
    assert(before.claim_outcome(user, t, balances.last()) is Ok);
    assert(after == before.claim_outcome(user, t, balances.last())->Ok_0.0);
    assert(current.amount_claimed >= 0);
    assert forall|d: int| d != day implies #[trigger] day_count(times, d) == day_count(prefix, d) by {}
    assert(day_count(times, day as int) == day_count(prefix, day as int) + 1);
    if prefix.len() == 0 {
        assert(day_count(prefix, day as int) == 0);
    } else {
        let p = prefix.last();
        assert(p == times[times.len() - 2]);
        assert(p <= t);
        vstd::arithmetic::div_mod::lemma_div_is_ordered(p as int, t as int, SECONDS_PER_DAY as int);
        if p / SECONDS_PER_DAY == day {
            assert(current == record);
        } else {
            assert forall|i: int| 0 <= i < prefix.len() implies prefix[i] / SECONDS_PER_DAY < day by {
                assert(prefix[i] == times[i]);
                assert(prefix[i] <= p);
                vstd::arithmetic::div_mod::lemma_div_is_ordered(prefix[i] as int, p as int, SECONDS_PER_DAY as int);
            }
            lemma_day_count_zero(prefix, day as int);
        }
    }
    let n = day_count(prefix, day as int);
    if n == 0 {
        assert(n * amount == 0);
    }
    assert(current.total_claims >= n);
    assert(current.amount_claimed >= n * amount);
    assert((n + 1) * amount == n * amount + amount) by (nonlinear_arith);
    assert forall|i: int| #![trigger times[i]] 0 <= i < times.len() - 1 implies times[i + 1] >= times[i] + v.cooldown_secs by {
        if i < times.len() - 2 {
            assert(prefix[i] == times[i] && prefix[i + 1] == times[i + 1]);
        }
    }
    assert forall|d: int| {
        &&& #[trigger] day_count(times, d) <= v.max_claims_per_day
        &&& day_count(times, d) * v.amount_per_claim <= v.daily_limit
    } by {
        if d != day {
            assert(day_count(times, d) == day_count(prefix, d));
        }
    }
}

/// Over a run of successful claims by one user at increasing times, consecutive claims are at
/// least the cooldown apart, and the claims of any one day number at most `max_claims_per_day`
/// and hand out at most `daily_limit` in all.
pub proof fn lemma_claims_spaced_and_within_daily_limits(
    v: FaucetView,
    user: AccountId,
    times: Seq<u64>,
    balances: Seq<i128>,
)
    requires
        v.wf(),
        balances.len() == times.len(),
        forall|i: int| 0 <= i < times.len() ==> times[i] > 0,
        forall|i: int, j: int| 0 <= i < j < times.len() ==> times[i] <= times[j],
        v.claims_run(user, times, balances) is Some,
    ensures
        forall|i: int| #![trigger times[i]] 0 <= i < times.len() - 1 ==> times[i + 1] >= times[i] + v.cooldown_secs,
        forall|day: int|
            #[trigger] day_count(times, day) <= v.max_claims_per_day && day_count(times, day)
                * v.amount_per_claim <= v.daily_limit,
{
    lemma_claims_run_record(v, user, times, balances);
}

} // verus!

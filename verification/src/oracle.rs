//! The oracle manager: registered price feeds, price updates guarded by a deviation check
//! (unless the feed's circuit breaker is enabled), and price reads guarded by a staleness check.
use std::collections::HashMap;
use vstd::prelude::*;

use crate::errors::Error;
use crate::types::{AccountId, AssetId, PriceData, PriceFeed};
use crate::validation::{
    deviation_bps, deviation_computable, deviation_is_computable, is_stale, validate_price, validate_price_deviation,
    validate_price_freshness,
};

verus! {

broadcast use vstd::std_specs::hash::group_hash_axioms;

/// Whether `validate_price_update` can compute the deviation between two price updates.
pub open spec fn update_check_computable(previous: PriceData, new: PriceData) -> bool {
    previous.price != 0 && new.price != 0 ==> deviation_computable(previous.price as int, new.price as int)
}

/// Validate a price update against the previous price: the two may not deviate by more than
/// the feed's `max_deviation_bps`.
pub fn validate_price_update(previous: &PriceData, new: &PriceData, feed: &PriceFeed) -> (r: Result<(), Error>)
    requires
        update_check_computable(*previous, *new),
    ensures
        previous.price == 0 || new.price == 0 ==> r == Err::<(), Error>(Error::InvalidPrice),
        previous.price != 0 && new.price != 0 ==> r == (if deviation_bps(
            previous.price as int,
            new.price as int,
        ) > feed.max_deviation_bps {
            Err(Error::PriceDeviationTooHigh)
        } else {
            Ok(())
        }),
{
    validate_price_deviation(previous.price, new.price, feed.max_deviation_bps)
}

/// The state of the oracle manager contract.
pub struct OracleManager {
    pub initialized: bool,
    pub admin: AccountId,
    pub paused: bool,
    pub feeds: HashMap<AssetId, PriceFeed>,
    pub prices: HashMap<AssetId, PriceData>,
}

/// The oracle manager's state as mathematical values.
pub struct OracleManagerView {
    pub initialized: bool,
    pub admin: AccountId,
    pub paused: bool,
    pub feeds: Map<AssetId, PriceFeed>,
    pub prices: Map<AssetId, PriceData>,
}

impl View for OracleManager {
    type V = OracleManagerView;

    open spec fn view(&self) -> OracleManagerView {
        OracleManagerView {
            initialized: self.initialized,
            admin: self.admin,
            paused: self.paused,
            feeds: self.feeds@,
            prices: self.prices@,
        }
    }
}

impl OracleManagerView {
    /// Some functions fail on a manager that was never initialized.
    pub open spec fn initialized_check(self) -> Result<(), Error> {
        if !self.initialized {
            Err(Error::NotInitialized)
        } else {
            Ok(())
        }
    }

    /// The same state with the pause flag set to `paused`.
    pub open spec fn with_paused(self, paused: bool) -> OracleManagerView {
        OracleManagerView { paused, ..self }
    }

    /// The same state with `admin` as the admin.
    pub open spec fn with_admin(self, admin: AccountId) -> OracleManagerView {
        OracleManagerView { admin, ..self }
    }

    /// The same state with `feed` as the feed of `asset`.
    pub open spec fn with_feed(self, asset: AssetId, feed: PriceFeed) -> OracleManagerView {
        OracleManagerView { feeds: self.feeds.insert(asset, feed), ..self }
    }

    /// The outcome of `OracleManager::initialize`: a second initialization is refused as
    /// `Unauthorized`.
    pub open spec fn initialize_outcome(self, admin: AccountId) -> Result<OracleManagerView, Error> {
        if self.initialized {
            Err(Error::Unauthorized)
        } else {
            Ok(OracleManagerView { initialized: true, admin, paused: false, ..self })
        }
    }

    /// Updating a price panics when the deviation check is reached and cannot be computed.
    pub open spec fn update_panics(self, asset: AssetId, price: i128, now: u64) -> bool {
        &&& !self.paused
        &&& price > 0
        &&& self.prices.contains_key(asset)
        &&& self.feeds.contains_key(asset)
        &&& !self.feeds[asset].circuit_breaker_enabled
        &&& !update_check_computable(
            self.prices[asset],
            PriceData { asset, price, confidence: 0, timestamp: now, expo: 0 },
        )
    }

    /// The outcome of `OracleManager::update_price` at time `now`.
    pub open spec fn update_outcome(self, asset: AssetId, price: i128, confidence: u32, expo: i32, now: u64) -> Result<
        OracleManagerView,
        Error,
    > {
        let data = PriceData { asset, price, confidence, timestamp: now, expo };
        if self.paused {
            Err(Error::Paused)
        } else if price <= 0 {
            Err(Error::InvalidPrice)
        } else if self.prices.contains_key(asset) && !self.feeds.contains_key(asset) {
            Err(Error::InvalidPriceFeed)
        } else if self.prices.contains_key(asset) && !self.feeds[asset].circuit_breaker_enabled && (
        self.prices[asset].price == 0 || deviation_bps(self.prices[asset].price as int, price as int)
            > self.feeds[asset].max_deviation_bps) {
            if self.prices[asset].price == 0 {
                Err(Error::InvalidPrice)
            } else {
                Err(Error::PriceDeviationTooHigh)
            }
        } else {
            Ok(OracleManagerView { prices: self.prices.insert(asset, data), ..self })
        }
    }

    /// The price of `asset` as read at time `now`.
    pub open spec fn price_query(self, asset: AssetId, now: u64) -> Result<PriceData, Error> {
        if self.paused {
            Err(Error::Paused)
        } else if !self.prices.contains_key(asset) {
            Err(Error::OracleUnavailable)
        } else if !self.feeds.contains_key(asset) {
            Err(Error::InvalidPriceFeed)
        } else if is_stale(self.prices[asset].timestamp, now, self.feeds[asset].max_staleness) {
            Err(Error::PriceStale)
        } else {
            Ok(self.prices[asset])
        }
    }

    /// The prices of `assets`, in order, as read at time `now`: the first failing read decides
    /// the error.
    pub open spec fn prices_query(self, assets: Seq<AssetId>, now: u64) -> Result<Seq<PriceData>, Error>
        decreases assets.len(),
    {
        if assets.len() == 0 {
            Ok(Seq::empty())
        } else {
            match self.prices_query(assets.drop_last(), now) {
                Err(e) => Err(e),
                Ok(found) => match self.price_query(assets.last(), now) {
                    Err(e) => Err(e),
                    Ok(p) => Ok(found.push(p)),
                },
            }
        }
    }
}

impl OracleManager {
    /// An oracle manager contract that holds no state yet.
    pub fn new() -> (m: OracleManager)
        ensures
            !m@.initialized,
            !m@.paused,
            m@.feeds == Map::<AssetId, PriceFeed>::empty(),
            m@.prices == Map::<AssetId, PriceData>::empty(),
    {
        OracleManager {
            initialized: false,
            admin: 0,
            paused: false,
            feeds: HashMap::new(),
            prices: HashMap::new(),
        }
    }

    /// Fail with `NotInitialized` unless the manager was initialized.
    pub fn require_initialized(&self) -> (r: Result<(), Error>)
        ensures
            r == self@.initialized_check(),
    {
        if !self.initialized {
            return Err(Error::NotInitialized);
        }
        Ok(())
    }

    /// Check that the manager was initialized and return the admin, whose authorization the
    /// admin-only functions then demand.
    pub fn require_admin(&self) -> (r: Result<AccountId, Error>)
        ensures
            r == (if self@.initialized {
                Ok::<AccountId, Error>(self@.admin)
            } else {
                Err(Error::NotInitialized)
            }),
    {
        self.require_initialized()?;
        Ok(self.admin)
    }

    /// Fail with `Paused` while the manager is paused.
    pub fn require_not_paused(&self) -> (r: Result<(), Error>)
        ensures
            r == (if self@.paused {
                Err(Error::Paused)
            } else {
                Ok::<(), Error>(())
            }),
    {
        if self.paused {
            return Err(Error::Paused);
        }
        Ok(())
    }

    /// Initialize the manager with its admin; a second initialization is refused.
    pub fn initialize(&mut self, admin: AccountId) -> (r: Result<(), Error>)
        ensures
            match old(self)@.initialize_outcome(admin) {
                Ok(v) => r == Ok::<(), Error>(()) && final(self)@ == v,
                Err(e) => r == Err::<(), Error>(e) && final(self)@ == old(self)@,
            },
    {
        if self.initialized {
            return Err(Error::Unauthorized);
        }
        self.admin = admin;
        self.initialized = true;
        self.paused = false;
        Ok(())
    }

    /// Register (or replace) the price feed of `asset`, with its circuit breaker disabled
    /// (admin only).
    pub fn register_feed(&mut self, asset: AssetId, pyth_feed_id: Vec<u8>, max_staleness: u64, max_deviation_bps: u32) -> (r:
        Result<(), Error>)
        ensures
            r == old(self)@.initialized_check(),
            final(self)@ == (if old(self)@.initialized {
                old(self)@.with_feed(
                    asset,
                    PriceFeed {
                        asset,
                        pyth_feed_id,
                        max_staleness,
                        max_deviation_bps,
                        circuit_breaker_enabled: false,
                    },
                )
            } else {
                old(self)@
            }),
    {
        self.require_admin()?;
        let feed = PriceFeed {
            asset,
            pyth_feed_id,
            max_staleness,
            max_deviation_bps,
            circuit_breaker_enabled: false,
        };
        self.feeds.insert(asset, feed);
        Ok(())
    }

    /// Whether publishing `price` for `asset` at time `now` would overflow in the deviation
    /// check against the previous price.
    pub fn update_price_panics(&self, asset: AssetId, price: i128, now: u64) -> (r: bool)
        ensures
            r == self@.update_panics(asset, price, now),
    {
        if self.paused || price <= 0 {
            return false;
        }
        match (self.prices.get(&asset), self.feeds.get(&asset)) {
            (Some(previous), Some(feed)) => !feed.circuit_breaker_enabled && previous.price != 0
                && !deviation_is_computable(previous.price, price),
            _ => false,
        }
    }

    /// Publish `price` for `asset` at time `now`. When the asset already has a price and its
    /// feed's circuit breaker is disabled, the new price may not deviate from the previous one
    /// by more than the feed allows.
    pub fn update_price(&mut self, asset: AssetId, price: i128, confidence: u32, expo: i32, now: u64) -> (r: Result<
        (),
        Error,
    >)
        requires
            !old(self)@.update_panics(asset, price, now),
        ensures
            match old(self)@.update_outcome(asset, price, confidence, expo, now) {
                Ok(v) => r == Ok::<(), Error>(()) && final(self)@ == v,
                Err(e) => r == Err::<(), Error>(e) && final(self)@ == old(self)@,
            },
    {
        self.require_not_paused()?;
        validate_price(price)?;
        let data = PriceData { asset, price, confidence, timestamp: now, expo };
        match self.prices.get(&asset) {
            Some(existing) => {
                let feed = match self.feeds.get(&asset) {
                    Some(f) => f,
                    None => return Err(Error::InvalidPriceFeed),
                };
                if !feed.circuit_breaker_enabled {
                    validate_price_update(existing, &data, feed)?;
                }
            },
            None => {},
        }
        self.prices.insert(asset, data);
        Ok(())
    }

    /// The price of `asset` at time `now`; it must exist, have a feed and not be stale.
    pub fn get_price(&self, asset: AssetId, now: u64) -> (r: Result<PriceData, Error>)
        ensures
            r == self@.price_query(asset, now),
    {
        self.require_not_paused()?;
        let data = match self.prices.get(&asset) {
            Some(d) => *d,
            None => return Err(Error::OracleUnavailable),
        };
        let feed = match self.feeds.get(&asset) {
            Some(f) => f,
            None => return Err(Error::InvalidPriceFeed),
        };
        validate_price_freshness(data.timestamp, now, feed.max_staleness)?;
        Ok(data)
    }

    /// The prices of several assets at time `now`, in the order given.
    pub fn get_prices(&self, assets: &Vec<AssetId>, now: u64) -> (r: Result<Vec<PriceData>, Error>)
        ensures
            self@.paused ==> r == Err::<Vec<PriceData>, Error>(Error::Paused),
            !self@.paused ==> match self@.prices_query(assets@, now) {
                Ok(s) => r is Ok && r->Ok_0@ == s,
                Err(e) => r == Err::<Vec<PriceData>, Error>(e),
            },
    {
        self.require_not_paused()?;
        let mut prices: Vec<PriceData> = Vec::new();
        let mut i: usize = 0;
        while i < assets.len()
            invariant
                i <= assets@.len(),
                self@.prices_query(assets@.take(i as int), now) == Ok::<Seq<PriceData>, Error>(prices@),
            decreases assets@.len() - i,
        {
            let price = self.get_price(assets[i], now);
            assert(assets@.take(i + 1).drop_last() == assets@.take(i as int));
            assert(assets@.take(i + 1).last() == assets@[i as int]);
            match price {
                Ok(p) => prices.push(p),
                Err(e) => {
                    proof {
                        lemma_prices_query_stops(self@, assets@, (i + 1) as int, now);
                    }
                    return Err(e);
                },
            }
            i = i + 1;
        }
        assert(assets@.take(assets@.len() as int) == assets@);
        Ok(prices)
    }

    /// Enable or disable the circuit breaker of the feed of `asset` (admin only).
    pub fn set_circuit_breaker(&mut self, asset: AssetId, enabled: bool) -> (r: Result<(), Error>)
        ensures
            !old(self)@.initialized ==> r == Err::<(), Error>(Error::NotInitialized) && final(self)@
                == old(self)@,
            old(self)@.initialized && !old(self)@.feeds.contains_key(asset) ==> r == Err::<(), Error>(
                Error::InvalidPriceFeed,
            ) && final(self)@ == old(self)@,
            old(self)@.initialized && old(self)@.feeds.contains_key(asset) ==> r == Ok::<(), Error>(())
                && final(self)@ == old(self)@.with_feed(
                asset,
                PriceFeed { circuit_breaker_enabled: enabled, ..old(self)@.feeds[asset] },
            ),
    {
        self.require_admin()?;
        if !self.feeds.contains_key(&asset) {
            return Err(Error::InvalidPriceFeed);
        }
        let mut feed = match self.feeds.remove(&asset) {
            Some(f) => f,
            None => return Err(Error::InvalidPriceFeed),
        };
        feed.circuit_breaker_enabled = enabled;
        let ghost before = old(self)@.feeds;
        self.feeds.insert(asset, feed);
        assert(self.feeds@ =~= before.insert(asset, self.feeds@[asset]));
        Ok(())
    }

    /// Change the staleness and deviation limits of the feed of `asset` (admin only).
    pub fn update_feed_config(&mut self, asset: AssetId, max_staleness: u64, max_deviation_bps: u32) -> (r: Result<
        (),
        Error,
    >)
        ensures
            !old(self)@.initialized ==> r == Err::<(), Error>(Error::NotInitialized) && final(self)@
                == old(self)@,
            old(self)@.initialized && !old(self)@.feeds.contains_key(asset) ==> r == Err::<(), Error>(
                Error::InvalidPriceFeed,
            ) && final(self)@ == old(self)@,
            old(self)@.initialized && old(self)@.feeds.contains_key(asset) ==> r == Ok::<(), Error>(())
                && final(self)@ == old(self)@.with_feed(
                asset,
                PriceFeed { max_staleness, max_deviation_bps, ..old(self)@.feeds[asset] },
            ),
    {
        self.require_admin()?;
        if !self.feeds.contains_key(&asset) {
            return Err(Error::InvalidPriceFeed);
        }
        let mut feed = match self.feeds.remove(&asset) {
            Some(f) => f,
            None => return Err(Error::InvalidPriceFeed),
        };
        feed.max_staleness = max_staleness;
        feed.max_deviation_bps = max_deviation_bps;
        let ghost before = old(self)@.feeds;
        self.feeds.insert(asset, feed);
        assert(self.feeds@ =~= before.insert(asset, self.feeds@[asset]));
        Ok(())
    }

    /// Pause price updates and reads (admin only).
    pub fn pause(&mut self) -> (r: Result<(), Error>)
        ensures
            r == old(self)@.initialized_check(),
            final(self)@ == (if old(self)@.initialized {
                old(self)@.with_paused(true)
            } else {
                old(self)@
            }),
    {
        self.require_admin()?;
        self.paused = true;
        Ok(())
    }

    /// Resume price updates and reads (admin only).
    pub fn unpause(&mut self) -> (r: Result<(), Error>)
        ensures
            r == old(self)@.initialized_check(),
            final(self)@ == (if old(self)@.initialized {
                old(self)@.with_paused(false)
            } else {
                old(self)@
            }),
    {
        self.require_admin()?;
        self.paused = false;
        Ok(())
    }

    /// Whether the manager is paused.
    pub fn is_paused(&self) -> (r: bool)
        ensures
            r == self@.paused,
    {
        self.paused
    }

    /// The admin of the manager.
    pub fn get_admin(&self) -> (r: Result<AccountId, Error>)
        ensures
            r == (if self@.initialized {
                Ok::<AccountId, Error>(self@.admin)
            } else {
                Err(Error::NotInitialized)
            }),
    {
        self.require_initialized()?;
        Ok(self.admin)
    }

    /// Transfer the admin role to `new_admin` (admin only; the new admin authorizes too).
    pub fn set_admin(&mut self, new_admin: AccountId) -> (r: Result<(), Error>)
        ensures
            r == old(self)@.initialized_check(),
            final(self)@ == (if old(self)@.initialized {
                old(self)@.with_admin(new_admin)
            } else {
                old(self)@
            }),
    {
        self.require_admin()?;
        self.admin = new_admin;
        Ok(())
    }
}

/// Once a read fails, the batch read of any longer list fails with the first error.
proof fn lemma_prices_query_stops(v: OracleManagerView, assets: Seq<AssetId>, n: int, now: u64)
    requires
        0 < n <= assets.len(),
        v.prices_query(assets.take(n - 1), now) is Ok,
        v.price_query(assets[n - 1], now) is Err,
    ensures
        v.prices_query(assets, now) == Err::<Seq<PriceData>, Error>(v.price_query(assets[n - 1], now)->Err_0),
    decreases assets.len(),
{
    if n == assets.len() {
        assert(assets.drop_last() == assets.take(n - 1));
    } else {
        assert(assets.drop_last().take(n - 1) == assets.take(n - 1));
        lemma_prices_query_stops(v, assets.drop_last(), n, now);
    }
}

/// A price read at the time it was published gives back what was published, once the asset has
/// a feed.
pub proof fn lemma_read_after_update(
    v: OracleManagerView,
    asset: AssetId,
    price: i128,
    confidence: u32,
    expo: i32,
    now: u64,
)
    requires
        v.update_outcome(asset, price, confidence, expo, now) is Ok,
        v.feeds.contains_key(asset),
    ensures
        v.update_outcome(asset, price, confidence, expo, now)->Ok_0.price_query(asset, now) == Ok::<
            PriceData,
            Error,
        >(PriceData { asset, price, confidence, timestamp: now, expo }),
{
}

/// With its circuit breaker enabled, a feed accepts any positive price while the manager runs.
pub proof fn lemma_circuit_breaker_skips_deviation_check(
    v: OracleManagerView,
    asset: AssetId,
    price: i128,
    confidence: u32,
    expo: i32,
    now: u64,
)
    requires
        !v.paused,
        price > 0,
        v.feeds.contains_key(asset),
        v.feeds[asset].circuit_breaker_enabled,
    ensures
        v.update_outcome(asset, price, confidence, expo, now) is Ok,
{
}

/// A price older than the feed's staleness limit cannot be read.
pub proof fn lemma_stale_price_refused(v: OracleManagerView, asset: AssetId, now: u64)
    requires
        !v.paused,
        v.prices.contains_key(asset),
        v.feeds.contains_key(asset),
        now >= v.prices[asset].timestamp,
        now - v.prices[asset].timestamp > v.feeds[asset].max_staleness,
    ensures
        v.price_query(asset, now) == Err::<PriceData, Error>(Error::PriceStale),
{
}

/// While the oracle is paused, prices can be neither updated nor read.
pub proof fn lemma_paused_oracle_refuses(
    v: OracleManagerView,
    asset: AssetId,
    price: i128,
    confidence: u32,
    expo: i32,
    now: u64,
)
    requires
        v.paused,
    ensures
        v.update_outcome(asset, price, confidence, expo, now) == Err::<OracleManagerView, Error>(Error::Paused),
        v.price_query(asset, now) == Err::<PriceData, Error>(Error::Paused),
{
}

} // verus!

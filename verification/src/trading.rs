//! The trading core: leveraged positions opened and closed by traders, limit, stop-loss and
//! take-profit orders executed against a price, liquidation of positions whose liquidation
//! price has been crossed, and per-asset market statistics.
use std::collections::HashMap;
use vstd::prelude::*;

use crate::constants::{MAX_LEVERAGE, MIN_COLLATERAL};
use crate::errors::Error;
use crate::math::{
    calculate_fee, calculate_liquidation_price, calculate_pnl, calculate_position_size, checked_value,
    div_trunc, fee_for, fits_i128, liquidation_price_for, pnl_for,
};
use crate::types::{
    AccountId, AssetId, Direction, MarketStats, Order, OrderStatus, OrderType, Position, PositionStatus,
};
use crate::validation::{
    check_slippage, slippage_bps, slippage_computable, slippage_is_computable, validate_collateral,
    validate_leverage, validate_positive_amount,
};

verus! {

broadcast use vstd::std_specs::hash::group_hash_axioms;

/// The trading fee used before `initialize` set one (0.1%).
pub const UNSET_TRADING_FEE_BPS: u32 = 10;

/// The maintenance margin used before `initialize` set one (1%).
pub const UNSET_MAINTENANCE_MARGIN_BPS: u32 = 100;

/// The state of the trading core contract.
pub struct TradingCore {
    pub initialized: bool,
    pub admin: AccountId,
    pub paused: bool,
    pub position_counter: u64,
    pub order_counter: u64,
    pub trading_fee_bps: Option<u32>,
    pub maintenance_margin_bps: Option<u32>,
    pub positions: HashMap<u64, Position>,
    pub orders: HashMap<u64, Order>,
    pub user_positions: HashMap<AccountId, Vec<u64>>,
    pub user_orders: HashMap<AccountId, Vec<u64>>,
    pub market_stats: HashMap<AssetId, MarketStats>,
}

/// The trading core's state as mathematical values.
pub struct TradingCoreView {
    pub initialized: bool,
    pub admin: AccountId,
    pub paused: bool,
    pub position_counter: u64,
    pub order_counter: u64,
    pub trading_fee_bps: Option<u32>,
    pub maintenance_margin_bps: Option<u32>,
    pub positions: Map<u64, Position>,
    pub orders: Map<u64, Order>,
    pub user_positions: Map<AccountId, Seq<u64>>,
    pub user_orders: Map<AccountId, Seq<u64>>,
    pub market_stats: Map<AssetId, MarketStats>,
}

/// The contents of a map of id lists.
pub open spec fn id_lists(m: Map<AccountId, Vec<u64>>) -> Map<AccountId, Seq<u64>> {
    m.map_values(|ids: Vec<u64>| ids@)
}

impl View for TradingCore {
    type V = TradingCoreView;

    open spec fn view(&self) -> TradingCoreView {
        TradingCoreView {
            initialized: self.initialized,
            admin: self.admin,
            paused: self.paused,
            position_counter: self.position_counter,
            order_counter: self.order_counter,
            trading_fee_bps: self.trading_fee_bps,
            maintenance_margin_bps: self.maintenance_margin_bps,
            positions: self.positions@,
            orders: self.orders@,
            user_positions: id_lists(self.user_positions@),
            user_orders: id_lists(self.user_orders@),
            market_stats: self.market_stats@,
        }
    }
}

/// The ids listed for `user` (none when no list is kept).
pub open spec fn ids_of(lists: Map<AccountId, Seq<u64>>, user: AccountId) -> Seq<u64> {
    if lists.contains_key(user) {
        lists[user]
    } else {
        Seq::empty()
    }
}

/// Empty statistics for `asset`.
pub open spec fn empty_stats(asset: AssetId) -> MarketStats {
    MarketStats {
        asset,
        total_long_size: 0,
        total_short_size: 0,
        open_interest: 0,
        funding_rate: 0,
        last_funding_time: 0,
    }
}

/// The statistics after `size` is opened (`sign` 1) or closed (`sign` -1) on the side of
/// `direction`; `None` when the open interest or that side overflows.
pub open spec fn stats_moved(stats: MarketStats, size: i128, direction: Direction, sign: int) -> Option<MarketStats> {
    let open_interest = stats.open_interest + sign * size;
    match direction {
        Direction::Long => {
            let long = stats.total_long_size + sign * size;
            if fits_i128(open_interest) && fits_i128(long) {
                Some(
                    MarketStats {
                        open_interest: open_interest as i128,
                        total_long_size: long as i128,
                        ..stats
                    },
                )
            } else {
                None
            }
        },
        Direction::Short => {
            let short = stats.total_short_size + sign * size;
            if fits_i128(open_interest) && fits_i128(short) {
                Some(
                    MarketStats {
                        open_interest: open_interest as i128,
                        total_short_size: short as i128,
                        ..stats
                    },
                )
            } else {
                None
            }
        },
    }
}

/// The size that `p` contributes to the `direction` side of `asset`: its size while it is open
/// on that side of that asset, zero otherwise.
pub open spec fn open_size(p: Position, asset: AssetId, direction: Direction) -> int {
    if p.status == PositionStatus::Open && p.asset == asset && p.direction == direction {
        p.position_size as int
    } else {
        0
    }
}

/// The total size of the positions with ids `1..=n` that are open on the `direction` side of
/// `asset`.
pub open spec fn side_total(positions: Map<u64, Position>, asset: AssetId, direction: Direction, n: nat) -> int
    decreases n,
{
    if n == 0 {
        0
    } else {
        side_total(positions, asset, direction, (n - 1) as nat) + if positions.contains_key(n as u64) {
            open_size(positions[n as u64], asset, direction)
        } else {
            0
        }
    }
}

/// Whether a position is liquidatable at `price`: a long at or below its liquidation price, a
/// short at or above it.
pub open spec fn liquidatable_at(position: Position, price: i128) -> bool {
    match position.direction {
        Direction::Long => price <= position.liquidation_price,
        Direction::Short => price >= position.liquidation_price,
    }
}

impl TradingCoreView {
    /// The trading fee in basis points.
    pub open spec fn fee_bps(self) -> u32 {
        match self.trading_fee_bps {
            Some(f) => f,
            None => UNSET_TRADING_FEE_BPS,
        }
    }

    /// The maintenance margin in basis points.
    pub open spec fn margin_bps(self) -> u32 {
        match self.maintenance_margin_bps {
            Some(m) => m,
            None => UNSET_MAINTENANCE_MARGIN_BPS,
        }
    }

    /// The statistics of `asset` (empty ones when none are kept).
    pub open spec fn stats_of(self, asset: AssetId) -> MarketStats {
        if self.market_stats.contains_key(asset) {
            self.market_stats[asset]
        } else {
            empty_stats(asset)
        }
    }

    /// The admin-only functions fail on a trading core that was never initialized.
    pub open spec fn initialized_check(self) -> Result<(), Error> {
        if !self.initialized {
            Err(Error::NotInitialized)
        } else {
            Ok(())
        }
    }

    /// The same state with the pause flag set to `paused`.
    pub open spec fn with_paused(self, paused: bool) -> TradingCoreView {
        TradingCoreView { paused, ..self }
    }

    /// The outcome of `TradingCore::initialize`.
    pub open spec fn initialize_outcome(self, admin: AccountId, trading_fee_bps: u32, maintenance_margin_bps: u32) -> Result<
        TradingCoreView,
        Error,
    > {
        if self.initialized {
            Err(Error::AlreadyInitialized)
        } else {
            Ok(
                TradingCoreView {
                    initialized: true,
                    admin,
                    paused: false,
                    trading_fee_bps: Some(trading_fee_bps),
                    maintenance_margin_bps: Some(maintenance_margin_bps),
                    ..self
                },
            )
        }
    }

    /// The outcome of `TradingCore::open_position` at time `now`: the new state and the id of
    /// the new position.
    pub open spec fn open_outcome(
        self,
        trader: AccountId,
        asset: AssetId,
        collateral_token: AccountId,
        collateral_amount: i128,
        leverage: u32,
        direction: Direction,
        entry_price: i128,
        now: u64,
    ) -> Result<(TradingCoreView, u64), Error> {
        if self.paused {
            Err(Error::Paused)
        } else if collateral_amount < MIN_COLLATERAL {
            Err(Error::InsufficientCollateral)
        } else if leverage == 0 || leverage > MAX_LEVERAGE {
            Err(Error::InvalidLeverage)
        } else if entry_price <= 0 {
            Err(Error::InvalidAmount)
        } else {
            match checked_value(collateral_amount * leverage) {
                Err(e) => Err(e),
                Ok(size) => match liquidation_price_for(entry_price, leverage, direction, self.margin_bps()) {
                    Err(e) => Err(e),
                    Ok(liquidation_price) => match stats_moved(self.stats_of(asset), size, direction, 1) {
                        None => Err(Error::Overflow),
                        Some(stats) => {
                            let id = (self.position_counter + 1) as u64;
                            let position = Position {
                                id,
                                trader,
                                asset,
                                collateral_token,
                                collateral_amount,
                                position_size: size,
                                entry_price,
                                leverage,
                                direction,
                                liquidation_price,
                                unrealized_pnl: 0,
                                funding_accumulated: 0,
                                opened_at: now,
                                last_updated: now,
                                status: PositionStatus::Open,
                            };
                            Ok(
                                (
                                    TradingCoreView {
                                        position_counter: id,
                                        positions: self.positions.insert(id, position),
                                        user_positions: self.user_positions.insert(
                                            trader,
                                            ids_of(self.user_positions, trader).push(id),
                                        ),
                                        market_stats: self.market_stats.insert(asset, stats),
                                        ..self
                                    },
                                    id,
                                ),
                            )
                        },
                    },
                },
            }
        }
    }

    /// The outcome of `TradingCore::close_position` by `trader` at `exit_price` and time `now`:
    /// the new state and the realized PnL net of the trading fee.
    pub open spec fn close_outcome(self, trader: AccountId, position_id: u64, exit_price: i128, now: u64) -> Result<
        (TradingCoreView, i128),
        Error,
    > {
        if self.paused {
            Err(Error::Paused)
        } else if !self.positions.contains_key(position_id) {
            Err(Error::PositionNotFound)
        } else {
            let p = self.positions[position_id];
            if p.trader != trader {
                Err(Error::NotPositionOwner)
            } else if p.status != PositionStatus::Open {
                Err(Error::PositionAlreadyClosed)
            } else {
                match pnl_for(p.position_size, p.entry_price, exit_price, p.direction) {
                    Err(e) => Err(e),
                    Ok(pnl) => match fee_for(p.position_size, self.fee_bps()) {
                        Err(e) => Err(e),
                        Ok(fee) => if !fits_i128(pnl - fee) {
                            Err(Error::Overflow)
                        } else {
                            match stats_moved(self.stats_of(p.asset), p.position_size, p.direction, -1) {
                                None => Err(Error::Overflow),
                                Some(stats) => Ok(
                                    (
                                        TradingCoreView {
                                            positions: self.positions.insert(
                                                position_id,
                                                Position {
                                                    unrealized_pnl: (pnl - fee) as i128,
                                                    status: PositionStatus::Closed,
                                                    last_updated: now,
                                                    ..p
                                                },
                                            ),
                                            market_stats: self.market_stats.insert(p.asset, stats),
                                            ..self
                                        },
                                        (pnl - fee) as i128,
                                    ),
                                ),
                            }
                        },
                    },
                }
            }
        }
    }

    /// The outcome of `TradingCore::place_order` at time `now`: the new state and the id of the
    /// new order.
    pub open spec fn place_outcome(
        self,
        trader: AccountId,
        asset: AssetId,
        order_type: OrderType,
        direction: Direction,
        trigger_price: i128,
        size: i128,
        collateral: i128,
        leverage: u32,
        slippage_tolerance: u32,
        linked_position_id: u64,
        now: u64,
    ) -> Result<(TradingCoreView, u64), Error> {
        if self.paused {
            Err(Error::Paused)
        } else if trigger_price <= 0 || size <= 0 {
            Err(Error::InvalidAmount)
        } else if collateral < MIN_COLLATERAL {
            Err(Error::InsufficientCollateral)
        } else if leverage == 0 || leverage > MAX_LEVERAGE {
            Err(Error::InvalidLeverage)
        } else {
            let id = (self.order_counter + 1) as u64;
            let order = Order {
                id,
                trader,
                asset,
                order_type,
                direction,
                trigger_price,
                size,
                collateral,
                leverage,
                slippage_tolerance,
                created_at: now,
                status: OrderStatus::Pending,
                linked_position_id,
            };
            Ok(
                (
                    TradingCoreView {
                        order_counter: id,
                        orders: self.orders.insert(id, order),
                        user_orders: self.user_orders.insert(trader, ids_of(self.user_orders, trader).push(id)),
                        ..self
                    },
                    id,
                ),
            )
        }
    }

    /// The outcome of `TradingCore::cancel_order` by `trader`.
    pub open spec fn cancel_outcome(self, trader: AccountId, order_id: u64) -> Result<TradingCoreView, Error> {
        if self.paused {
            Err(Error::Paused)
        } else if !self.orders.contains_key(order_id) {
            Err(Error::OrderNotFound)
        } else if self.orders[order_id].trader != trader {
            Err(Error::NotOrderOwner)
        } else if self.orders[order_id].status != OrderStatus::Pending {
            Err(Error::OrderNotPending)
        } else {
            Ok(
                TradingCoreView {
                    orders: self.orders.insert(
                        order_id,
                        Order { status: OrderStatus::Cancelled, ..self.orders[order_id] },
                    ),
                    ..self
                },
            )
        }
    }

    /// Opening a position panics (taking the next id) when every check before the id passes
    /// and the position counter is already `u64::MAX`.
    pub open spec fn open_panics(self, collateral_amount: i128, leverage: u32, direction: Direction, entry_price: i128) -> bool {
        &&& !self.paused
        &&& collateral_amount >= MIN_COLLATERAL
        &&& 1 <= leverage <= MAX_LEVERAGE
        &&& entry_price > 0
        &&& checked_value(collateral_amount * leverage) is Ok
        &&& liquidation_price_for(entry_price, leverage, direction, self.margin_bps()) is Ok
        &&& self.position_counter == u64::MAX
    }

    /// Placing an order panics (taking the next id) when every check before the id passes and
    /// the order counter is already `u64::MAX`.
    pub open spec fn place_panics(self, trigger_price: i128, size: i128, collateral: i128, leverage: u32) -> bool {
        &&& !self.paused
        &&& trigger_price > 0
        &&& size > 0
        &&& collateral >= MIN_COLLATERAL
        &&& 1 <= leverage <= MAX_LEVERAGE
        &&& self.order_counter == u64::MAX
    }

    /// Executing an order panics when its slippage check is reached and cannot be computed, or
    /// when an entry order within its slippage opens a position that panics.
    pub open spec fn execute_panics(self, order_id: u64, execution_price: i128) -> bool {
        let order = self.orders[order_id];
        &&& !self.paused
        &&& self.orders.contains_key(order_id)
        &&& order.status == OrderStatus::Pending
        &&& order.trigger_price != 0
        &&& (!slippage_computable(order.trigger_price as int, execution_price as int) || {
            &&& slippage_bps(order.trigger_price as int, execution_price as int) <= order.slippage_tolerance
            &&& order.order_type == OrderType::LimitEntry
            &&& self.open_panics(order.collateral, order.leverage, order.direction, execution_price)
        })
    }

    /// The same state with order `order_id` marked as executed.
    pub open spec fn with_order_executed(self, order_id: u64) -> TradingCoreView {
        TradingCoreView {
            orders: self.orders.insert(order_id, Order { status: OrderStatus::Executed, ..self.orders[order_id] }),
            ..self
        }
    }

    /// The outcome of `TradingCore::execute_order` at `execution_price` and time `now`: a limit
    /// entry opens a position for the order's trader (who also stands as collateral token), a
    /// stop-loss or take-profit closes the linked position; the result is the id of that
    /// position.
    pub open spec fn execute_outcome(self, order_id: u64, execution_price: i128, now: u64) -> Result<
        (TradingCoreView, u64),
        Error,
    > {
        if self.paused {
            Err(Error::Paused)
        } else if !self.orders.contains_key(order_id) {
            Err(Error::OrderNotFound)
        } else {
            let order = self.orders[order_id];
            if order.status != OrderStatus::Pending {
                Err(Error::OrderNotPending)
            } else if order.trigger_price == 0 {
                Err(Error::InvalidPrice)
            } else if slippage_bps(order.trigger_price as int, execution_price as int) > order.slippage_tolerance {
                Err(Error::SlippageExceeded)
            } else {
                match order.order_type {
                    OrderType::LimitEntry => match self.open_outcome(
                        order.trader,
                        order.asset,
                        order.trader,
                        order.collateral,
                        order.leverage,
                        order.direction,
                        execution_price,
                        now,
                    ) {
                        Err(e) => Err(e),
                        Ok((v, position_id)) => Ok((v.with_order_executed(order_id), position_id)),
                    },
                    _ => if order.linked_position_id == 0 {
                        Err(Error::InvalidParameter)
                    } else {
                        match self.close_outcome(order.trader, order.linked_position_id, execution_price, now) {
                            Err(e) => Err(e),
                            Ok((v, _)) => Ok((v.with_order_executed(order_id), order.linked_position_id)),
                        }
                    },
                }
            }
        }
    }

    /// The outcome of `TradingCore::liquidate_position` at `liquidation_price` and time `now`.
    pub open spec fn liquidate_outcome(self, position_id: u64, liquidation_price: i128, now: u64) -> Result<
        TradingCoreView,
        Error,
    > {
        if self.paused {
            Err(Error::Paused)
        } else if !self.positions.contains_key(position_id) {
            Err(Error::PositionNotFound)
        } else {
            let p = self.positions[position_id];
            if p.status != PositionStatus::Open {
                Err(Error::PositionAlreadyClosed)
            } else if !liquidatable_at(p, liquidation_price) {
                Err(Error::NotLiquidatable)
            } else {
                match stats_moved(self.stats_of(p.asset), p.position_size, p.direction, -1) {
                    None => Err(Error::Overflow),
                    Some(stats) => Ok(
                        TradingCoreView {
                            positions: self.positions.insert(
                                position_id,
                                Position { status: PositionStatus::Liquidated, last_updated: now, ..p },
                            ),
                            market_stats: self.market_stats.insert(p.asset, stats),
                            ..self
                        },
                    ),
                }
            }
        }
    }

    /// The well-formedness of a trading core: the open interest of every asset is the sum of
    /// its long and short sizes, and every position and order is stored under its own id, which
    /// the matching counter has already handed out, with a leverage between 1 and
    /// `MAX_LEVERAGE`; and each side's total of every asset is the sum of the sizes of the
    /// positions open on that side of that asset.
    pub open spec fn wf(self) -> bool {
        &&& forall|asset: AssetId| #[trigger] self.market_stats.contains_key(asset) ==> {
            let stats = self.market_stats[asset];
            &&& stats.asset == asset
            &&& stats.open_interest == stats.total_long_size + stats.total_short_size
        }
        &&& forall|id: u64| #[trigger] self.positions.contains_key(id) ==> 1 <= id <= self.position_counter
            && self.positions[id].id == id && 1 <= self.positions[id].leverage <= MAX_LEVERAGE
        &&& forall|id: u64| #[trigger] self.orders.contains_key(id) ==> 1 <= id <= self.order_counter
            && self.orders[id].id == id && 1 <= self.orders[id].leverage <= MAX_LEVERAGE
        &&& forall|asset: AssetId| #[trigger] self.sides_match_positions(asset)
    }

    /// Each side's total of `asset` is the sum of the sizes of the positions open on that side
    /// of `asset`.
    pub open spec fn sides_match_positions(self, asset: AssetId) -> bool {
        &&& self.stats_of(asset).total_long_size == side_total(
            self.positions,
            asset,
            Direction::Long,
            self.position_counter as nat,
        )
        &&& self.stats_of(asset).total_short_size == side_total(
            self.positions,
            asset,
            Direction::Short,
            self.position_counter as nat,
        )
    }

    /// The positions with the given ids, in order; the first missing id decides the error.
    pub open spec fn positions_query(self, ids: Seq<u64>) -> Result<Seq<Position>, Error>
        decreases ids.len(),
    {
        if ids.len() == 0 {
            Ok(Seq::empty())
        } else {
            match self.positions_query(ids.drop_last()) {
                Err(e) => Err(e),
                Ok(found) => if self.positions.contains_key(ids.last()) {
                    Ok(found.push(self.positions[ids.last()]))
                } else {
                    Err(Error::PositionNotFound)
                },
            }
        }
    }

    /// The orders with the given ids, in order; the first missing id decides the error.
    pub open spec fn orders_query(self, ids: Seq<u64>) -> Result<Seq<Order>, Error>
        decreases ids.len(),
    {
        if ids.len() == 0 {
            Ok(Seq::empty())
        } else {
            match self.orders_query(ids.drop_last()) {
                Err(e) => Err(e),
                Ok(found) => if self.orders.contains_key(ids.last()) {
                    Ok(found.push(self.orders[ids.last()]))
                } else {
                    Err(Error::OrderNotFound)
                },
            }
        }
    }
}

fn move_stats(stats: &MarketStats, size: i128, direction: Direction, opening: bool) -> (r: Result<MarketStats, Error>)
    ensures
        match stats_moved(*stats, size, direction, if opening { 1 } else { -1 }) {
            Some(s) => r == Ok::<MarketStats, Error>(s),
            None => r == Err::<MarketStats, Error>(Error::Overflow),
        },
{
    let open_interest = if opening {
        stats.open_interest.checked_add(size)
    } else {
        stats.open_interest.checked_sub(size)
    };
    let open_interest = match open_interest {
        Some(v) => v,
        None => return Err(Error::Overflow),
    };
    match direction {
        Direction::Long => {
            let long = if opening {
                stats.total_long_size.checked_add(size)
            } else {
                stats.total_long_size.checked_sub(size)
            };
            match long {
                Some(v) => Ok(MarketStats { open_interest, total_long_size: v, ..*stats }),
                None => Err(Error::Overflow),
            }
        },
        Direction::Short => {
            let short = if opening {
                stats.total_short_size.checked_add(size)
            } else {
                stats.total_short_size.checked_sub(size)
            };
            match short {
                Some(v) => Ok(MarketStats { open_interest, total_short_size: v, ..*stats }),
                None => Err(Error::Overflow),
            }
        },
    }
}

fn append_id(lists: &mut HashMap<AccountId, Vec<u64>>, user: AccountId, id: u64)
    ensures
        id_lists(final(lists)@) == id_lists(old(lists)@).insert(user, ids_of(id_lists(old(lists)@), user).push(id)),
{
    let ghost before = id_lists(old(lists)@);
    let mut ids = match lists.remove(&user) {
        Some(v) => v,
        None => Vec::new(),
    };
    ids.push(id);
    lists.insert(user, ids);
    assert(id_lists(lists@) =~= before.insert(user, ids_of(before, user).push(id)));
}

impl TradingCore {
    /// A trading core contract that holds no state yet.
    pub fn new() -> (t: TradingCore)
        ensures
            !t@.initialized,
            !t@.paused,
            t@.position_counter == 0,
            t@.order_counter == 0,
            t@.trading_fee_bps is None,
            t@.maintenance_margin_bps is None,
            t@.positions == Map::<u64, Position>::empty(),
            t@.orders == Map::<u64, Order>::empty(),
            t@.user_positions == Map::<AccountId, Seq<u64>>::empty(),
            t@.user_orders == Map::<AccountId, Seq<u64>>::empty(),
            t@.market_stats == Map::<AssetId, MarketStats>::empty(),
            t@.wf(),
    {
        let t = TradingCore {
            initialized: false,
            admin: 0,
            paused: false,
            position_counter: 0,
            order_counter: 0,
            trading_fee_bps: None,
            maintenance_margin_bps: None,
            positions: HashMap::new(),
            orders: HashMap::new(),
            user_positions: HashMap::new(),
            user_orders: HashMap::new(),
            market_stats: HashMap::new(),
        };
        assert(t@.user_positions =~= Map::<AccountId, Seq<u64>>::empty());
        assert(t@.user_orders =~= Map::<AccountId, Seq<u64>>::empty());
        assert forall|a: AssetId| #[trigger] t@.sides_match_positions(a) by {}
        t
    }

    /// Check that the trading core was initialized and return the admin, whose authorization
    /// the admin-only functions then demand.
    pub fn require_admin(&self) -> (r: Result<AccountId, Error>)
        ensures
            r == (if self@.initialized {
                Ok::<AccountId, Error>(self@.admin)
            } else {
                Err(Error::NotInitialized)
            }),
    {
        if !self.initialized {
            return Err(Error::NotInitialized);
        }
        Ok(self.admin)
    }

    /// Fail with `Paused` while the trading core is paused.
    pub fn require_not_paused(&self) -> (r: Result<(), Error>)
        ensures
            r == (if self@.paused {
                Err(Error::Paused)
            } else {
                Ok::<(), Error>(())
            }),
    {
        if self.paused {
            return Err(Error::Paused);
        }
        Ok(())
    }

    /// Initialize the trading core with its admin, trading fee and maintenance margin.
    pub fn initialize(&mut self, admin: AccountId, trading_fee_bps: u32, maintenance_margin_bps: u32) -> (r: Result<
        (),
        Error,
    >)
        ensures
            match old(self)@.initialize_outcome(admin, trading_fee_bps, maintenance_margin_bps) {
                Ok(v) => r == Ok::<(), Error>(()) && final(self)@ == v,
                Err(e) => r == Err::<(), Error>(e) && final(self)@ == old(self)@,
            },
    {
        if self.initialized {
            return Err(Error::AlreadyInitialized);
        }
        self.admin = admin;
        self.initialized = true;
        self.paused = false;
        self.trading_fee_bps = Some(trading_fee_bps);
        self.maintenance_margin_bps = Some(maintenance_margin_bps);
        Ok(())
    }

    /// The trading fee in basis points.
    pub fn get_trading_fee_bps(&self) -> (r: u32)
        ensures
            r == self@.fee_bps(),
    {
        match self.trading_fee_bps {
            Some(f) => f,
            None => UNSET_TRADING_FEE_BPS,
        }
    }

    /// The maintenance margin in basis points.
    pub fn get_maintenance_margin_bps(&self) -> (r: u32)
        ensures
            r == self@.margin_bps(),
    {
        match self.maintenance_margin_bps {
            Some(m) => m,
            None => UNSET_MAINTENANCE_MARGIN_BPS,
        }
    }

    /// The statistics of `asset`.
    pub fn get_market_stats(&self, asset: AssetId) -> (r: MarketStats)
        ensures
            r == self@.stats_of(asset),
    {
        match self.market_stats.get(&asset) {
            Some(s) => *s,
            None => MarketStats {
                asset,
                total_long_size: 0,
                total_short_size: 0,
                open_interest: 0,
                funding_rate: 0,
                last_funding_time: 0,
            },
        }
    }

    /// Whether opening a position with these values would run the position counter past
    /// `u64::MAX`: every check before the new id passes and the counter is full.
    pub fn open_position_overflows(
        &self,
        collateral_amount: i128,
        leverage: u32,
        direction: Direction,
        entry_price: i128,
    ) -> (r: bool)
        ensures
            r == self@.open_panics(collateral_amount, leverage, direction, entry_price),
    {
        if self.paused || collateral_amount < MIN_COLLATERAL || leverage == 0 || leverage > MAX_LEVERAGE
            || entry_price <= 0 {
            return false;
        }
        if calculate_position_size(collateral_amount, leverage).is_err() {
            return false;
        }
        let margin = self.get_maintenance_margin_bps();
        if calculate_liquidation_price(entry_price, leverage, direction, margin).is_err() {
            return false;
        }
        self.position_counter == u64::MAX
    }

    /// Whether placing an order with these values would run the order counter past
    /// `u64::MAX`: every check before the new id passes and the counter is full.
    pub fn place_order_overflows(&self, trigger_price: i128, size: i128, collateral: i128, leverage: u32) -> (r:
        bool)
        ensures
            r == self@.place_panics(trigger_price, size, collateral, leverage),
    {
        !self.paused && trigger_price > 0 && size > 0 && collateral >= MIN_COLLATERAL && leverage >= 1
            && leverage <= MAX_LEVERAGE && self.order_counter == u64::MAX
    }

    /// Whether executing order `order_id` at `execution_price` would overflow: in its slippage
    /// check, or in the position counter of the position it opens.
    pub fn execute_order_panics(&self, order_id: u64, execution_price: i128) -> (r: bool)
        ensures
            r == self@.execute_panics(order_id, execution_price),
    {
        if self.paused {
            return false;
        }
        let order = match self.orders.get(&order_id) {
            Some(o) => *o,
            None => return false,
        };
        if order.status != OrderStatus::Pending || order.trigger_price == 0 {
            return false;
        }
        if !slippage_is_computable(order.trigger_price, execution_price) {
            return true;
        }
        if check_slippage(order.trigger_price, execution_price, order.slippage_tolerance).is_err() {
            return false;
        }
        match order.order_type {
            OrderType::LimitEntry => self.open_position_overflows(
                order.collateral,
                order.leverage,
                order.direction,
                execution_price,
            ),
            _ => false,
        }
    }

    /// Open a position of `collateral_amount` at `leverage` for `trader` at `entry_price` and
    /// time `now`. Returns the id of the new position.
    pub fn open_position(
        &mut self,
        trader: AccountId,
        asset: AssetId,
        collateral_token: AccountId,
        collateral_amount: i128,
        leverage: u32,
        direction: Direction,
        entry_price: i128,
        now: u64,
    ) -> (r: Result<u64, Error>)
        requires
            !old(self)@.open_panics(collateral_amount, leverage, direction, entry_price),
        ensures
            match old(self)@.open_outcome(
                trader,
                asset,
                collateral_token,
                collateral_amount,
                leverage,
                direction,
                entry_price,
                now,
            ) {
                Ok((v, id)) => r == Ok::<u64, Error>(id) && final(self)@ == v,
                Err(e) => r == Err::<u64, Error>(e) && final(self)@ == old(self)@,
            },
    {
        self.require_not_paused()?;
        validate_collateral(collateral_amount)?;
        validate_leverage(leverage, MAX_LEVERAGE)?;
        validate_positive_amount(entry_price)?;
        let position_size = calculate_position_size(collateral_amount, leverage)?;
        let liquidation_price = calculate_liquidation_price(
            entry_price,
            leverage,
            direction,
            self.get_maintenance_margin_bps(),
        )?;
        let stats = move_stats(&self.get_market_stats(asset), position_size, direction, true)?;
        let id = self.position_counter + 1;
        self.position_counter = id;
        let position = Position {
            id,
            trader,
            asset,
            collateral_token,
            collateral_amount,
            position_size,
            entry_price,
            leverage,
            direction,
            liquidation_price,
            unrealized_pnl: 0,
            funding_accumulated: 0,
            opened_at: now,
            last_updated: now,
            status: PositionStatus::Open,
        };
        self.positions.insert(id, position);
        append_id(&mut self.user_positions, trader, id);
        self.market_stats.insert(asset, stats);
        Ok(id)
    }

    /// Close position `position_id` of `trader` at `exit_price` and time `now`. Returns the
    /// realized PnL net of the trading fee.
    pub fn close_position(&mut self, trader: AccountId, position_id: u64, exit_price: i128, now: u64) -> (r: Result<
        i128,
        Error,
    >)
        ensures
            match old(self)@.close_outcome(trader, position_id, exit_price, now) {
                Ok((v, pnl)) => r == Ok::<i128, Error>(pnl) && final(self)@ == v,
                Err(e) => r == Err::<i128, Error>(e) && final(self)@ == old(self)@,
            },
    {
        self.require_not_paused()?;
        let position = self.get_position(position_id)?;
        if position.trader != trader {
            return Err(Error::NotPositionOwner);
        }
        if position.status != PositionStatus::Open {
            return Err(Error::PositionAlreadyClosed);
        }
        let pnl = calculate_pnl(position.position_size, position.entry_price, exit_price, position.direction)?;
        let fee = calculate_fee(position.position_size, self.get_trading_fee_bps())?;
        let realized_pnl = match pnl.checked_sub(fee) {
            Some(v) => v,
            None => return Err(Error::Overflow),
        };
        let stats = move_stats(
            &self.get_market_stats(position.asset),
            position.position_size,
            position.direction,
            false,
        )?;
        self.positions.insert(
            position_id,
            Position {
                unrealized_pnl: realized_pnl,
                status: PositionStatus::Closed,
                last_updated: now,
                ..position
            },
        );
        self.market_stats.insert(position.asset, stats);
        Ok(realized_pnl)
    }

    /// Place an order for `trader` at time `now`. Returns the id of the new order.
    pub fn place_order(
        &mut self,
        trader: AccountId,
        asset: AssetId,
        order_type: OrderType,
        direction: Direction,
        trigger_price: i128,
        size: i128,
        collateral: i128,
        leverage: u32,
        slippage_tolerance: u32,
        linked_position_id: u64,
        now: u64,
    ) -> (r: Result<u64, Error>)
        requires
            !old(self)@.place_panics(trigger_price, size, collateral, leverage),
        ensures
            match old(self)@.place_outcome(
                trader,
                asset,
                order_type,
                direction,
                trigger_price,
                size,
                collateral,
                leverage,
                slippage_tolerance,
                linked_position_id,
                now,
            ) {
                Ok((v, id)) => r == Ok::<u64, Error>(id) && final(self)@ == v,
                Err(e) => r == Err::<u64, Error>(e) && final(self)@ == old(self)@,
            },
    {
        self.require_not_paused()?;
        validate_positive_amount(trigger_price)?;
        validate_positive_amount(size)?;
        validate_collateral(collateral)?;
        validate_leverage(leverage, MAX_LEVERAGE)?;
        let id = self.order_counter + 1;
        self.order_counter = id;
        let order = Order {
            id,
            trader,
            asset,
            order_type,
            direction,
            trigger_price,
            size,
            collateral,
            leverage,
            slippage_tolerance,
            created_at: now,
            status: OrderStatus::Pending,
            linked_position_id,
        };
        self.orders.insert(id, order);
        append_id(&mut self.user_orders, trader, id);
        Ok(id)
    }

    /// Cancel the pending order `order_id` of `trader`.
    pub fn cancel_order(&mut self, trader: AccountId, order_id: u64) -> (r: Result<(), Error>)
        ensures
            match old(self)@.cancel_outcome(trader, order_id) {
                Ok(v) => r == Ok::<(), Error>(()) && final(self)@ == v,
                Err(e) => r == Err::<(), Error>(e) && final(self)@ == old(self)@,
            },
    {
        self.require_not_paused()?;
        let order = self.get_order(order_id)?;
        if order.trader != trader {
            return Err(Error::NotOrderOwner);
        }
        if order.status != OrderStatus::Pending {
            return Err(Error::OrderNotPending);
        }
        self.orders.insert(order_id, Order { status: OrderStatus::Cancelled, ..order });
        Ok(())
    }

    /// Execute the pending order `order_id` at `execution_price` and time `now`, within its
    /// slippage tolerance of the trigger price. Returns the id of the position opened or closed.
    pub fn execute_order(&mut self, order_id: u64, execution_price: i128, now: u64) -> (r: Result<u64, Error>)
        requires
            !old(self)@.execute_panics(order_id, execution_price),
        ensures
            match old(self)@.execute_outcome(order_id, execution_price, now) {
                Ok((v, id)) => r == Ok::<u64, Error>(id) && final(self)@ == v,
                Err(e) => r == Err::<u64, Error>(e) && final(self)@ == old(self)@,
            },
    {
        self.require_not_paused()?;
        let order = self.get_order(order_id)?;
        if order.status != OrderStatus::Pending {
            return Err(Error::OrderNotPending);
        }
        check_slippage(order.trigger_price, execution_price, order.slippage_tolerance)?;
        match order.order_type {
            OrderType::LimitEntry => {
                let position_id = self.open_position(
                    order.trader,
                    order.asset,
                    order.trader,
                    order.collateral,
                    order.leverage,
                    order.direction,
                    execution_price,
                    now,
                )?;
                self.orders.insert(order_id, Order { status: OrderStatus::Executed, ..order });
                Ok(position_id)
            },
            _ => {
                let linked = order.linked_position_id;
                if linked == 0 {
                    return Err(Error::InvalidParameter);
                }
                self.close_position(order.trader, linked, execution_price, now)?;
                self.orders.insert(order_id, Order { status: OrderStatus::Executed, ..order });
                Ok(linked)
            },
        }
    }

    /// Liquidate position `position_id` at `liquidation_price` and time `now`: a long must be
    /// at or below its liquidation price, a short at or above it.
    pub fn liquidate_position(&mut self, position_id: u64, liquidation_price: i128, now: u64) -> (r: Result<
        (),
        Error,
    >)
        ensures
            match old(self)@.liquidate_outcome(position_id, liquidation_price, now) {
                Ok(v) => r == Ok::<(), Error>(()) && final(self)@ == v,
                Err(e) => r == Err::<(), Error>(e) && final(self)@ == old(self)@,
            },
    {
        self.require_not_paused()?;
        let position = self.get_position(position_id)?;
        if position.status != PositionStatus::Open {
            return Err(Error::PositionAlreadyClosed);
        }
        let should_liquidate = match position.direction {
            Direction::Long => liquidation_price <= position.liquidation_price,
            Direction::Short => liquidation_price >= position.liquidation_price,
        };
        if !should_liquidate {
            return Err(Error::NotLiquidatable);
        }
        let stats = move_stats(
            &self.get_market_stats(position.asset),
            position.position_size,
            position.direction,
            false,
        )?;
        self.positions.insert(
            position_id,
            Position { status: PositionStatus::Liquidated, last_updated: now, ..position },
        );
        self.market_stats.insert(position.asset, stats);
        Ok(())
    }

    /// The position with id `position_id`.
    pub fn get_position(&self, position_id: u64) -> (r: Result<Position, Error>)
        ensures
            r == (if self@.positions.contains_key(position_id) {
                Ok::<Position, Error>(self@.positions[position_id])
            } else {
                Err(Error::PositionNotFound)
            }),
    {
        match self.positions.get(&position_id) {
            Some(p) => Ok(*p),
            None => Err(Error::PositionNotFound),
        }
    }

    /// The order with id `order_id`.
    pub fn get_order(&self, order_id: u64) -> (r: Result<Order, Error>)
        ensures
            r == (if self@.orders.contains_key(order_id) {
                Ok::<Order, Error>(self@.orders[order_id])
            } else {
                Err(Error::OrderNotFound)
            }),
    {
        match self.orders.get(&order_id) {
            Some(o) => Ok(*o),
            None => Err(Error::OrderNotFound),
        }
    }

    /// The ids of the positions that `trader` opened, oldest first.
    pub fn get_user_position_ids(&self, trader: AccountId) -> (r: Vec<u64>)
        ensures
            r@ == ids_of(self@.user_positions, trader),
    {
        match self.user_positions.get(&trader) {
            Some(ids) => ids.clone(),
            None => Vec::new(),
        }
    }

    /// The ids of the orders that `trader` placed, oldest first.
    pub fn get_user_order_ids(&self, trader: AccountId) -> (r: Vec<u64>)
        ensures
            r@ == ids_of(self@.user_orders, trader),
    {
        match self.user_orders.get(&trader) {
            Some(ids) => ids.clone(),
            None => Vec::new(),
        }
    }

    /// The positions that `trader` opened, oldest first.
    pub fn get_user_positions(&self, trader: AccountId) -> (r: Result<Vec<Position>, Error>)
        ensures
            match self@.positions_query(ids_of(self@.user_positions, trader)) {
                Ok(s) => r is Ok && r->Ok_0@ == s,
                Err(e) => r == Err::<Vec<Position>, Error>(e),
            },
    {
        let ids = self.get_user_position_ids(trader);
        let mut out: Vec<Position> = Vec::new();
        let mut i: usize = 0;
        while i < ids.len()
            invariant
                i <= ids@.len(),
                ids@ == ids_of(self@.user_positions, trader),
                self@.positions_query(ids@.take(i as int)) == Ok::<Seq<Position>, Error>(out@),
            decreases ids@.len() - i,
        {
            assert(ids@.take(i + 1).drop_last() == ids@.take(i as int));
            assert(ids@.take(i + 1).last() == ids@[i as int]);
            match self.get_position(ids[i]) {
                Ok(p) => out.push(p),
                Err(e) => {
                    proof {
                        lemma_positions_query_stops(self@, ids@, (i + 1) as int);
                    }
                    return Err(e);
                },
            }
            i = i + 1;
        }
        assert(ids@.take(ids@.len() as int) == ids@);
        Ok(out)
    }

    /// The orders that `trader` placed, oldest first.
    pub fn get_user_orders(&self, trader: AccountId) -> (r: Result<Vec<Order>, Error>)
        ensures
            match self@.orders_query(ids_of(self@.user_orders, trader)) {
                Ok(s) => r is Ok && r->Ok_0@ == s,
                Err(e) => r == Err::<Vec<Order>, Error>(e),
            },
    {
        let ids = self.get_user_order_ids(trader);
        let mut out: Vec<Order> = Vec::new();
        let mut i: usize = 0;
        while i < ids.len()
            invariant
                i <= ids@.len(),
                ids@ == ids_of(self@.user_orders, trader),
                self@.orders_query(ids@.take(i as int)) == Ok::<Seq<Order>, Error>(out@),
            decreases ids@.len() - i,
        {
            assert(ids@.take(i + 1).drop_last() == ids@.take(i as int));
            assert(ids@.take(i + 1).last() == ids@[i as int]);
            match self.get_order(ids[i]) {
                Ok(o) => out.push(o),
                Err(e) => {
                    proof {
                        lemma_orders_query_stops(self@, ids@, (i + 1) as int);
                    }
                    return Err(e);
                },
            }
            i = i + 1;
        }
        assert(ids@.take(ids@.len() as int) == ids@);
        Ok(out)
    }

    /// Pause trading (admin only).
    pub fn pause(&mut self) -> (r: Result<(), Error>)
        ensures
            r == old(self)@.initialized_check(),
            final(self)@ == (if old(self)@.initialized {
                old(self)@.with_paused(true)
            } else {
                old(self)@
            }),
    {
        self.require_admin()?;
        self.paused = true;
        Ok(())
    }

    /// Resume trading (admin only).
    pub fn unpause(&mut self) -> (r: Result<(), Error>)
        ensures
            r == old(self)@.initialized_check(),
            final(self)@ == (if old(self)@.initialized {
                old(self)@.with_paused(false)
            } else {
                old(self)@
            }),
    {
        self.require_admin()?;
        self.paused = false;
        Ok(())
    }
}

/// Once a lookup fails, looking up any longer list of ids fails with `PositionNotFound`.
proof fn lemma_positions_query_stops(v: TradingCoreView, ids: Seq<u64>, n: int)
    requires
        0 < n <= ids.len(),
        v.positions_query(ids.take(n - 1)) is Ok,
        !v.positions.contains_key(ids[n - 1]),
    ensures
        v.positions_query(ids) == Err::<Seq<Position>, Error>(Error::PositionNotFound),
    decreases ids.len(),
{
    if n == ids.len() {
        assert(ids.drop_last() == ids.take(n - 1));
    } else {
        assert(ids.drop_last().take(n - 1) == ids.take(n - 1));
        lemma_positions_query_stops(v, ids.drop_last(), n);
    }
}

/// Once a lookup fails, looking up any longer list of ids fails with `OrderNotFound`.
proof fn lemma_orders_query_stops(v: TradingCoreView, ids: Seq<u64>, n: int)
    requires
        0 < n <= ids.len(),
        v.orders_query(ids.take(n - 1)) is Ok,
        !v.orders.contains_key(ids[n - 1]),
    ensures
        v.orders_query(ids) == Err::<Seq<Order>, Error>(Error::OrderNotFound),
    decreases ids.len(),
{
    if n == ids.len() {
        assert(ids.drop_last() == ids.take(n - 1));
    } else {
        assert(ids.drop_last().take(n - 1) == ids.take(n - 1));
        lemma_orders_query_stops(v, ids.drop_last(), n);
    }
}

/// Changing a position whose id lies above `n` leaves the totals over ids `1..=n` unchanged.
proof fn lemma_side_total_above(
    positions: Map<u64, Position>,
    id: u64,
    p: Position,
    asset: AssetId,
    direction: Direction,
    n: nat,
)
    requires
        n < id,
    ensures
        side_total(positions.insert(id, p), asset, direction, n) == side_total(positions, asset, direction, n),
    decreases n,
{
    if n > 0 {
        lemma_side_total_above(positions, id, p, asset, direction, (n - 1) as nat);
    }
}

/// Replacing the position with id `id` in `1..=n` changes the totals over ids `1..=n` by the
/// difference of what the two positions contribute.
proof fn lemma_side_total_replace(
    positions: Map<u64, Position>,
    id: u64,
    p: Position,
    asset: AssetId,
    direction: Direction,
    n: nat,
)
    requires
        1 <= id <= n <= u64::MAX,
        positions.contains_key(id),
    ensures
        side_total(positions.insert(id, p), asset, direction, n) == side_total(positions, asset, direction, n)
            - open_size(positions[id], asset, direction) + open_size(p, asset, direction),
    decreases n,
{
    if n == id {
        lemma_side_total_above(positions, id, p, asset, direction, (n - 1) as nat);
    } else {
        lemma_side_total_replace(positions, id, p, asset, direction, (n - 1) as nat);
    }
}

/// Opening a position keeps a trading core well formed, and the new position gets an id that
/// no existing position has.
pub proof fn lemma_open_keeps_wf(
    v: TradingCoreView,
    trader: AccountId,
    asset: AssetId,
    collateral_token: AccountId,
    collateral_amount: i128,
    leverage: u32,
    direction: Direction,
    entry_price: i128,
    now: u64,
)
    requires
        v.wf(),
        !v.open_panics(collateral_amount, leverage, direction, entry_price),
        v.open_outcome(trader, asset, collateral_token, collateral_amount, leverage, direction, entry_price, now) is Ok,
    ensures
        ({
            let (after, id) = v.open_outcome(
                trader,
                asset,
                collateral_token,
                collateral_amount,
                leverage,
                direction,
                entry_price,
                now,
            )->Ok_0;
            &&& after.wf()
            &&& !v.positions.contains_key(id)
            &&& after.positions[id].status == PositionStatus::Open
            &&& after.positions[id].trader == trader
        }),
{
    let (after, id) = v.open_outcome(
        trader,
        asset,
        collateral_token,
        collateral_amount,
        leverage,
        direction,
        entry_price,
        now,
    )->Ok_0;
    let p = after.positions[id];
    assert forall|a: AssetId| #[trigger] after.sides_match_positions(a) by {
        assert(v.sides_match_positions(a));
        let n = v.position_counter as nat;
        assert(after.position_counter as nat == n + 1);
        assert(((n + 1) as nat) as u64 == id);
        assert(side_total(after.positions, a, Direction::Long, n + 1) == side_total(
            after.positions,
            a,
            Direction::Long,
            n,
        ) + open_size(p, a, Direction::Long));
        assert(side_total(after.positions, a, Direction::Short, n + 1) == side_total(
            after.positions,
            a,
            Direction::Short,
            n,
        ) + open_size(p, a, Direction::Short));
        lemma_side_total_above(v.positions, id, p, a, Direction::Long, n);
        lemma_side_total_above(v.positions, id, p, a, Direction::Short, n);
        assert(v.stats_of(a) == v.stats_of(a));
    }
}

/// Closing a position keeps a trading core well formed.
pub proof fn lemma_close_keeps_wf(v: TradingCoreView, trader: AccountId, position_id: u64, exit_price: i128, now: u64)
    requires
        v.wf(),
        v.close_outcome(trader, position_id, exit_price, now) is Ok,
    ensures
        v.close_outcome(trader, position_id, exit_price, now)->Ok_0.0.wf(),
{
    let after = v.close_outcome(trader, position_id, exit_price, now)->Ok_0.0;
    lemma_settling_keeps_side_totals(v, after, position_id);
}

/// Liquidating a position keeps a trading core well formed.
pub proof fn lemma_liquidate_keeps_wf(v: TradingCoreView, position_id: u64, price: i128, now: u64)
    requires
        v.wf(),
        v.liquidate_outcome(position_id, price, now) is Ok,
    ensures
        v.liquidate_outcome(position_id, price, now)->Ok_0.wf(),
{
    let after = v.liquidate_outcome(position_id, price, now)->Ok_0;
    lemma_settling_keeps_side_totals(v, after, position_id);
}

/// Settling (closing or liquidating) open position `id`, which takes its size off its side of
/// its asset, keeps each side's total equal to the sizes open on that side.
proof fn lemma_settling_keeps_side_totals(v: TradingCoreView, after: TradingCoreView, id: u64)
    requires
        v.wf(),
        v.positions.contains_key(id),
        v.positions[id].status == PositionStatus::Open,
        after.positions.contains_key(id),
        after.positions[id].status != PositionStatus::Open,
        after.positions == v.positions.insert(id, after.positions[id]),
        after.position_counter == v.position_counter,
        stats_moved(v.stats_of(v.positions[id].asset), v.positions[id].position_size, v.positions[id].direction, -1)
            == Some(after.stats_of(v.positions[id].asset)),
        forall|a: AssetId| a != v.positions[id].asset ==> #[trigger] after.stats_of(a) == v.stats_of(a),
    ensures
        forall|a: AssetId| #[trigger] after.sides_match_positions(a),
{
    let settled = after.positions[id];
    assert forall|a: AssetId| #[trigger] after.sides_match_positions(a) by {
        assert(v.sides_match_positions(a));
        let p = v.positions[id];
        assert(1 <= id <= v.position_counter);
        lemma_side_total_replace(v.positions, id, settled, a, Direction::Long, v.position_counter as nat);
        lemma_side_total_replace(v.positions, id, settled, a, Direction::Short, v.position_counter as nat);
        assert(open_size(settled, a, Direction::Long) == 0);
        assert(open_size(settled, a, Direction::Short) == 0);
        let total = after.position_counter as nat;
        assert(v.stats_of(a).total_long_size == side_total(v.positions, a, Direction::Long, total));
        assert(v.stats_of(a).total_short_size == side_total(v.positions, a, Direction::Short, total));
        if a == p.asset {
            match p.direction {
                Direction::Long => {
                    assert(after.stats_of(a).total_long_size == v.stats_of(a).total_long_size - p.position_size);
                    assert(after.stats_of(a).total_short_size == v.stats_of(a).total_short_size);
                },
                Direction::Short => {
                    assert(after.stats_of(a).total_short_size == v.stats_of(a).total_short_size - p.position_size);
                    assert(after.stats_of(a).total_long_size == v.stats_of(a).total_long_size);
                },
            }
        } else {
            assert(after.stats_of(a) == v.stats_of(a));
        }
        assert(after.stats_of(a).total_long_size == side_total(after.positions, a, Direction::Long, total));
        assert(after.stats_of(a).total_short_size == side_total(after.positions, a, Direction::Short, total));
    }
}

/// Placing and cancelling orders keep a trading core well formed.
pub proof fn lemma_place_cancel_keep_wf(
    v: TradingCoreView,
    trader: AccountId,
    asset: AssetId,
    order_type: OrderType,
    direction: Direction,
    trigger_price: i128,
    size: i128,
    collateral: i128,
    leverage: u32,
    slippage_tolerance: u32,
    linked_position_id: u64,
    now: u64,
    order_id: u64,
)
    requires
        v.wf(),
        !v.place_panics(trigger_price, size, collateral, leverage),
    ensures
        v.place_outcome(
            trader,
            asset,
            order_type,
            direction,
            trigger_price,
            size,
            collateral,
            leverage,
            slippage_tolerance,
            linked_position_id,
            now,
        ) is Ok ==> v.place_outcome(
            trader,
            asset,
            order_type,
            direction,
            trigger_price,
            size,
            collateral,
            leverage,
            slippage_tolerance,
            linked_position_id,
            now,
        )->Ok_0.0.wf(),
        v.cancel_outcome(trader, order_id) is Ok ==> v.cancel_outcome(trader, order_id)->Ok_0.wf(),
{
    let placed = v.place_outcome(
        trader,
        asset,
        order_type,
        direction,
        trigger_price,
        size,
        collateral,
        leverage,
        slippage_tolerance,
        linked_position_id,
        now,
    );
    if placed is Ok {
        let after = placed->Ok_0.0;
        assert forall|a: AssetId| #[trigger] after.sides_match_positions(a) by {
            assert(v.sides_match_positions(a));
        }
    }
    if v.cancel_outcome(trader, order_id) is Ok {
        let after = v.cancel_outcome(trader, order_id)->Ok_0;
        assert forall|a: AssetId| #[trigger] after.sides_match_positions(a) by {
            assert(v.sides_match_positions(a));
        }
    }
}

/// Executing an order keeps a trading core well formed.
pub proof fn lemma_execute_keeps_wf(v: TradingCoreView, order_id: u64, execution_price: i128, now: u64)
    requires
        v.wf(),
        !v.execute_panics(order_id, execution_price),
        v.execute_outcome(order_id, execution_price, now) is Ok,
    ensures
        v.execute_outcome(order_id, execution_price, now)->Ok_0.0.wf(),
{
    let order = v.orders[order_id];
    match order.order_type {
        OrderType::LimitEntry => {
            lemma_open_keeps_wf(
                v,
                order.trader,
                order.asset,
                order.trader,
                order.collateral,
                order.leverage,
                order.direction,
                execution_price,
                now,
            );
        },
        _ => {
            lemma_close_keeps_wf(v, order.trader, order.linked_position_id, execution_price, now);
        },
    }
    let after = v.execute_outcome(order_id, execution_price, now)->Ok_0.0;
    let inner = match order.order_type {
        OrderType::LimitEntry => v.open_outcome(
            order.trader,
            order.asset,
            order.trader,
            order.collateral,
            order.leverage,
            order.direction,
            execution_price,
            now,
        )->Ok_0.0,
        _ => v.close_outcome(order.trader, order.linked_position_id, execution_price, now)->Ok_0.0,
    };
    assert forall|a: AssetId| #[trigger] after.sides_match_positions(a) by {
        assert(inner.sides_match_positions(a));
    }
}

/// While trading is paused, every trading call fails with `Paused`: no position is opened,
/// closed or liquidated, and no order is placed, cancelled or executed.
pub proof fn lemma_paused_refuses_trading(
    v: TradingCoreView,
    trader: AccountId,
    asset: AssetId,
    collateral_token: AccountId,
    amount: i128,
    leverage: u32,
    direction: Direction,
    order_type: OrderType,
    price: i128,
    size: i128,
    slippage_tolerance: u32,
    id: u64,
    now: u64,
)
    requires
        v.paused,
    ensures
        v.open_outcome(trader, asset, collateral_token, amount, leverage, direction, price, now)
            == Err::<(TradingCoreView, u64), Error>(Error::Paused),
        v.close_outcome(trader, id, price, now) == Err::<(TradingCoreView, i128), Error>(Error::Paused),
        v.place_outcome(
            trader,
            asset,
            order_type,
            direction,
            price,
            size,
            amount,
            leverage,
            slippage_tolerance,
            id,
            now,
        ) == Err::<(TradingCoreView, u64), Error>(Error::Paused),
        v.cancel_outcome(trader, id) == Err::<TradingCoreView, Error>(Error::Paused),
        v.execute_outcome(id, price, now) == Err::<(TradingCoreView, u64), Error>(Error::Paused),
        v.liquidate_outcome(id, price, now) == Err::<TradingCoreView, Error>(Error::Paused),
{
}

/// Closing a position right after opening it gives the asset's market statistics back as they
/// were.
pub proof fn lemma_close_after_open_restores_stats(
    v: TradingCoreView,
    trader: AccountId,
    asset: AssetId,
    collateral_token: AccountId,
    collateral_amount: i128,
    leverage: u32,
    direction: Direction,
    entry_price: i128,
    opened_at: u64,
    exit_price: i128,
    closed_at: u64,
)
    requires
        v.open_outcome(trader, asset, collateral_token, collateral_amount, leverage, direction, entry_price, opened_at) is Ok,
        ({
            let (after_open, id) = v.open_outcome(
                trader,
                asset,
                collateral_token,
                collateral_amount,
                leverage,
                direction,
                entry_price,
                opened_at,
            )->Ok_0;
            after_open.close_outcome(trader, id, exit_price, closed_at) is Ok
        }),
    ensures
        ({
            let (after_open, id) = v.open_outcome(
                trader,
                asset,
                collateral_token,
                collateral_amount,
                leverage,
                direction,
                entry_price,
                opened_at,
            )->Ok_0;
            let (after_close, _) = after_open.close_outcome(trader, id, exit_price, closed_at)->Ok_0;
            forall|a: AssetId| #[trigger] after_close.stats_of(a) == v.stats_of(a)
        }),
{
}

/// A position closed or liquidated cannot be closed or liquidated again.
pub proof fn lemma_settled_position_stays_settled(
    v: TradingCoreView,
    trader: AccountId,
    position_id: u64,
    exit_price: i128,
    now: u64,
    other: AccountId,
    price: i128,
    later: u64,
)
    ensures
        v.close_outcome(trader, position_id, exit_price, now) is Ok ==> {
            let after = v.close_outcome(trader, position_id, exit_price, now)->Ok_0.0;
            &&& after.close_outcome(trader, position_id, price, later) == Err::<(TradingCoreView, i128), Error>(
                Error::PositionAlreadyClosed,
            )
            &&& after.liquidate_outcome(position_id, price, later) == Err::<TradingCoreView, Error>(
                Error::PositionAlreadyClosed,
            )
        },
        v.liquidate_outcome(position_id, exit_price, now) is Ok ==> {
            let after = v.liquidate_outcome(position_id, exit_price, now)->Ok_0;
            &&& after.close_outcome(other, position_id, price, later) == Err::<(TradingCoreView, i128), Error>(
                Error::NotPositionOwner,
            ) || after.close_outcome(other, position_id, price, later) == Err::<(TradingCoreView, i128), Error>(
                Error::PositionAlreadyClosed,
            )
            &&& after.liquidate_outcome(position_id, price, later) == Err::<TradingCoreView, Error>(
                Error::PositionAlreadyClosed,
            )
        },
{
}

/// A cancelled or executed order can be neither cancelled nor executed again.
pub proof fn lemma_finished_order_stays_finished(
    v: TradingCoreView,
    trader: AccountId,
    order_id: u64,
    price: i128,
    now: u64,
    later: u64,
)
    requires
        v.wf(),
    ensures
        v.cancel_outcome(trader, order_id) is Ok ==> {
            let after = v.cancel_outcome(trader, order_id)->Ok_0;
            &&& after.cancel_outcome(trader, order_id) == Err::<TradingCoreView, Error>(Error::OrderNotPending)
            &&& after.execute_outcome(order_id, price, later) == Err::<(TradingCoreView, u64), Error>(
                Error::OrderNotPending,
            )
        },
        v.execute_outcome(order_id, price, now) is Ok ==> {
            let after = v.execute_outcome(order_id, price, now)->Ok_0.0;
            &&& after.cancel_outcome(trader, order_id) == Err::<TradingCoreView, Error>(Error::NotOrderOwner)
                || after.cancel_outcome(trader, order_id) == Err::<TradingCoreView, Error>(Error::OrderNotPending)
            &&& after.execute_outcome(order_id, price, later) == Err::<(TradingCoreView, u64), Error>(
                Error::OrderNotPending,
            )
        },
{
}

/// Closing a position at its entry price realizes exactly minus the trading fee.
pub proof fn lemma_close_at_entry_costs_the_fee(v: TradingCoreView, trader: AccountId, position_id: u64, now: u64)
    requires
        v.positions.contains_key(position_id),
        v.close_outcome(trader, position_id, v.positions[position_id].entry_price, now) is Ok,
    ensures
        v.close_outcome(trader, position_id, v.positions[position_id].entry_price, now)->Ok_0.1 == -fee_for(
            v.positions[position_id].position_size,
            v.fee_bps(),
        )->Ok_0,
{
}

/// Closing a position realizes its PnL in its own direction, net of the trading fee: the
/// size times the price move in the position's favour (`exit - entry` for a long, `entry - exit`
/// for a short) divided by the entry price, minus the fee on the size, each rounded toward
/// zero. The position is then closed and records that amount, and a short closed at or above
/// its entry price realizes at most minus the fee.
pub proof fn lemma_close_realizes_directional_pnl(
    v: TradingCoreView,
    trader: AccountId,
    position_id: u64,
    exit_price: i128,
    now: u64,
)
    requires
        v.close_outcome(trader, position_id, exit_price, now) is Ok,
    ensures
        ({
            let p = v.positions[position_id];
            let (after, realized) = v.close_outcome(trader, position_id, exit_price, now)->Ok_0;
            let favourable_move = if p.direction == Direction::Long {
                exit_price - p.entry_price
            } else {
                p.entry_price - exit_price
            };
            let fee = div_trunc(p.position_size * v.fee_bps(), 10000);
            &&& realized == div_trunc(p.position_size * favourable_move, p.entry_price as int) - fee
            &&& after.positions[position_id].status == PositionStatus::Closed
            &&& after.positions[position_id].unrealized_pnl == realized
            &&& (p.direction == Direction::Short && exit_price >= p.entry_price && p.position_size >= 0
                && p.entry_price > 0) ==> realized <= -fee
        }),
{
    let p = v.positions[position_id];
    if p.direction == Direction::Short && exit_price >= p.entry_price && p.position_size >= 0 && p.entry_price > 0 {
        let x = p.position_size * (p.entry_price - exit_price);
        assert(x <= 0) by (nonlinear_arith)
            requires
                p.position_size >= 0,
                p.entry_price - exit_price <= 0,
                x == p.position_size * (p.entry_price - exit_price),
        ;
        assert(div_trunc(x, p.entry_price as int) <= 0);
    }
}

} // verus!

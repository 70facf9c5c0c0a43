//! Simulated executor for paper trading and backtesting, driving each order through
//! the order state machine.
//!
//! Orders are acknowledged and filled at once at their price: in full, or, with
//! partial fills on, for the share of their remaining size that their queue position
//! gives. Fills carry no fee, so their cash flow is their notional. Fill rates are in
//! parts per billion. Fills wait in a bounded queue; when it is full the oldest fill is
//! dropped.
use vstd::prelude::*;
use vstd::string::StringExecFns;
use crossbeam::queue::ArrayQueue;
use crate::clock::system_time_now;
use crate::execution::order_bridge::{core_side, spec_legacy_to_core, OrderStateWrapper};
use crate::execution::production::remaining_of;
use crate::execution::types::{ExecutionMode, Fill, Order, OrderId, OrderStatus};
use crate::order_fsm::{spec_fill, state_data, state_status, status_is_active, OrderState};
use crate::keyed::{
    key_index, keys_distinct, lemma_key_index_unique, lemma_remove_kv, lemma_update_value, lemma_upsert_kv, remove_kv,
    upsert_kv, upsert_kv_position,
};
use crate::text::{fixed9_text, push_fixed9};

verus! {

/// Capacity of the fill queue.
pub const MAX_PENDING_FILLS: usize = 1024;

/// One in parts per billion: the scale of fill rates and queue ratios.
pub const RATE_SCALE: u64 = 1_000_000_000;

/// How realistic fills are. Rates are in parts per billion.
#[derive(Debug, Clone, Copy, PartialEq, Eq, Structural)]
pub struct RealisticFillConfig {
    /// Whether orders get a position in the queue of their price level.
    pub enable_queue_modeling: bool,
    /// Whether an order may fill for part of its size.
    pub enable_partial_fills: bool,
    /// Share filled at the front of the queue.
    pub front_of_queue_fill_rate: u64,
    /// Share filled at the back of the queue.
    pub back_of_queue_fill_rate: u64,
}

impl Default for RealisticFillConfig {
    fn default() -> (c: Self)
        ensures
            c == RealisticFillConfig::spec_realistic(),
    {
        Self::realistic()
    }
}

impl RealisticFillConfig {
    /// Realistic fills: queue positions and partial fills, 80% at the front, 40% at the back.
    pub open spec fn spec_realistic() -> RealisticFillConfig {
        RealisticFillConfig {
            enable_queue_modeling: true,
            enable_partial_fills: true,
            front_of_queue_fill_rate: 800_000_000,
            back_of_queue_fill_rate: 400_000_000,
        }
    }

    /// Instant fills: every order fills in full.
    pub fn instant() -> (c: Self)
        ensures
            c == (RealisticFillConfig {
                enable_queue_modeling: false,
                enable_partial_fills: false,
                front_of_queue_fill_rate: RATE_SCALE,
                back_of_queue_fill_rate: RATE_SCALE,
            }),
    {
        RealisticFillConfig {
            enable_queue_modeling: false,
            enable_partial_fills: false,
            front_of_queue_fill_rate: RATE_SCALE,
            back_of_queue_fill_rate: RATE_SCALE,
        }
    }

    /// Realistic fills, for backtesting (see [`RealisticFillConfig::spec_realistic`]).
    pub fn realistic() -> (c: Self)
        ensures
            c == Self::spec_realistic(),
    {
        RealisticFillConfig {
            enable_queue_modeling: true,
            enable_partial_fills: true,
            front_of_queue_fill_rate: 800_000_000,
            back_of_queue_fill_rate: 400_000_000,
        }
    }

    /// Conservative fills, for stress testing: 60% at the front, 20% at the back.
    pub fn conservative() -> (c: Self)
        ensures
            c == (RealisticFillConfig {
                enable_queue_modeling: true,
                enable_partial_fills: true,
                front_of_queue_fill_rate: 600_000_000,
                back_of_queue_fill_rate: 200_000_000,
            }),
    {
        RealisticFillConfig {
            enable_queue_modeling: true,
            enable_partial_fills: true,
            front_of_queue_fill_rate: 600_000_000,
            back_of_queue_fill_rate: 200_000_000,
        }
    }
}

/// An order's place in the queue of its price level.
#[derive(Debug)]
pub struct QueuePosition {
    pub order_id: OrderId,
    /// Price level, nine decimals.
    pub price_level: u64,
    /// Size of the order, nine decimals.
    pub our_size: u64,
    /// Share of the level ahead of the order, in parts per billion (all of it: the
    /// order joins at the back).
    pub size_ahead_ratio: u64,
    pub timestamp: std::time::SystemTime,
}

/// What the queue tracker keeps of a position: price level, size, share ahead.
pub open spec fn position_model(p: QueuePosition) -> (Seq<char>, (u64, u64, u64)) {
    (p.order_id@, (p.price_level, p.our_size, p.size_ahead_ratio))
}

/// Positions after adding an order: with queue modeling on it joins the back of the
/// queue of its price level, replacing an earlier position of the same order.
pub open spec fn positions_after_add(
    s: Seq<(Seq<char>, (u64, u64, u64))>,
    config: RealisticFillConfig,
    order: Order,
) -> Seq<(Seq<char>, (u64, u64, u64))> {
    if config.enable_queue_modeling {
        upsert_kv(s, order.id@, (order.price, order.size, RATE_SCALE))
    } else {
        s
    }
}

/// Fill rate at a share `ratio` of the queue ahead: from the front rate (nothing
/// ahead) to the back rate (everything ahead), in proportion, rounded down.
pub open spec fn interpolated_rate(front: u64, back: u64, ratio: u64) -> int {
    (front * (RATE_SCALE - ratio) + back * ratio) / (RATE_SCALE as int)
}

/// Fill rate of an order, parts per billion: all of it without partial fills or
/// without a tracked position, else the rate at its position.
pub open spec fn spec_fill_probability(
    config: RealisticFillConfig,
    s: Seq<(Seq<char>, (u64, u64, u64))>,
    id: Seq<char>,
) -> int {
    if !config.enable_partial_fills {
        RATE_SCALE as int
    } else {
        match key_index(s, id) {
            None => RATE_SCALE as int,
            Some(i) => interpolated_rate(
                config.front_of_queue_fill_rate,
                config.back_of_queue_fill_rate,
                if s[i].1.2 <= RATE_SCALE { s[i].1.2 } else { RATE_SCALE },
            ),
        }
    }
}

/// Queue positions of the resting orders.
pub struct QueueTracker {
    positions: Vec<QueuePosition>,
    config: RealisticFillConfig,
}

impl QueueTracker {
    #[verifier::type_invariant]
    spec fn distinct(&self) -> bool {
        keys_distinct(self.positions@.map_values(|p: QueuePosition| position_model(p)))
    }

    /// Tracked positions, by order identifier.
    pub closed spec fn positions(&self) -> Seq<(Seq<char>, (u64, u64, u64))> {
        self.positions@.map_values(|p: QueuePosition| position_model(p))
    }

    /// Configuration.
    pub closed spec fn config(&self) -> RealisticFillConfig {
        self.config
    }

    /// A tracker without positions.
    pub fn new(config: RealisticFillConfig) -> (t: Self)
        ensures
            t.positions().len() == 0,
            t.config() == config,
    {
        let t = QueueTracker { positions: Vec::new(), config };
        assert(t.positions() =~= Seq::<(Seq<char>, (u64, u64, u64))>::empty());
        t
    }

    /// Position index of an order.
    fn find(&self, id: &OrderId) -> (r: Option<usize>)
        ensures
            r matches Some(i) ==> i < self.positions().len() && key_index(self.positions(), id@) == Some(i as int),
            r is None ==> key_index(self.positions(), id@) is None,
    {
        proof {
            use_type_invariant(self);
        }
        let ghost s = self.positions();
        let mut i: usize = 0;
        while i < self.positions.len()
            invariant
                0 <= i <= self.positions@.len(),
                s == self.positions@.map_values(|p: QueuePosition| position_model(p)),
                keys_distinct(s),
                forall|j: int| 0 <= j < i ==> s[j].0 != id@,
            decreases self.positions.len() - i,
        {
            if self.positions[i].order_id == *id {
                proof {
                    lemma_key_index_unique(s, id@, i as int);
                }
                return Some(i);
            }
            i = i + 1;
        }
        None
    }

    /// Adds an order at the back of its price level's queue (see [`positions_after_add`]).
    pub fn add_order(&mut self, order: &Order)
        ensures
            final(self).positions() == positions_after_add(old(self).positions(), old(self).config(), *order),
            final(self).config() == old(self).config(),
    {
        proof {
            use_type_invariant(&*self);
        }
        if !self.config.enable_queue_modeling {
            return;
        }
        let ghost s0 = self.positions();
        let position = QueuePosition {
            order_id: order.id.clone(),
            price_level: order.price,
            our_size: order.size,
            size_ahead_ratio: RATE_SCALE,
            timestamp: system_time_now(),
        };
        let found = self.find(&order.id);
        proof {
            lemma_upsert_kv(s0, order.id@, (order.price, order.size, RATE_SCALE));
        }
        let mut positions: Vec<QueuePosition> = Vec::new();
        std::mem::swap(&mut positions, &mut self.positions);
        match found {
            Some(i) => {
                positions.set(i, position);
            },
            None => {
                positions.push(position);
            },
        }
        assert(positions@.map_values(|p: QueuePosition| position_model(p))
            =~= upsert_kv(s0, order.id@, (order.price, order.size, RATE_SCALE)));
        self.positions = positions;
    }

    /// Fill rate of an order (see [`spec_fill_probability`]).
    pub fn calculate_fill_probability(&self, order_id: &OrderId) -> (r: u64)
        ensures
            r == spec_fill_probability(self.config(), self.positions(), order_id@),
    {
        if !self.config.enable_partial_fills {
            return RATE_SCALE;
        }
        match self.find(order_id) {
            None => RATE_SCALE,
            Some(i) => {
                let front = self.config.front_of_queue_fill_rate;
                let back = self.config.back_of_queue_fill_rate;
                let stored = self.positions[i].size_ahead_ratio;
                let ratio = if stored <= RATE_SCALE { stored } else { RATE_SCALE };
                assert(front * (RATE_SCALE - ratio) + back * ratio <= u64::MAX * RATE_SCALE) by (nonlinear_arith)
                    requires ratio <= RATE_SCALE;
                assert((front * (RATE_SCALE - ratio) + back * ratio) / (RATE_SCALE as int) <= u64::MAX) by (nonlinear_arith)
                    requires front * (RATE_SCALE - ratio) + back * ratio <= u64::MAX * RATE_SCALE, RATE_SCALE > 0;
                let weighted = (front as u128) * ((RATE_SCALE - ratio) as u128) + (back as u128) * (ratio as u128);
                (weighted / (RATE_SCALE as u128)) as u64
            },
        }
    }

    /// Stops tracking an order.
    pub fn remove_order(&mut self, order_id: &OrderId)
        ensures
            final(self).positions() == remove_kv(old(self).positions(), order_id@),
            final(self).config() == old(self).config(),
    {
        proof {
            use_type_invariant(&*self);
        }
        let ghost s0 = self.positions();
        proof {
            lemma_remove_kv(s0, order_id@);
        }
        if let Some(i) = self.find(order_id) {
            let mut positions: Vec<QueuePosition> = Vec::new();
            std::mem::swap(&mut positions, &mut self.positions);
            positions.remove(i);
            assert(positions@.map_values(|p: QueuePosition| position_model(p)) =~= s0.remove(i as int));
            self.positions = positions;
        }
    }
}

/// Fills held by a queue, oldest first.
pub uninterp spec fn order_fill_queue_contents(q: ArrayQueue<Fill>) -> Seq<Fill>;

/// Capacity a queue was made with.
pub uninterp spec fn order_fill_queue_capacity(q: ArrayQueue<Fill>) -> nat;

/// `ArrayQueue::new`: an empty queue of capacity `cap` (it panics on a zero capacity and
/// on one whose next power of two above does not fit in `usize`).
#[verifier::external_body]
fn order_fill_queue_new(cap: usize) -> (q: ArrayQueue<Fill>)
    requires
        0 < cap <= isize::MAX,
    ensures
        order_fill_queue_contents(q) == Seq::<Fill>::empty(),
        order_fill_queue_capacity(q) == cap,
{
    ArrayQueue::new(cap)
}

/// `ArrayQueue::push_mut`: appends the fill at the back unless the queue is full, in which
/// case the fill is handed back and the queue is unchanged.
#[verifier::external_body]
fn order_fill_queue_push(q: &mut ArrayQueue<Fill>, fill: Fill) -> (r: Result<(), Fill>)
    ensures
        order_fill_queue_capacity(*final(q)) == order_fill_queue_capacity(*old(q)),
        order_fill_queue_contents(*old(q)).len() < order_fill_queue_capacity(*old(q)) ==> {
            &&& r is Ok
            &&& order_fill_queue_contents(*final(q)) == order_fill_queue_contents(*old(q)).push(fill)
        },
        order_fill_queue_contents(*old(q)).len() >= order_fill_queue_capacity(*old(q)) ==> {
            &&& r == Err::<(), Fill>(fill)
            &&& order_fill_queue_contents(*final(q)) == order_fill_queue_contents(*old(q))
        },
    no_unwind
{
    q.push_mut(fill)
}

/// `ArrayQueue::pop_mut`: removes and returns the oldest fill, or `None` when empty.
#[verifier::external_body]
fn order_fill_queue_pop(q: &mut ArrayQueue<Fill>) -> (r: Option<Fill>)
    ensures
        order_fill_queue_capacity(*final(q)) == order_fill_queue_capacity(*old(q)),
        order_fill_queue_contents(*old(q)).len() == 0 ==> r is None && order_fill_queue_contents(*final(q)) == order_fill_queue_contents(*old(q)),
        order_fill_queue_contents(*old(q)).len() > 0 ==> {
            &&& r == Some(order_fill_queue_contents(*old(q))[0])
            &&& order_fill_queue_contents(*final(q)) == order_fill_queue_contents(*old(q)).drop_first()
        },
    no_unwind
{
    q.pop_mut()
}

/// `ArrayQueue::len`: the number of fills held.
#[verifier::external_body]
fn order_fill_queue_len(q: &ArrayQueue<Fill>) -> (r: usize)
    ensures
        r == order_fill_queue_contents(*q).len(),
{
    q.len()
}


/// Size an order fills for, nine decimals: its remaining size, or with partial fills
/// the share of it at its fill rate, rounded down.
pub open spec fn spec_fill_size(config: RealisticFillConfig, positions: Seq<(Seq<char>, (u64, u64, u64))>, order: Order) -> int {
    if config.enable_partial_fills {
        remaining_of(order) * spec_fill_probability(config, positions, order.id@) / (RATE_SCALE as int)
    } else {
        remaining_of(order)
    }
}

/// Whether `f` is the fill of `order` for `size` at its price, without fee.
pub open spec fn sim_fill_of(f: Fill, order: Order, size: int) -> bool {
    &&& f.order_id@ == order.id@
    &&& f.side == order.side
    &&& f.price == order.price
    &&& f.size == size
    &&& f.fee is None
    &&& f.fee_currency is None
}

/// Whether `s` is the state of `order` (identifier `cid`) once acknowledged and filled
/// for `size`: filled when that is its whole size, else partially filled.
pub open spec fn sim_filled_state(s: OrderState, cid: crate::core_types::OrderId, order: Order, size: int) -> bool {
    let d = state_data(s);
    &&& d.id == cid
    &&& d.side == core_side(order.side)
    &&& d.order_type == order.order_type
    &&& d.price == order.price
    &&& d.quantity == order.size
    &&& d.filled_quantity == size
    &&& s == (if size == order.size { OrderState::Filled(d) } else { OrderState::PartiallyFilled(d) })
}

/// Fill queue after queuing a fill: appended, after dropping the oldest when full.
pub open spec fn queue_after_push(q: Seq<Fill>, f: Fill) -> Seq<Fill> {
    if q.len() < MAX_PENDING_FILLS { q.push(f) } else { q.drop_first().push(f) }
}

/// Message of a fill too small to record.
pub open spec fn zero_fill_message(id: Seq<char>, size: int) -> Seq<char> {
    "HALTING: Fill size converted to zero for order "@ + id + ": "@ + fixed9_text(size as nat)
        + " BTC - cannot update state safely"@
}

/// Message of a fill too large to record.
pub open spec fn overflow_fill_message(id: Seq<char>, size: int) -> Seq<char> {
    "HALTING: Fill size conversion OVERFLOW for order "@ + id + ": "@ + fixed9_text(size as nat)
        + " BTC - cannot update state safely"@
}

/// Message of a fill at a zero price.
pub open spec fn zero_price_message(id: Seq<char>) -> Seq<char> {
    "HALTING: Fill price converted to ZERO for order "@ + id + " - would give away money!"@
}

/// Message of a fill the state machine refuses for exceeding the order.
pub open spec fn exceeding_fill_message(id: Seq<char>) -> Seq<char> {
    "HALTING: Failed to apply fill to order state machine for order "@ + id
        + ": Fill validation failed: fill quantity exceeds remaining quantity"@
}

/// Whether an order entry can still trade.
pub open spec fn active_entry() -> spec_fn((Seq<char>, OrderState)) -> bool {
    |e: (Seq<char>, OrderState)| status_is_active(state_status(e.1))
}

/// Simulated executor (see the module doc).
pub struct SimulatedExecutor {
    orders: Vec<(OrderId, OrderStateWrapper)>,
    pending_fills: ArrayQueue<Fill>,
    total_fills: u64,
    dropped_fills: u64,
    mode: ExecutionMode,
    queue_tracker: QueueTracker,
    config: RealisticFillConfig,
}

/// Order entry of the executor, by identifier text.
pub open spec fn order_entry(e: (OrderId, OrderStateWrapper)) -> (Seq<char>, OrderState) {
    (e.0@, e.1@)
}

impl SimulatedExecutor {
    #[verifier::type_invariant]
    spec fn well_formed(&self) -> bool {
        &&& keys_distinct(self.orders@.map_values(|e: (OrderId, OrderStateWrapper)| order_entry(e)))
        &&& order_fill_queue_capacity(self.pending_fills) == MAX_PENDING_FILLS
        &&& order_fill_queue_contents(self.pending_fills).len() <= MAX_PENDING_FILLS
        &&& self.mode == ExecutionMode::Simulated
        &&& self.queue_tracker.config() == self.config
    }

    /// Orders by identifier, with their state.
    pub closed spec fn orders(&self) -> Seq<(Seq<char>, OrderState)> {
        self.orders@.map_values(|e: (OrderId, OrderStateWrapper)| order_entry(e))
    }

    /// Fills waiting, oldest first.
    pub closed spec fn pending(&self) -> Seq<Fill> {
        order_fill_queue_contents(self.pending_fills)
    }

    /// Fills simulated so far.
    pub closed spec fn total_fills(&self) -> u64 {
        self.total_fills
    }

    /// Fills dropped from a full queue so far.
    pub closed spec fn dropped(&self) -> u64 {
        self.dropped_fills
    }

    /// Queue positions of the orders.
    pub closed spec fn positions(&self) -> Seq<(Seq<char>, (u64, u64, u64))> {
        self.queue_tracker.positions()
    }

    /// Fill realism.
    pub closed spec fn config(&self) -> RealisticFillConfig {
        self.config
    }

    /// Whether only the queue positions may have changed.
    pub open spec fn same_except_positions(&self, other: &Self) -> bool {
        &&& self.orders() == other.orders()
        &&& self.pending() == other.pending()
        &&& self.total_fills() == other.total_fills()
        &&& self.dropped() == other.dropped()
        &&& self.config() == other.config()
    }

    /// An executor with the given fill realism, no orders and no fills.
    pub fn with_config(config: RealisticFillConfig) -> (e: Self)
        ensures
            e.orders().len() == 0,
            e.pending().len() == 0,
            e.positions().len() == 0,
            e.total_fills() == 0 && e.dropped() == 0,
            e.config() == config,
    {
        let e = SimulatedExecutor {
            orders: Vec::new(),
            pending_fills: order_fill_queue_new(MAX_PENDING_FILLS),
            total_fills: 0,
            dropped_fills: 0,
            mode: ExecutionMode::Simulated,
            queue_tracker: QueueTracker::new(config),
            config,
        };
        assert(e.orders() =~= Seq::<(Seq<char>, OrderState)>::empty());
        e
    }

    /// An executor with instant fills.
    pub fn new() -> (e: Self)
        ensures
            e.orders().len() == 0 && e.pending().len() == 0 && e.positions().len() == 0,
            e.total_fills() == 0 && e.dropped() == 0,
            !e.config().enable_queue_modeling && !e.config().enable_partial_fills,
    {
        Self::with_config(RealisticFillConfig::instant())
    }

    /// An executor with instant fills.
    pub fn new_default() -> (e: Self)
        ensures
            e.orders().len() == 0 && e.pending().len() == 0 && e.positions().len() == 0,
            e.total_fills() == 0 && e.dropped() == 0,
            !e.config().enable_queue_modeling && !e.config().enable_partial_fills,
    {
        Self::new()
    }

    /// An executor with realistic fills.
    pub fn new_realistic() -> (e: Self)
        ensures
            e.orders().len() == 0 && e.pending().len() == 0 && e.positions().len() == 0,
            e.total_fills() == 0 && e.dropped() == 0,
            e.config() == RealisticFillConfig::spec_realistic(),
    {
        Self::with_config(RealisticFillConfig::realistic())
    }

    /// An executor with conservative fills.
    pub fn new_conservative() -> (e: Self)
        ensures
            e.orders().len() == 0 && e.pending().len() == 0 && e.positions().len() == 0,
            e.total_fills() == 0 && e.dropped() == 0,
            e.config().enable_queue_modeling && e.config().enable_partial_fills,
            e.config().front_of_queue_fill_rate == 600_000_000,
            e.config().back_of_queue_fill_rate == 200_000_000,
    {
        Self::with_config(RealisticFillConfig::conservative())
    }

    /// Number of fills waiting.
    pub fn pending_fill_count(&self) -> (r: usize)
        ensures
            r == self.pending().len(),
    {
        order_fill_queue_len(&self.pending_fills)
    }

    /// Number of fills dropped from a full queue.
    pub fn dropped_fill_count(&self) -> (r: u64)
        ensures
            r == self.dropped(),
    {
        self.dropped_fills
    }

    /// Whether more than three quarters of the fill queue are in use.
    pub fn is_fill_queue_near_capacity(&self) -> (r: bool)
        ensures
            r == (self.pending().len() > MAX_PENDING_FILLS * 3 / 4),
    {
        order_fill_queue_len(&self.pending_fills) > (MAX_PENDING_FILLS * 3) / 4
    }

    /// Always simulated.
    pub fn execution_mode(&self) -> (r: ExecutionMode)
        ensures
            r == ExecutionMode::Simulated,
    {
        proof {
            use_type_invariant(self);
        }
        self.mode
    }

    /// Position of the order with the given identifier.
    fn find(&self, id: &OrderId) -> (r: Option<usize>)
        ensures
            r matches Some(i) ==> i < self.orders().len() && key_index(self.orders(), id@) == Some(i as int),
            r is None ==> key_index(self.orders(), id@) is None,
    {
        proof {
            use_type_invariant(self);
        }
        let ghost s = self.orders();
        let mut i: usize = 0;
        while i < self.orders.len()
            invariant
                0 <= i <= self.orders@.len(),
                s == self.orders@.map_values(|e: (OrderId, OrderStateWrapper)| order_entry(e)),
                keys_distinct(s),
                forall|j: int| 0 <= j < i ==> s[j].0 != id@,
            decreases self.orders.len() - i,
        {
            if self.orders[i].0 == *id {
                proof {
                    lemma_key_index_unique(s, id@, i as int);
                }
                return Some(i);
            }
            i = i + 1;
        }
        None
    }

    /// Status of the order with the given identifier, if it is tracked.
    pub fn get_order_status(&self, order_id: &OrderId) -> (r: Option<OrderStatus>)
        ensures
            r == (match key_index(self.orders(), order_id@) {
                Some(i) => Some(state_status(self.orders()[i].1)),
                None => None,
            }),
    {
        match self.find(order_id) {
            Some(i) => Some(self.orders[i].1.status()),
            None => None,
        }
    }

    /// Hands out the waiting fills, oldest first, and clears the queue.
    pub fn get_fills(&mut self) -> (r: Vec<Fill>)
        ensures
            r@ == old(self).pending(),
            final(self).pending().len() == 0,
            final(self).orders() == old(self).orders(),
            final(self).positions() == old(self).positions(),
            final(self).total_fills() == old(self).total_fills(),
            final(self).dropped() == old(self).dropped(),
            final(self).config() == old(self).config(),
    {
        proof {
            use_type_invariant(&*self);
        }
        let ghost q0 = self.pending();
        let mut fills: Vec<Fill> = Vec::new();
        loop
            invariant
                fills@ + self.pending() == q0,
                order_fill_queue_capacity(self.pending_fills) == MAX_PENDING_FILLS,
                self.orders() == old(self).orders(),
                self.positions() == old(self).positions(),
                self.total_fills() == old(self).total_fills(),
                self.dropped() == old(self).dropped(),
                self.config() == old(self).config(),
            ensures
                fills@ == q0,
                self.pending().len() == 0,
                self.orders() == old(self).orders(),
                self.positions() == old(self).positions(),
                self.total_fills() == old(self).total_fills(),
                self.dropped() == old(self).dropped(),
                self.config() == old(self).config(),
            decreases self.pending().len(),
        {
            proof {
                use_type_invariant(&*self);
            }
            match order_fill_queue_pop(&mut self.pending_fills) {
                Some(f) => {
                    fills.push(f);
                    assert(fills@ + self.pending() =~= q0);
                },
                None => {
                    assert(fills@ =~= q0);
                    break;
                },
            }
        }
        fills
    }

    /// Fills an acknowledged order for its fill size (see [`spec_fill_size`]) at its
    /// price, through the state machine, and counts the fill. A fill size of zero or
    /// beyond 64 bits, a zero price, or a size the state machine refuses halts with an
    /// error and changes nothing.
    fn simulate_fill(&mut self, wrapper: &mut OrderStateWrapper, order: &Order) -> (r: Result<Fill, String>)
        requires
            old(wrapper)@ matches OrderState::Open(d) && d.filled_quantity == 0 && d.quantity == order.size
                && d.price == order.price,
        ensures
            final(self).orders() == old(self).orders(),
            final(self).pending() == old(self).pending(),
            final(self).positions() == old(self).positions(),
            final(self).dropped() == old(self).dropped(),
            final(self).config() == old(self).config(),
            ({
                let fs = spec_fill_size(old(self).config(), old(self).positions(), *order);
                let d = state_data(old(wrapper)@);
                if fs == 0 {
                    r matches Err(m) && m@ == zero_fill_message(order.id@, fs) && final(wrapper)@ == old(wrapper)@
                        && final(self).total_fills() == old(self).total_fills()
                } else if fs > u64::MAX {
                    r matches Err(m) && m@ == overflow_fill_message(order.id@, fs) && final(wrapper)@ == old(wrapper)@
                        && final(self).total_fills() == old(self).total_fills()
                } else if order.price == 0 {
                    r matches Err(m) && m@ == zero_price_message(order.id@) && final(wrapper)@ == old(wrapper)@
                        && final(self).total_fills() == old(self).total_fills()
                } else if fs > order.size {
                    r matches Err(m) && m@ == exceeding_fill_message(order.id@) && final(wrapper)@ == old(wrapper)@
                        && final(self).total_fills() == old(self).total_fills()
                } else {
                    &&& r matches Ok(f) && sim_fill_of(f, *order, fs)
                    &&& spec_fill(d, fs as u64, order.price) == Ok::<OrderState, crate::order_fsm::FillError>(final(wrapper)@)
                    &&& final(self).total_fills() == old(self).total_fills().wrapping_add(1)
                }
            }),
    {
        proof {
            use_type_invariant(&*self);
            reveal_strlit("HALTING: Fill size converted to zero for order ");
            reveal_strlit("HALTING: Fill size conversion OVERFLOW for order ");
            reveal_strlit(": ");
            reveal_strlit(" BTC - cannot update state safely");
            reveal_strlit("HALTING: Fill price converted to ZERO for order ");
            reveal_strlit(" - would give away money!");
            reveal_strlit("HALTING: Failed to apply fill to order state machine for order ");
            reveal_strlit("Fill validation failed: ");
            reveal_strlit("fill quantity exceeds remaining quantity");
            reveal_strlit(": Fill validation failed: fill quantity exceeds remaining quantity");
        }
        let remaining = order.remaining_size();
        let prob = self.queue_tracker.calculate_fill_probability(&order.id);
        assert(remaining * prob <= u64::MAX * u64::MAX) by (nonlinear_arith);
        let fill_size: u128 = if self.config.enable_partial_fills {
            (remaining as u128) * (prob as u128) / (RATE_SCALE as u128)
        } else {
            remaining as u128
        };
        if fill_size == 0 {
            let mut msg = String::from_str("HALTING: Fill size converted to zero for order ");
            msg.append(order.id.as_str());
            msg.append(": ");
            push_fixed9(&mut msg, fill_size);
            msg.append(" BTC - cannot update state safely");
            return Err(msg);
        }
        if fill_size > u64::MAX as u128 {
            let mut msg = String::from_str("HALTING: Fill size conversion OVERFLOW for order ");
            msg.append(order.id.as_str());
            msg.append(": ");
            push_fixed9(&mut msg, fill_size);
            msg.append(" BTC - cannot update state safely");
            return Err(msg);
        }
        let size = fill_size as u64;
        let price = order.price;
        if price == 0 {
            let mut msg = String::from_str("HALTING: Fill price converted to ZERO for order ");
            msg.append(order.id.as_str());
            msg.append(" - would give away money!");
            return Err(msg);
        }
        let fill = Fill::new(order.id.clone(), order.side, price, size);
        match wrapper.apply_fill(size, price) {
            Ok(()) => {},
            Err(e) => {
                let mut msg = String::from_str("HALTING: Failed to apply fill to order state machine for order ");
                msg.append(order.id.as_str());
                msg.append(": ");
                msg.append(e.as_str());
                return Err(msg);
            },
        }
        self.total_fills = self.total_fills.wrapping_add(1);
        Ok(fill)
    }

    /// Stores an order under its identifier, in place of an earlier one.
    fn upsert_order(&mut self, id: OrderId, wrapper: OrderStateWrapper)
        ensures
            final(self).orders() == upsert_kv(old(self).orders(), id@, wrapper@),
            final(self).pending() == old(self).pending(),
            final(self).positions() == old(self).positions(),
            final(self).total_fills() == old(self).total_fills(),
            final(self).dropped() == old(self).dropped(),
            final(self).config() == old(self).config(),
    {
        proof {
            use_type_invariant(&*self);
        }
        let ghost s0 = self.orders();
        proof {
            lemma_upsert_kv(s0, id@, wrapper@);
        }
        let found = self.find(&id);
        let mut orders: Vec<(OrderId, OrderStateWrapper)> = Vec::new();
        std::mem::swap(&mut orders, &mut self.orders);
        match found {
            Some(i) => {
                orders.set(i, (id, wrapper));
            },
            None => {
                orders.push((id, wrapper));
            },
        }
        assert(orders@.map_values(|e: (OrderId, OrderStateWrapper)| order_entry(e)) =~= upsert_kv(s0, id@, wrapper@));
        self.orders = orders;
    }

    /// Queues a fill; when the queue is full the oldest fill is dropped and counted.
    fn queue_fill(&mut self, fill: Fill)
        ensures
            final(self).pending() == queue_after_push(old(self).pending(), fill),
            final(self).dropped() == (if old(self).pending().len() < MAX_PENDING_FILLS {
                old(self).dropped()
            } else {
                old(self).dropped().wrapping_add(1)
            }),
            final(self).orders() == old(self).orders(),
            final(self).positions() == old(self).positions(),
            final(self).total_fills() == old(self).total_fills(),
            final(self).config() == old(self).config(),
    {
        proof {
            use_type_invariant(&*self);
        }
        match order_fill_queue_push(&mut self.pending_fills, fill) {
            Ok(()) => {},
            Err(returned) => {
                self.dropped_fills = self.dropped_fills.wrapping_add(1);
                if let Some(_oldest) = order_fill_queue_pop(&mut self.pending_fills) {
                    let _ = order_fill_queue_push(&mut self.pending_fills, returned);
                }
            },
        }
    }

    /// Places an order: an order of size zero is refused ("Order size must be
    /// positive"), as is one whose identifier is not a 128-bit hex number ("Invalid
    /// order ID: ..."). Otherwise the order is acknowledged, joins the queue tracker and
    /// is filled (see [`SimulatedExecutor::simulate_fill`] for the errors that halt); the
    /// fill is queued and the order stored under its identifier.
    pub fn place_order(&mut self, order: Order) -> (r: Result<OrderId, String>)
        ensures
            final(self).config() == old(self).config(),
            order.size == 0 ==> (r matches Err(m) && m@ == "Order size must be positive"@
                && final(self).same_except_positions(&*old(self)) && final(self).positions() == old(self).positions()),
            order.size > 0 ==> match spec_legacy_to_core(order.id@) {
                Err(msg) => r matches Err(m) && m@ == "Invalid order ID: "@ + msg
                    && final(self).same_except_positions(&*old(self)) && final(self).positions() == old(self).positions(),
                Ok(cid) => {
                    let pos1 = positions_after_add(old(self).positions(), old(self).config(), order);
                    let fs = spec_fill_size(old(self).config(), pos1, order);
                    let k = upsert_kv_position(old(self).orders(), order.id@);
                    &&& final(self).positions() == pos1
                    &&& fs == 0 ==> (r matches Err(m) && m@ == zero_fill_message(order.id@, fs)
                        && final(self).same_except_positions(&*old(self)))
                    &&& fs > u64::MAX ==> (r matches Err(m) && m@ == overflow_fill_message(order.id@, fs)
                        && final(self).same_except_positions(&*old(self)))
                    &&& (0 < fs <= u64::MAX && order.price == 0) ==> (r matches Err(m) && m@ == zero_price_message(order.id@)
                        && final(self).same_except_positions(&*old(self)))
                    &&& (order.size < fs <= u64::MAX && order.price > 0) ==> (r matches Err(m)
                        && m@ == exceeding_fill_message(order.id@) && final(self).same_except_positions(&*old(self)))
                    &&& (0 < fs <= order.size && order.price > 0) ==> {
                        &&& r matches Ok(id) && id@ == order.id@
                        &&& final(self).total_fills() == old(self).total_fills().wrapping_add(1)
                        &&& final(self).orders() == upsert_kv(old(self).orders(), order.id@, final(self).orders()[k].1)
                        &&& sim_filled_state(final(self).orders()[k].1, cid, order, fs)
                        &&& final(self).pending() == queue_after_push(old(self).pending(), final(self).pending().last())
                        &&& sim_fill_of(final(self).pending().last(), order, fs)
                        &&& final(self).dropped() == (if old(self).pending().len() < MAX_PENDING_FILLS {
                            old(self).dropped()
                        } else {
                            old(self).dropped().wrapping_add(1)
                        })
                    }
                },
            },
    {
        proof {
            use_type_invariant(&*self);
            reveal_strlit("Order size must be positive");
            reveal_strlit("Invalid order ID: ");
            reveal_strlit("Failed to acknowledge order: ");
        }
        if order.size == 0 {
            return Err(String::from_str("Order size must be positive"));
        }
        let order_id = order.id.clone();
        let mut wrapper = match OrderStateWrapper::from_legacy(&order) {
            Ok(w) => w,
            Err(e) => {
                let mut msg = String::from_str("Invalid order ID: ");
                msg.append(e.as_str());
                return Err(msg);
            },
        };
        match wrapper.acknowledge() {
            Ok(()) => {},
            Err(e) => {
                let mut msg = String::from_str("Failed to acknowledge order: ");
                msg.append(e.as_str());
                return Err(msg);
            },
        }
        let mut tracker = QueueTracker::new(self.config);
        std::mem::swap(&mut tracker, &mut self.queue_tracker);
        tracker.add_order(&order);
        self.queue_tracker = tracker;
        let ghost w1 = wrapper@;
        let fill = match self.simulate_fill(&mut wrapper, &order) {
            Ok(f) => f,
            Err(e) => return Err(e),
        };
        let ghost f0 = fill;
        self.queue_fill(fill);
        let ghost s1 = self.orders();
        self.upsert_order(order_id.clone(), wrapper);
        proof {
            lemma_upsert_kv(s1, order.id@, wrapper@);
            let d = state_data(w1);
            let fs = spec_fill_size(old(self).config(), self.positions(), order);
            assert(self.pending().last() == f0);
        }
        Ok(order_id)
    }

    /// Cancels an active order through the state machine and stops tracking its queue
    /// position. An unknown order gives "Order <id> not found", an inactive one "Order
    /// <id> is not active", and a refused cancellation "Failed to cancel order <id>:
    /// ..."; then nothing changes.
    pub fn cancel_order(&mut self, order_id: &OrderId) -> (r: Result<(), String>)
        ensures
            final(self).pending() == old(self).pending(),
            final(self).total_fills() == old(self).total_fills(),
            final(self).dropped() == old(self).dropped(),
            final(self).config() == old(self).config(),
            match key_index(old(self).orders(), order_id@) {
                None => r matches Err(m) && m@ == "Order "@ + order_id@ + " not found"@
                    && final(self).orders() == old(self).orders() && final(self).positions() == old(self).positions(),
                Some(i) => {
                    let st = old(self).orders()[i].1;
                    if !status_is_active(state_status(st)) {
                        r matches Err(m) && m@ == "Order "@ + order_id@ + " is not active"@
                            && final(self).orders() == old(self).orders() && final(self).positions() == old(self).positions()
                    } else {
                        match crate::execution::order_bridge::spec_cancel(st) {
                            None => r matches Err(m)
                                && m@ == "Failed to cancel order "@ + order_id@ + ": Can only cancel Open or PartiallyFilled orders"@
                                && final(self).orders() == old(self).orders() && final(self).positions() == old(self).positions(),
                            Some(c) => {
                                &&& r is Ok
                                &&& final(self).orders() == old(self).orders().update(i, (order_id@, c))
                                &&& final(self).positions() == remove_kv(old(self).positions(), order_id@)
                            },
                        }
                    }
                },
            },
    {
        proof {
            use_type_invariant(&*self);
            reveal_strlit("Order ");
            reveal_strlit(" not found");
            reveal_strlit(" is not active");
            reveal_strlit("Failed to cancel order ");
            reveal_strlit(": ");
            reveal_strlit("Can only cancel Open or PartiallyFilled orders");
            reveal_strlit(": Can only cancel Open or PartiallyFilled orders");
        }
        let ghost s0 = self.orders();
        let i = match self.find(order_id) {
            Some(i) => i,
            None => {
                let mut msg = String::from_str("Order ");
                msg.append(order_id.as_str());
                msg.append(" not found");
                return Err(msg);
            },
        };
        if !self.orders[i].1.is_active() {
            let mut msg = String::from_str("Order ");
            msg.append(order_id.as_str());
            msg.append(" is not active");
            return Err(msg);
        }
        let mut orders: Vec<(OrderId, OrderStateWrapper)> = Vec::new();
        std::mem::swap(&mut orders, &mut self.orders);
        assert(orders@.map_values(|e: (OrderId, OrderStateWrapper)| order_entry(e)) == s0);
        let (id, mut wrapper) = orders.remove(i);
        let result = wrapper.cancel();
        let ghost w = wrapper@;
        orders.insert(i, (id, wrapper));
        assert(orders@.map_values(|e: (OrderId, OrderStateWrapper)| order_entry(e)) =~= s0.update(i as int, (order_id@, w)));
        proof {
            lemma_update_value(s0, i as int, w);
        }
        self.orders = orders;
        match result {
            Err(e) => {
                assert(s0.update(i as int, (order_id@, w)) =~= s0);
                let mut msg = String::from_str("Failed to cancel order ");
                msg.append(order_id.as_str());
                msg.append(": ");
                msg.append(e.as_str());
                Err(msg)
            },
            Ok(()) => {
                let mut tracker = QueueTracker::new(self.config);
                std::mem::swap(&mut tracker, &mut self.queue_tracker);
                tracker.remove_order(order_id);
                self.queue_tracker = tracker;
                Ok(())
            },
        }
    }

    /// Orders that can still trade, as execution-layer orders, in the order tracked.
    pub fn get_active_orders(&self) -> (r: Vec<Order>)
        ensures
            ({
                let active = self.orders().filter(active_entry());
                &&& r@.len() == active.len()
                &&& forall|k: int| 0 <= k < r@.len() ==> {
                    let s = #[trigger] active[k].1;
                    &&& r@[k].status == state_status(s)
                    &&& r@[k].price == state_data(s).price
                    &&& r@[k].size == state_data(s).quantity
                    &&& r@[k].filled_size == state_data(s).filled_quantity
                }
            }),
    {
        let ghost all = self.orders();
        let ghost pred = active_entry();
        let mut out: Vec<Order> = Vec::new();
        let mut i: usize = 0;
        while i < self.orders.len()
            invariant
                0 <= i <= all.len(),
                pred == active_entry(),
                all == self.orders(),
                all == self.orders@.map_values(|e: (OrderId, OrderStateWrapper)| order_entry(e)),
                out@.len() == all.take(i as int).filter(pred).len(),
                forall|k: int| 0 <= k < out@.len() ==> {
                    let s = #[trigger] all.take(i as int).filter(pred)[k].1;
                    &&& out@[k].status == state_status(s)
                    &&& out@[k].price == state_data(s).price
                    &&& out@[k].size == state_data(s).quantity
                    &&& out@[k].filled_size == state_data(s).filled_quantity
                },
            decreases all.len() - i,
        {
            proof {
                lemma_filter_take_step(all, pred, i as int);
            }
            assert(all[i as int] == order_entry(self.orders@[i as int]));
            let active_now = self.orders[i].1.is_active();
            assert(all[i as int].1 == self.orders@[i as int].1@);
            assert(active_now == status_is_active(state_status(all[i as int].1)));
            assert(pred(all[i as int]) == status_is_active(state_status(all[i as int].1)));
            if active_now {
                assert(pred(all[i as int]));
                let o = self.orders[i].1.to_legacy();
                out.push(o);
                assert(all.take(i + 1).filter(pred) == all.take(i as int).filter(pred).push(all[i as int]));
            } else {
                assert(!pred(all[i as int]));
            }
            i = i + 1;
        }
        assert(all.take(i as int) =~= all);
        out
    }
}

/// Filtering a one-longer prefix adds the next entry when it passes.
proof fn lemma_filter_take_step<V>(s: Seq<V>, pred: spec_fn(V) -> bool, i: int)
    requires
        0 <= i < s.len(),
    ensures
        s.take(i + 1).filter(pred) == (if pred(s[i]) { s.take(i).filter(pred).push(s[i]) } else { s.take(i).filter(pred) }),
{
    assert(s.take(i + 1).drop_last() =~= s.take(i));
    assert(s.take(i + 1).last() == s[i]);
    s.take(i).lemma_filter_push(s[i], pred);
    assert(s.take(i).push(s[i]) =~= s.take(i + 1));
}

/// Without partial fills every order fills for its whole remaining size.
pub proof fn lemma_instant_fills_are_complete(
    config: RealisticFillConfig,
    positions: Seq<(Seq<char>, (u64, u64, u64))>,
    order: Order,
)
    requires
        !config.enable_partial_fills,
    ensures
        spec_fill_size(config, positions, order) == remaining_of(order),
{
}

/// With queue modeling and partial fills, an order joins the back of its queue and so
/// fills at the back-of-queue rate.
pub proof fn lemma_new_orders_fill_at_back_rate(
    config: RealisticFillConfig,
    positions: Seq<(Seq<char>, (u64, u64, u64))>,
    order: Order,
)
    requires
        config.enable_queue_modeling,
        config.enable_partial_fills,
        keys_distinct(positions),
    ensures
        spec_fill_probability(config, positions_after_add(positions, config, order), order.id@)
            == config.back_of_queue_fill_rate,
        spec_fill_size(config, positions_after_add(positions, config, order), order)
            == remaining_of(order) * config.back_of_queue_fill_rate / (RATE_SCALE as int),
{
    let p1 = positions_after_add(positions, config, order);
    lemma_upsert_kv(positions, order.id@, (order.price, order.size, RATE_SCALE));
    let k = upsert_kv_position(positions, order.id@);
    lemma_key_index_unique(p1, order.id@, k);
    let front = config.front_of_queue_fill_rate;
    let back = config.back_of_queue_fill_rate;
    assert(front * (RATE_SCALE - RATE_SCALE) + back * RATE_SCALE == back * RATE_SCALE) by (nonlinear_arith);
    assert((back * RATE_SCALE) / (RATE_SCALE as int) == back) by (nonlinear_arith);
}

/// The fill queue never holds more than [`MAX_PENDING_FILLS`] fills: queuing a fill
/// into a queue within the bound keeps it within the bound, and keeps the new fill.
pub proof fn lemma_fill_queue_bounded(q: Seq<Fill>, f: Fill)
    requires
        q.len() <= MAX_PENDING_FILLS,
    ensures
        queue_after_push(q, f).len() <= MAX_PENDING_FILLS,
        queue_after_push(q, f).last() == f,
{
}

/// With fill rates of at most one, an order never fills for more than its remaining
/// size, so the state machine accepts every simulated fill of a fresh order.
pub proof fn lemma_fill_size_within_remaining(
    config: RealisticFillConfig,
    positions: Seq<(Seq<char>, (u64, u64, u64))>,
    order: Order,
)
    requires
        config.front_of_queue_fill_rate <= RATE_SCALE,
        config.back_of_queue_fill_rate <= RATE_SCALE,
    ensures
        0 <= spec_fill_probability(config, positions, order.id@) <= RATE_SCALE,
        0 <= spec_fill_size(config, positions, order) <= remaining_of(order),
{
    let p = spec_fill_probability(config, positions, order.id@);
    if config.enable_partial_fills {
        match key_index(positions, order.id@) {
            Some(i) => {
                let front = config.front_of_queue_fill_rate;
                let back = config.back_of_queue_fill_rate;
                let stored = positions[i].1.2;
                let ratio: u64 = if stored <= RATE_SCALE { stored } else { RATE_SCALE };
                assert(front * (RATE_SCALE - ratio) + back * ratio <= RATE_SCALE * RATE_SCALE) by (nonlinear_arith)
                    requires front <= RATE_SCALE, back <= RATE_SCALE, ratio <= RATE_SCALE;
                assert(0 <= front * (RATE_SCALE - ratio) + back * ratio) by (nonlinear_arith)
                    requires ratio <= RATE_SCALE;
                assert((front * (RATE_SCALE - ratio) + back * ratio) / (RATE_SCALE as int) <= RATE_SCALE) by (nonlinear_arith)
                    requires front * (RATE_SCALE - ratio) + back * ratio <= RATE_SCALE * RATE_SCALE, RATE_SCALE > 0;
                assert((front * (RATE_SCALE - ratio) + back * ratio) / (RATE_SCALE as int) >= 0) by (nonlinear_arith)
                    requires 0 <= front * (RATE_SCALE - ratio) + back * ratio, RATE_SCALE > 0;
            },
            None => {},
        }
        let rem = remaining_of(order);
        assert(0 <= rem * p / (RATE_SCALE as int) <= rem) by (nonlinear_arith)
            requires 0 <= p <= RATE_SCALE, rem >= 0, RATE_SCALE > 0;
    }
}

} // verus!

//! Simulated executor for paper trading: every order fills at once at its own price,
//! and the fills wait in a bounded queue until the engine collects them.
use vstd::prelude::*;
use crossbeam::queue::ArrayQueue;
use crate::core_types::{OrderId, Position, Side, Signal, SignalAction};
use vstd::string::StringExecFns;
use crate::config::DEFAULT_FEE_BPS;
use crate::engine::generic::{Executor, ExecutorRequest, FixedFill};
use crate::engine::risk::{spec_validate_signal, spec_violation_str, validate_signal, RiskViolation};

verus! {

/// Side of a simulated order.
#[derive(Clone, Copy, PartialEq, Eq, Structural, Debug)]
pub enum OrderSide {
    Buy,
    Sell,
}

impl Default for OrderSide {
    fn default() -> (s: Self)
        ensures
            s == OrderSide::Buy,
    {
        OrderSide::Buy
    }
}

/// Status of a simulated order.
#[derive(Clone, Copy, PartialEq, Eq, Structural, Debug)]
pub enum OrderStatusBits {
    Open,
    PartiallyFilled,
    Filled,
    Cancelled,
}

impl Default for OrderStatusBits {
    fn default() -> (s: Self)
        ensures
            s == OrderStatusBits::Open,
    {
        OrderStatusBits::Open
    }
}

/// A simulated order, prices and sizes in nine-decimal fixed point.
#[derive(Clone, Copy, PartialEq, Eq, Structural, Debug)]
pub struct PooledOrder {
    pub id: OrderId,
    pub side: OrderSide,
    pub price: u64,
    pub size: u64,
    pub filled_size: u64,
    pub status: OrderStatusBits,
}

impl Default for PooledOrder {
    fn default() -> (o: Self)
        ensures
            o == (PooledOrder { id: OrderId(0), side: OrderSide::Buy, price: 0, size: 0, filled_size: 0, status: OrderStatusBits::Open }),
    {
        PooledOrder { id: OrderId(0), side: OrderSide::Buy, price: 0, size: 0, filled_size: 0, status: OrderStatusBits::Open }
    }
}

impl PooledOrder {
    /// A new open order with nothing filled.
    pub fn new(id: OrderId, side: OrderSide, price: u64, size: u64) -> (o: Self)
        ensures
            o == (PooledOrder { id, side, price, size, filled_size: 0, status: OrderStatusBits::Open }),
    {
        PooledOrder { id, side, price, size, filled_size: 0, status: OrderStatusBits::Open }
    }

    /// Size still to fill (zero once filled or overfilled).
    pub fn remaining_size(&self) -> (r: u64)
        ensures
            r == (if self.size >= self.filled_size { (self.size - self.filled_size) as u64 } else { 0 }),
    {
        if self.size >= self.filled_size { self.size - self.filled_size } else { 0 }
    }

    /// Whether the whole size is filled.
    pub fn is_filled(&self) -> (r: bool)
        ensures
            r == (self.filled_size >= self.size),
    {
        self.filled_size >= self.size
    }

    /// Whether the order can still fill: open or partially filled.
    pub fn is_active(&self) -> (r: bool)
        ensures
            r == (self.status == OrderStatusBits::Open || self.status == OrderStatusBits::PartiallyFilled),
    {
        self.status == OrderStatusBits::Open || self.status == OrderStatusBits::PartiallyFilled
    }
}

/// A simulated fill, prices and sizes in nine-decimal fixed point.
#[derive(Clone, Copy, PartialEq, Eq, Structural, Debug)]
pub struct PooledFill {
    pub order_id: OrderId,
    pub side: OrderSide,
    pub price: u64,
    pub size: u64,
}

impl Default for PooledFill {
    fn default() -> (f: Self)
        ensures
            f == (PooledFill { order_id: OrderId(0), side: OrderSide::Buy, price: 0, size: 0 }),
    {
        PooledFill { order_id: OrderId(0), side: OrderSide::Buy, price: 0, size: 0 }
    }
}

/// Value of a fill: price times size, in fixed point, truncated to `u64`.
pub open spec fn spec_notional(price: u64, size: u64) -> u64 {
    ((price as int * size as int) / 1_000_000_000) as u64
}

/// Signed position change of a fill (`size` reinterpreted as `i64`).
pub open spec fn spec_position_change(side: OrderSide, size: u64) -> int {
    match side {
        OrderSide::Buy => (size as i64) as int,
        OrderSide::Sell => -((size as i64) as int),
    }
}

impl PooledFill {
    /// A fill of `size` at `price` for an order.
    pub fn new(order_id: OrderId, side: OrderSide, price: u64, size: u64) -> (f: Self)
        ensures
            f == (PooledFill { order_id, side, price, size }),
    {
        PooledFill { order_id, side, price, size }
    }

    /// Value of the fill: price times size in fixed point.
    pub fn notional(&self) -> (r: u64)
        ensures
            r == spec_notional(self.price, self.size),
    {
        let p: u128 = self.price as u128;
        let s: u128 = self.size as u128;
        assert(p * s <= u64::MAX as int * u64::MAX as int) by (nonlinear_arith)
            requires p <= u64::MAX, s <= u64::MAX;
        ((p * s) / 1_000_000_000) as u64
    }

    /// Position change: plus the size for a buy, minus it for a sell.
    pub fn position_change(&self) -> (r: i64)
        requires
            self.side == OrderSide::Sell ==> self.size as i64 != i64::MIN,
        ensures
            r == spec_position_change(self.side, self.size),
    {
        match self.side {
            OrderSide::Buy => self.size as i64,
            OrderSide::Sell => -(self.size as i64),
        }
    }
}

#[verifier::external_type_specification]
#[verifier::external_body]
#[verifier::reject_recursive_types(T)]
pub struct ExArrayQueue<T>(crossbeam::queue::ArrayQueue<T>);

/// Fills held by a queue, oldest first.
pub uninterp spec fn fill_queue_contents(q: ArrayQueue<PooledFill>) -> Seq<PooledFill>;

/// Capacity a queue was made with.
pub uninterp spec fn fill_queue_capacity(q: ArrayQueue<PooledFill>) -> nat;

/// `ArrayQueue::new`: an empty queue of capacity `cap` (it panics on a zero capacity and
/// on one whose next power of two above does not fit in `usize`).
#[verifier::external_body]
fn fill_queue_new(cap: usize) -> (q: ArrayQueue<PooledFill>)
    requires
        0 < cap <= isize::MAX,
    ensures
        fill_queue_contents(q) == Seq::<PooledFill>::empty(),
        fill_queue_capacity(q) == cap,
{
    ArrayQueue::new(cap)
}

/// `ArrayQueue::push_mut`: appends the fill at the back unless the queue is full, in which
/// case the fill is handed back and the queue is unchanged.
#[verifier::external_body]
fn fill_queue_push(q: &mut ArrayQueue<PooledFill>, fill: PooledFill) -> (r: Result<(), PooledFill>)
    ensures
        fill_queue_capacity(*final(q)) == fill_queue_capacity(*old(q)),
        fill_queue_contents(*old(q)).len() < fill_queue_capacity(*old(q)) ==> {
            &&& r is Ok
            &&& fill_queue_contents(*final(q)) == fill_queue_contents(*old(q)).push(fill)
        },
        fill_queue_contents(*old(q)).len() >= fill_queue_capacity(*old(q)) ==> {
            &&& r == Err::<(), PooledFill>(fill)
            &&& fill_queue_contents(*final(q)) == fill_queue_contents(*old(q))
        },
{
    q.push_mut(fill)
}

/// `ArrayQueue::pop_mut`: removes and returns the oldest fill, or `None` when empty.
#[verifier::external_body]
fn fill_queue_pop(q: &mut ArrayQueue<PooledFill>) -> (r: Option<PooledFill>)
    ensures
        fill_queue_capacity(*final(q)) == fill_queue_capacity(*old(q)),
        fill_queue_contents(*old(q)).len() == 0 ==> r is None && fill_queue_contents(*final(q)) == fill_queue_contents(*old(q)),
        fill_queue_contents(*old(q)).len() > 0 ==> {
            &&& r == Some(fill_queue_contents(*old(q))[0])
            &&& fill_queue_contents(*final(q)) == fill_queue_contents(*old(q)).drop_first()
        },
{
    q.pop_mut()
}

/// Why the simulated executor refused or failed a signal.
#[derive(Clone, Copy, PartialEq, Eq, Structural, Debug)]
pub enum SimulatedExecutionError {
    /// The signal broke a risk limit.
    Risk(RiskViolation),
    /// The fill queue was full and a fill was dropped.
    FillQueueOverflow,
}

/// Executor statistics.
#[derive(Clone, Copy, PartialEq, Eq, Structural, Debug)]
pub struct ExecutorStats {
    pub total_orders: u64,
    pub total_fills: u64,
    pub total_volume: u64,
}

/// Abstract state of a [`SimulatedExecutor`].
pub struct SimulatedModel {
    pub pending: Seq<PooledFill>,
    pub capacity: nat,
    pub total_orders: u64,
    pub total_fills: u64,
    pub total_volume: u64,
    pub dropped_fills: u64,
}

/// State and result after placing one order, which fills at once under order id `id`:
/// the fill is counted, then queued; a full queue drops it and reports an overflow.
pub open spec fn spec_place(m: SimulatedModel, id: OrderId, side: OrderSide, price: u64, size: u64)
    -> (SimulatedModel, Result<(), SimulatedExecutionError>)
{
    let fill = PooledFill { order_id: id, side, price, size };
    let counted = SimulatedModel {
        total_fills: m.total_fills.wrapping_add(1),
        total_volume: m.total_volume.wrapping_add(size),
        ..m
    };
    if m.pending.len() < m.capacity {
        (SimulatedModel {
            pending: m.pending.push(fill),
            total_orders: m.total_orders.wrapping_add(1),
            ..counted
        }, Ok(()))
    } else {
        (SimulatedModel { dropped_fills: m.dropped_fills.wrapping_add(1), ..counted },
         Err(SimulatedExecutionError::FillQueueOverflow))
    }
}

/// State and result after executing a signal, the orders it places getting ids `id1`
/// and then `id2`: the risk check first, then one order per quoted side (bid first), or
/// one order on the signal's side for a take; nothing for a cancel or no action.
pub open spec fn spec_execute(m: SimulatedModel, signal: Signal, position: Position, id1: OrderId, id2: OrderId)
    -> (SimulatedModel, Result<(), SimulatedExecutionError>)
{
    match spec_validate_signal(signal, position) {
        Err(v) => (m, Err(SimulatedExecutionError::Risk(v))),
        Ok(_) => match signal.action {
            SignalAction::QuoteBoth => {
                let (m1, r1) = spec_place(m, id1, OrderSide::Buy, signal.bid_price, signal.size);
                if r1 is Err {
                    (m1, r1)
                } else {
                    spec_place(m1, id2, OrderSide::Sell, signal.ask_price, signal.size)
                }
            },
            SignalAction::QuoteBid => spec_place(m, id1, OrderSide::Buy, signal.bid_price, signal.size),
            SignalAction::QuoteAsk => spec_place(m, id1, OrderSide::Sell, signal.ask_price, signal.size),
            SignalAction::TakePosition => match signal.side {
                Side::Buy => spec_place(m, id1, OrderSide::Buy, signal.bid_price, signal.size),
                Side::Sell => spec_place(m, id1, OrderSide::Sell, signal.ask_price, signal.size),
            },
            _ => (m, Ok(())),
        },
    }
}

/// Simulated executor: instant fills into a bounded queue, with counters.
pub struct SimulatedExecutor {
    pending_fills: ArrayQueue<PooledFill>,
    total_orders: u64,
    total_fills: u64,
    total_volume: u64,
    dropped_fills: u64,
    requests: Ghost<Seq<ExecutorRequest>>,
}

impl View for SimulatedExecutor {
    type V = SimulatedModel;

    closed spec fn view(&self) -> SimulatedModel {
        SimulatedModel {
            pending: fill_queue_contents(self.pending_fills),
            capacity: fill_queue_capacity(self.pending_fills),
            total_orders: self.total_orders,
            total_fills: self.total_fills,
            total_volume: self.total_volume,
            dropped_fills: self.dropped_fills,
        }
    }
}

impl SimulatedExecutor {
    /// An executor whose fill queue holds `fill_capacity` fills; `order_capacity` bounds
    /// the orders it may track.
    pub fn new(order_capacity: usize, fill_capacity: usize) -> (e: Self)
        requires
            0 < order_capacity <= isize::MAX,
            0 < fill_capacity <= isize::MAX,
        ensures
            e@ == (SimulatedModel {
                pending: Seq::empty(),
                capacity: fill_capacity as nat,
                total_orders: 0,
                total_fills: 0,
                total_volume: 0,
                dropped_fills: 0,
            }),
    {
        SimulatedExecutor {
            pending_fills: fill_queue_new(fill_capacity),
            total_orders: 0,
            total_fills: 0,
            total_volume: 0,
            dropped_fills: 0,
            requests: Ghost(Seq::empty()),
        }
    }

    /// An executor for 256 orders and 1024 fills.
    pub fn new_default() -> (e: Self)
        ensures
            e@ == (SimulatedModel {
                pending: Seq::empty(),
                capacity: 1024,
                total_orders: 0,
                total_fills: 0,
                total_volume: 0,
                dropped_fills: 0,
            }),
    {
        Self::new(256, 1024)
    }

    /// Fills an order completely at its price, counting the fill and its volume.
    fn simulate_fill(&mut self, order: PooledOrder) -> (f: PooledFill)
        ensures
            f == (PooledFill {
                order_id: order.id,
                side: order.side,
                price: order.price,
                size: if order.size >= order.filled_size { (order.size - order.filled_size) as u64 } else { 0 },
            }),
            final(self)@ == (SimulatedModel {
                total_fills: old(self)@.total_fills.wrapping_add(1),
                total_volume: old(self)@.total_volume.wrapping_add(f.size),
                ..old(self)@
            }),
    {
        let fill_size = order.remaining_size();
        let fill_price = order.price;
        let fill = PooledFill::new(order.id, order.side, fill_price, fill_size);
        self.total_fills = self.total_fills.wrapping_add(1);
        self.total_volume = self.total_volume.wrapping_add(fill_size);
        fill
    }

    /// Places one order under a fresh id; it fills at once and the fill is queued.
    fn place_order_internal(&mut self, side: OrderSide, price: u64, size: u64) -> (r: Result<(), SimulatedExecutionError>)
        ensures
            exists|id: OrderId| (final(self)@, r) == spec_place(old(self)@, id, side, price, size),
    {
        let order_id = OrderId::generate();
        let order = PooledOrder::new(order_id, side, price, size);
        let fill = self.simulate_fill(order);
        match fill_queue_push(&mut self.pending_fills, fill) {
            Ok(()) => {},
            Err(_) => {
                self.dropped_fills = self.dropped_fills.wrapping_add(1);
                assert((self@, Err::<(), SimulatedExecutionError>(SimulatedExecutionError::FillQueueOverflow))
                    == spec_place(old(self)@, order_id, side, price, size));
                return Err(SimulatedExecutionError::FillQueueOverflow);
            },
        }
        self.total_orders = self.total_orders.wrapping_add(1);
        assert((self@, Ok::<(), SimulatedExecutionError>(())) == spec_place(old(self)@, order_id, side, price, size));
        Ok(())
    }

    /// Executes a signal: risk check, then instant fills for the orders it places.
    fn execute_checked(&mut self, signal: Signal, position: &Position) -> (r: Result<(), SimulatedExecutionError>)
        ensures
            exists|id1: OrderId, id2: OrderId| (final(self)@, r) == spec_execute(old(self)@, signal, *position, id1, id2),
    {
        match validate_signal(&signal, position) {
            Ok(()) => {},
            Err(v) => {
                assert((self@, Err::<(), SimulatedExecutionError>(SimulatedExecutionError::Risk(v)))
                    == spec_execute(old(self)@, signal, *position, OrderId(0), OrderId(0)));
                return Err(SimulatedExecutionError::Risk(v));
            },
        }
        let ghost m0 = self@;
        match signal.action {
            SignalAction::QuoteBoth => {
                let r1 = self.place_order_internal(OrderSide::Buy, signal.bid_price, signal.size);
                let ghost m1 = self@;
                let ghost id1 = choose|id: OrderId| (m1, r1) == spec_place(m0, id, OrderSide::Buy, signal.bid_price, signal.size);
                if r1.is_err() {
                    assert((self@, r1) == spec_execute(m0, signal, *position, id1, OrderId(0)));
                    return r1;
                }
                let r2 = self.place_order_internal(OrderSide::Sell, signal.ask_price, signal.size);
                let ghost id2 = choose|id: OrderId| (self@, r2) == spec_place(m1, id, OrderSide::Sell, signal.ask_price, signal.size);
                assert((self@, r2) == spec_execute(m0, signal, *position, id1, id2));
                r2
            },
            SignalAction::QuoteBid => {
                let r = self.place_order_internal(OrderSide::Buy, signal.bid_price, signal.size);
                let ghost id1 = choose|id: OrderId| (self@, r) == spec_place(m0, id, OrderSide::Buy, signal.bid_price, signal.size);
                assert((self@, r) == spec_execute(m0, signal, *position, id1, OrderId(0)));
                r
            },
            SignalAction::QuoteAsk => {
                let r = self.place_order_internal(OrderSide::Sell, signal.ask_price, signal.size);
                let ghost id1 = choose|id: OrderId| (self@, r) == spec_place(m0, id, OrderSide::Sell, signal.ask_price, signal.size);
                assert((self@, r) == spec_execute(m0, signal, *position, id1, OrderId(0)));
                r
            },
            SignalAction::TakePosition => {
                let (side, price) = match signal.side {
                    Side::Buy => (OrderSide::Buy, signal.bid_price),
                    Side::Sell => (OrderSide::Sell, signal.ask_price),
                };
                let r = self.place_order_internal(side, price, signal.size);
                let ghost id1 = choose|id: OrderId| (self@, r) == spec_place(m0, id, side, price, signal.size);
                assert((self@, r) == spec_execute(m0, signal, *position, id1, OrderId(0)));
                r
            },
            _ => {
                assert((self@, Ok::<(), SimulatedExecutionError>(())) == spec_execute(m0, signal, *position, OrderId(0), OrderId(0)));
                Ok(())
            },
        }
    }

    /// Takes every queued fill, oldest first, leaving the queue empty.
    fn take_pending_fills(&mut self) -> (fills: Vec<PooledFill>)
        ensures
            fills@ == old(self)@.pending,
            final(self)@ == (SimulatedModel { pending: Seq::empty(), ..old(self)@ }),
    {
        let mut fills: Vec<PooledFill> = Vec::new();
        let ghost start = self@;
        loop
            invariant
                fills@ + self@.pending == start.pending,
                self@ == (SimulatedModel { pending: self@.pending, ..start }),
            ensures
                fills@ == start.pending,
                self@ == (SimulatedModel { pending: Seq::empty(), ..start }),
            decreases self@.pending.len(),
        {
            let ghost before = self@.pending;
            match fill_queue_pop(&mut self.pending_fills) {
                Some(fill) => {
                    fills.push(fill);
                    assert(fills@ + self@.pending =~= start.pending) by {
                        assert(before =~= seq![fill] + before.drop_first());
                    }
                },
                None => {
                    assert(fills@ =~= start.pending);
                    assert(self@.pending =~= Seq::<PooledFill>::empty());
                    break;
                },
            }
        }
        fills
    }

    /// Order, fill and volume counters.
    pub fn stats(&self) -> (s: ExecutorStats)
        ensures
            s == (ExecutorStats {
                total_orders: self@.total_orders,
                total_fills: self@.total_fills,
                total_volume: self@.total_volume,
            }),
    {
        ExecutorStats { total_orders: self.total_orders, total_fills: self.total_fills, total_volume: self.total_volume }
    }
}

/// A simulated fill as the engine sees it: the exchange fee applies whenever the
/// notional is positive.
pub open spec fn to_fixed_fill(f: PooledFill) -> FixedFill {
    FixedFill {
        side: match f.side {
            OrderSide::Buy => Side::Buy,
            OrderSide::Sell => Side::Sell,
        },
        price: f.price,
        size: f.size,
        fee_sub_bps: if f.price > 0 && f.size > 0 { Some((DEFAULT_FEE_BPS * 100) as i32) } else { None },
    }
}

/// Text of a simulated execution error.
fn error_text(e: SimulatedExecutionError) -> (s: String)
    ensures
        e == SimulatedExecutionError::FillQueueOverflow ==> s@ == "Fill queue overflow - position tracking corrupted! Halting trading."@,
        e matches SimulatedExecutionError::Risk(v) ==> s@ == spec_violation_str(v),
{
    match e {
        SimulatedExecutionError::Risk(v) => String::from_str(v.as_str()),
        SimulatedExecutionError::FillQueueOverflow => String::from_str("Fill queue overflow - position tracking corrupted! Halting trading."),
    }
}

impl Executor for SimulatedExecutor {
    open spec fn logs_requests() -> bool {
        true
    }

    open spec fn logs_fills() -> bool {
        true
    }

    open spec fn pending_fills(&self) -> Seq<FixedFill> {
        self@.pending.map_values(|f: PooledFill| to_fixed_fill(f))
    }

    open spec fn dropped_count(&self) -> u64 {
        self@.dropped_fills
    }

    closed spec fn requests(&self) -> Seq<ExecutorRequest> {
        self.requests@
    }

    /// Risk check, then instant fills for the orders the signal places.
    fn execute(&mut self, signal: Signal, position: &Position) -> (r: Result<(), String>)
        ensures
            exists|id1: OrderId, id2: OrderId| {
                let (m, res) = #[trigger] spec_execute(old(self)@, signal, *position, id1, id2);
                &&& final(self)@ == m
                &&& (r is Ok <==> res is Ok)
            },
    {
        let ghost before = self.requests@;
        let r = self.execute_checked(signal, position);
        self.requests = Ghost(before.push(ExecutorRequest::Execute(signal)));
        match r {
            Ok(()) => Ok(()),
            Err(e) => Err(error_text(e)),
        }
    }

    /// Nothing rests on a simulated book, so there is nothing to cancel.
    fn cancel_all(&mut self) -> (r: Result<(), String>)
        ensures
            r is Ok,
            final(self)@ == old(self)@,
    {
        self.requests = Ghost(self.requests@.push(ExecutorRequest::CancelAll));
        Ok(())
    }

    /// Appends every queued fill, oldest first, and empties the queue.
    fn get_fills(&mut self, fills: &mut Vec<FixedFill>)
        ensures
            final(fills)@ == old(fills)@ + old(self)@.pending.map_values(|f: PooledFill| to_fixed_fill(f)),
            final(self)@ == (SimulatedModel { pending: Seq::empty(), ..old(self)@ }),
    {
        let ghost before = self.requests@;
        let pending = self.take_pending_fills();
        self.requests = Ghost(before);
        let ghost start = fills@;
        let mut i: usize = 0;
        while i < pending.len()
            invariant
                0 <= i <= pending.len(),
                fills@ == start + pending@.take(i as int).map_values(|f: PooledFill| to_fixed_fill(f)),
            decreases pending.len() - i,
        {
            let f = pending[i];
            let side = match f.side {
                OrderSide::Buy => Side::Buy,
                OrderSide::Sell => Side::Sell,
            };
            let fee_sub_bps: Option<i32> = if f.price > 0 && f.size > 0 { Some((DEFAULT_FEE_BPS * 100) as i32) } else { None };
            fills.push(FixedFill { side, price: f.price, size: f.size, fee_sub_bps });
            assert(pending@.take(i as int + 1).map_values(|f: PooledFill| to_fixed_fill(f))
                =~= pending@.take(i as int).map_values(|f: PooledFill| to_fixed_fill(f)).push(to_fixed_fill(f)));
            i = i + 1;
        }
        assert(pending@.take(pending.len() as int) =~= pending@);
    }

    /// Fills dropped because the queue was full.
    fn dropped_fill_count(&self) -> (r: u64)
        ensures
            r == self@.dropped_fills,
    {
        self.dropped_fills
    }

    /// Name of the executor.
    fn name(&self) -> (r: &'static str)
        ensures
            r@ == "SimulatedExecutor"@,
    {
        proof {
            reveal_strlit("SimulatedExecutor");
        }
        "SimulatedExecutor"
    }

    /// Orders fill at once, so nothing rests and there is no open exposure.
    fn get_open_exposure(&self) -> (r: (i64, i64))
        ensures
            r == (0i64, 0i64),
    {
        (0, 0)
    }
}

impl Default for SimulatedExecutor {
    fn default() -> (e: Self)
        ensures
            e@.pending == Seq::<PooledFill>::empty(),
            e@.capacity == 1024,
            e@.total_orders == 0 && e@.total_fills == 0 && e@.total_volume == 0 && e@.dropped_fills == 0,
    {
        Self::new_default()
    }
}

/// Every counted fill is either a placed order or a dropped fill: placing an order keeps
/// `total_fills == total_orders + dropped_fills` (modulo 2^64), and a placed order's fill
/// is queued with its side, price and size exactly when the queue had room.
pub proof fn lemma_fills_account_for_orders(m: SimulatedModel, id: OrderId, side: OrderSide, price: u64, size: u64)
    requires
        m.total_fills as int == (m.total_orders as int + m.dropped_fills as int) % 0x1_0000_0000_0000_0000,
    ensures
        ({
            let (m1, r) = spec_place(m, id, side, price, size);
            &&& m1.total_fills as int == (m1.total_orders as int + m1.dropped_fills as int) % 0x1_0000_0000_0000_0000
            &&& r is Ok <==> m.pending.len() < m.capacity
            &&& r is Ok ==> m1.pending == m.pending.push(PooledFill { order_id: id, side, price, size })
            &&& r is Err ==> m1.pending == m.pending
        }),
{
    let (m1, r) = spec_place(m, id, side, price, size);
    assert(m1.total_fills as int == (m1.total_orders as int + m1.dropped_fills as int) % 0x1_0000_0000_0000_0000) by (nonlinear_arith)
        requires
            m.total_fills as int == (m.total_orders as int + m.dropped_fills as int) % 0x1_0000_0000_0000_0000,
            m1.total_fills as int == (m.total_fills as int + 1) % 0x1_0000_0000_0000_0000,
            (m1.total_orders as int == (m.total_orders as int + 1) % 0x1_0000_0000_0000_0000 && m1.dropped_fills == m.dropped_fills)
                || (m1.dropped_fills as int == (m.dropped_fills as int + 1) % 0x1_0000_0000_0000_0000 && m1.total_orders == m.total_orders),
    ;
}

} // verus!

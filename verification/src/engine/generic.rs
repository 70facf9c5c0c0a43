//! Generic trading engine: one strategy, one executor, and the checks between them.
//!
//! Each tick: count it, roll the trading day, apply the executor's pending fills, sync
//! the order book, let the executor match resting orders, and stop early when the
//! best prices have not moved. Otherwise the circuit breaker, data freshness, a jump
//! check after stale data, the drawdown guard, the daily loss limit, the pre-trade risk
//! checks and the quote rate limit all stand between the strategy's signal and the
//! executor. Fills are applied again at the end of the tick.
use vstd::prelude::*;
use crate::clock::unix_now_ns;
use crate::config::{DEFAULT_FEE_SUB_BPS, MAX_POST_STALE_CHANGE_BPS, MIN_QUOTE_INTERVAL_NS};
use crate::core_types::{spec_apply_fill, spec_sat_add_i64, spec_unrealized_pnl, saturating_add_i64, Position,
    PositionError, Side, Signal, SignalAction};
use crate::data::{is_valid_snapshot, spec_is_valid_snapshot, MarketSnapshot};
use crate::engine::risk::{MAX_POSITION, MAX_SHORT};
use crate::orderbook::l2_book::L2OrderBook;
use crate::risk::circuit_breaker::{spec_breaker_mid, spec_check, check_in_range, BreakerModel, BreakerState, CircuitBreaker};
use crate::risk::{default_risk_limits, spec_check_daily_loss, spec_check_drawdown, spec_daily_reset, spec_validate_signal,
    RiskLimits, RiskManager, RiskManagerModel, RiskViolation};

verus! {

/// Strategy: turns the order book and the position into trading signals.
pub trait Strategy {
    /// Whether this strategy keeps the record of its answers below; one that does not
    /// promises nothing about it.
    open spec fn logs_answers() -> bool {
        false
    }

    /// Answers this strategy has given to `calculate`, oldest first.
    open spec fn answers(&self) -> Seq<Option<Signal>> {
        Seq::empty()
    }

    /// Signal for the current book and position, if any.
    fn calculate(&mut self, book: &L2OrderBook, position: &Position) -> (r: Option<Signal>)
        ensures
            Self::logs_answers() ==> final(self).answers() == old(self).answers().push(r),
    ;

    /// Strategy name for logging.
    fn name(&self) -> &'static str;

    /// Reset strategy state (start of day and the like).
    fn reset(&mut self) {
    }
}

/// A fill reported by an executor, in nine-decimal fixed point, with its fee in
/// hundredths of a basis point of the notional when the venue reported one.
#[derive(Clone, Copy, PartialEq, Eq, Structural, Debug)]
pub struct FixedFill {
    pub side: Side,
    pub price: u64,
    pub size: u64,
    pub fee_sub_bps: Option<i32>,
}

/// A request the engine made of its executor.
pub enum ExecutorRequest {
    /// A signal handed to `execute`.
    Execute(Signal),
    /// A call of `cancel_all`.
    CancelAll,
}

/// Executor: places orders for signals and reports fills.
pub trait Executor {
    /// Whether this executor keeps the record of requests below (the executors of this
    /// crate do); one that does not promises nothing about it.
    open spec fn logs_requests() -> bool {
        false
    }

    /// Signals executed and cancellations requested of this executor, oldest first.
    open spec fn requests(&self) -> Seq<ExecutorRequest> {
        Seq::empty()
    }

    /// Executes a trading signal.
    fn execute(&mut self, signal: Signal, position: &Position) -> (r: Result<(), String>)
        ensures
            Self::logs_requests() ==> final(self).requests() == old(self).requests().push(ExecutorRequest::Execute(signal)),
    ;

    /// Cancels all outstanding orders.
    fn cancel_all(&mut self) -> (r: Result<(), String>)
        ensures
            Self::logs_requests() ==> final(self).requests() == old(self).requests().push(ExecutorRequest::CancelAll),
    ;

    /// Whether this executor exposes its pending fills and dropped count below; one that
    /// does not promises nothing about them.
    open spec fn logs_fills() -> bool {
        false
    }

    /// Fills waiting to be handed to the engine, oldest first.
    open spec fn pending_fills(&self) -> Seq<FixedFill> {
        Seq::empty()
    }

    /// Fills dropped so far because a queue overflowed.
    open spec fn dropped_count(&self) -> u64 {
        0
    }

    /// Appends the pending fills to `fills` and clears them.
    fn get_fills(&mut self, fills: &mut Vec<FixedFill>)
        ensures
            Self::logs_requests() ==> final(self).requests() == old(self).requests(),
            Self::logs_fills() ==> {
                &&& final(fills)@ == old(fills)@ + old(self).pending_fills()
                &&& final(self).pending_fills() == Seq::<FixedFill>::empty()
                &&& final(self).dropped_count() == old(self).dropped_count()
            },
    ;

    /// Fills dropped so far because a queue overflowed.
    fn dropped_fill_count(&self) -> (r: u64)
        ensures
            Self::logs_fills() ==> r == self.dropped_count(),
    ;

    /// Executor name for logging.
    fn name(&self) -> &'static str;

    /// Open exposure (long, short) of resting orders.
    fn get_open_exposure(&self) -> (i64, i64);

    /// Matches resting orders against the best prices (nothing for instant fills).
    fn check_fills(&mut self, best_bid: u64, best_ask: u64)
        ensures
            Self::logs_requests() ==> final(self).requests() == old(self).requests(),
    {
    }
}

/// Why the engine stopped processing a tick.
#[derive(Clone, Debug)]
pub enum EngineError {
    /// The executor failed.
    Executor(String),
    /// Fills were dropped, so the position may be wrong.
    FillQueueOverflow { dropped: u64 },
    /// A fill could not be applied to the position.
    PositionUpdate(PositionError),
    /// A fill took the position above the long limit.
    PositionLimitExceeded { quantity: i64, limit: i64 },
    /// A fill took the position below the short limit.
    ShortLimitExceeded { quantity: i64, limit: i64 },
    /// The drawdown from the day's peak exceeded its limit.
    Drawdown(RiskViolation),
}

#[verifier::external_type_specification]
#[verifier::external_body]
pub struct ExM512i(core::arch::x86_64::__m512i);

/// Data touched on every tick. The zero-length array of a 64-byte-aligned vector type
/// gives the struct cache-line alignment without adding to its size of one line.
pub struct HotData {
    tick_count: u64,
    signal_count: u64,
    last_bid: u64,
    last_ask: u64,
    _padding: [u8; 32],
    _align: [core::arch::x86_64::__m512i; 0],
}

/// Abstract state of [`HotData`]: tick and signal counters and the last best prices.
pub struct HotModel {
    pub tick_count: u64,
    pub signal_count: u64,
    pub last_bid: u64,
    pub last_ask: u64,
}

impl View for HotData {
    type V = HotModel;

    closed spec fn view(&self) -> HotModel {
        HotModel { tick_count: self.tick_count, signal_count: self.signal_count, last_bid: self.last_bid, last_ask: self.last_ask }
    }
}

impl HotData {
    /// Zero counters, no prices seen.
    pub fn new() -> (h: Self)
        ensures
            h@ == (HotModel { tick_count: 0, signal_count: 0, last_bid: 0, last_ask: 0 }),
    {
        HotData { tick_count: 0, signal_count: 0, last_bid: 0, last_ask: 0, _padding: [0u8; 32], _align: [] }
    }

    /// Counts a tick (wrapping).
    pub fn increment_ticks(&mut self)
        ensures
            final(self)@ == (HotModel { tick_count: old(self)@.tick_count.wrapping_add(1), ..old(self)@ }),
    {
        self.tick_count = self.tick_count.wrapping_add(1);
    }

    /// Counts a signal (wrapping).
    pub fn increment_signals(&mut self)
        ensures
            final(self)@ == (HotModel { signal_count: old(self)@.signal_count.wrapping_add(1), ..old(self)@ }),
    {
        self.signal_count = self.signal_count.wrapping_add(1);
    }

    /// Records the best prices and tells whether either differs from the last ones.
    pub fn market_changed(&mut self, bid: u64, ask: u64) -> (changed: bool)
        ensures
            changed == (old(self)@.last_bid != bid || old(self)@.last_ask != ask),
            final(self)@ == (HotModel { last_bid: bid, last_ask: ask, ..old(self)@ }),
    {
        let changed = self.last_bid != bid || self.last_ask != ask;
        self.last_bid = bid;
        self.last_ask = ask;
        changed
    }

    /// Ticks counted.
    pub fn tick_count(&self) -> (r: u64)
        ensures
            r == self@.tick_count,
    {
        self.tick_count
    }

    /// Signals counted.
    pub fn signal_count(&self) -> (r: u64)
        ensures
            r == self@.signal_count,
    {
        self.signal_count
    }
}

/// Engine statistics.
#[derive(Clone, Copy, PartialEq, Eq, Structural, Debug)]
pub struct EngineStats {
    pub ticks_processed: u64,
    pub signals_generated: u64,
    pub final_position: i64,
    pub realized_pnl: i64,
    /// Maximum queue depth observed.
    pub max_queue_depth: usize,
    /// Times the queue exceeded its warning threshold.
    pub queue_warnings: u64,
}

/// Side code of a fill for the position: 0 buy, 1 sell.
pub open spec fn side_code(side: Side) -> u8 {
    match side {
        Side::Buy => 0,
        Side::Sell => 1,
    }
}

/// Fee rate applied to a fill: the reported one, or the default maker fee.
pub open spec fn fill_fee_rate(f: FixedFill) -> i32 {
    match f.fee_sub_bps {
        Some(r) => r,
        None => DEFAULT_FEE_SUB_BPS,
    }
}

/// Position after applying the first fills in order, and the error that stopped the
/// application, if any: a fill that cannot be applied, or one that takes the position
/// beyond a limit (that fill stays applied).
pub open spec fn spec_apply_fills(p: Position, fills: Seq<FixedFill>) -> (Position, Option<EngineError>)
    decreases fills.len(),
{
    if fills.len() == 0 {
        (p, None)
    } else {
        let (p1, e) = spec_apply_fills(p, fills.drop_last());
        let f = fills.last();
        if e is Some {
            (p1, e)
        } else {
            match spec_apply_fill(p1, side_code(f.side), f.price, f.size, fill_fee_rate(f)) {
                Err(pe) => (p1, Some(EngineError::PositionUpdate(pe))),
                Ok(p2) => {
                    if p2.quantity > MAX_POSITION {
                        (p2, Some(EngineError::PositionLimitExceeded { quantity: p2.quantity, limit: MAX_POSITION }))
                    } else if p2.quantity < -MAX_SHORT {
                        (p2, Some(EngineError::ShortLimitExceeded { quantity: p2.quantity, limit: MAX_SHORT }))
                    } else {
                        (p2, None)
                    }
                },
            }
        }
    }
}

/// Outcome of draining fills: with any fill ever dropped the position is not touched
/// and the engine halts; otherwise the fills are applied in order.
pub open spec fn spec_drain(p: Position, fills: Seq<FixedFill>, dropped: u64) -> (Position, Option<EngineError>) {
    if dropped > 0 {
        (p, Some(EngineError::FillQueueOverflow { dropped }))
    } else {
        spec_apply_fills(p, fills)
    }
}

/// Whether position `q` results from `p` by draining one batch of executor fills.
pub open spec fn drains_to(p: Position, q: Position) -> bool {
    exists|fills: Seq<FixedFill>, dropped: u64| #[trigger] spec_drain(p, fills, dropped).0 == q
}

/// Position with its daily high-water mark raised to `pnl` if that is higher.
pub open spec fn raise_high_water_mark(p: Position, pnl: i64) -> Position {
    Position { daily_high_water_mark: if pnl > p.daily_high_water_mark { pnl } else { p.daily_high_water_mark }, ..p }
}

/// Whether the position after trading, `q`, follows from `p1`: unchanged, or with the
/// high-water mark raised and then possibly a second batch of fills applied.
pub open spec fn after_trading(p1: Position, q: Position) -> bool {
    q == p1 || exists|pnl: i64| {
        let p2 = #[trigger] raise_high_water_mark(p1, pnl);
        q == p2 || drains_to(p2, q)
    }
}

/// Whether a tick took the position from `p` to `q`: the start-of-day reset (for some
/// wall-clock time), one batch of executor fills, then possibly the high-water mark
/// raised and a second batch of fills applied after trading. Nothing else moves it.
pub open spec fn tick_position_flow(risk: RiskManagerModel, p: Position, q: Position) -> bool {
    exists|now_secs: u64, p1: Position| {
        &&& #[trigger] drains_to(spec_daily_reset(risk, p, now_secs).1, p1)
        &&& after_trading(p1, q)
    }
}

/// Move of a price from a reference, in basis points of the reference.
pub open spec fn change_bps(price: u64, reference: u64) -> int {
    let change = if price > reference { price - reference } else { reference - price };
    (change * 10_000) / reference as int
}

/// Whether a tick that turns fresh after stale data jumped too far from the last fresh
/// prices (only judged when both last fresh prices are known).
pub open spec fn post_stale_jump(last_bid: u64, last_ask: u64, bid: u64, ask: u64) -> bool {
    last_bid > 0 && last_ask > 0
        && (change_bps(bid, last_bid) > MAX_POST_STALE_CHANGE_BPS || change_bps(ask, last_ask) > MAX_POST_STALE_CHANGE_BPS)
}

/// Whether a signal places or takes orders (and so counts against the quote rate).
pub open spec fn is_quote_action(a: SignalAction) -> bool {
    a == SignalAction::QuoteBoth || a == SignalAction::QuoteBid || a == SignalAction::QuoteAsk || a == SignalAction::TakePosition
}

/// What the engine saw on the last tick: when it checked the circuit breaker, whether
/// it asked the strategy and what the strategy answered, and the values the answer was
/// checked against.
pub struct TickTrace {
    /// Whether the last tick handed a signal to the executor.
    pub executed: bool,
    /// Whether the last tick asked the strategy for a signal.
    pub consulted: bool,
    /// The strategy's answer on the last tick it was asked.
    pub answer: Option<Signal>,
    /// Wall-clock time at which the circuit breaker judged the last tick.
    pub breaker_now: u64,
    /// Wall-clock time (seconds) at which the last tick checked for a new trading day.
    pub reset_secs: u64,
    pub signal: Signal,
    /// Position the signal was checked against.
    pub position: Position,
    pub open_long: i64,
    pub open_short: i64,
    pub mid: u64,
    pub daily_total_pnl: i64,
    pub peak_pnl: i64,
    /// Time of this quote and of the previous one.
    pub now_ns: u64,
    pub last_quote_ns: u64,
    pub risk: RiskManagerModel,
}

/// Abstract state of an [`Engine`] (strategy and executor aside).
pub struct EngineModel {
    pub position: Position,
    pub book: L2OrderBook,
    /// Deepest fill queue observed, and times the queue passed its warning threshold.
    pub max_queue_depth: usize,
    pub queue_warnings: u64,
    pub hot: HotModel,
    pub breaker: BreakerModel,
    pub risk: RiskManagerModel,
    pub shutdown: bool,
    pub was_stale: bool,
    pub last_fresh_bid: u64,
    pub last_fresh_ask: u64,
    pub peak_pnl: i64,
    pub last_quote_time_ns: u64,
    pub trace: TickTrace,
}

/// Every check a signal must pass before the engine hands it to the executor on a
/// tick with snapshot `snap`, from engine state `old`.
pub open spec fn signal_cleared(old: EngineModel, t: TickTrace, snap: MarketSnapshot, data_fresh: bool) -> bool {
    let bid = snap.best_bid_price;
    let ask = snap.best_ask_price;
    &&& data_fresh
    &&& old.hot.last_bid != bid || old.hot.last_ask != ask
    &&& exists|now_ns: u64| (#[trigger] spec_check(old.breaker, snap, now_ns)).1 == BreakerState::Normal
    &&& old.was_stale ==> !post_stale_jump(old.last_fresh_bid, old.last_fresh_ask, bid, ask)
    &&& t.mid as int == spec_breaker_mid(bid as int, ask as int)
    &&& t.daily_total_pnl == spec_sat_add_i64(t.position.daily_pnl as int, spec_unrealized_pnl(t.position, t.mid) as int)
    &&& spec_check_drawdown(t.risk.limits, t.daily_total_pnl, t.peak_pnl) is Ok
    &&& spec_check_daily_loss(t.risk.limits, t.daily_total_pnl) is Ok
    &&& spec_validate_signal(t.risk.limits, t.risk.kill_switch, t.risk.outstanding_order_count, t.signal,
            t.position.quantity, t.open_long, t.open_short, t.mid) is Ok
    &&& is_quote_action(t.signal.action) ==> t.now_ns >= t.last_quote_ns + MIN_QUOTE_INTERVAL_NS
}

/// Whether the arithmetic of a tick stays in range: the circuit breaker's, and the jump
/// check's when stale data turns fresh.
pub open spec fn tick_in_range(m: EngineModel, snap: MarketSnapshot, data_fresh: bool) -> bool {
    let bid = snap.best_bid_price;
    let ask = snap.best_ask_price;
    let changed = m.hot.last_bid != bid || m.hot.last_ask != ask;
    &&& changed ==> check_in_range(m.breaker, snap)
    &&& (changed && data_fresh && m.was_stale && m.last_fresh_bid > 0 && m.last_fresh_ask > 0) ==> {
        &&& (if bid > m.last_fresh_bid { bid - m.last_fresh_bid } else { m.last_fresh_bid - bid }) * 10_000 <= u64::MAX
        &&& (if ask > m.last_fresh_ask { ask - m.last_fresh_ask } else { m.last_fresh_ask - ask }) * 10_000 <= u64::MAX
    }
}

/// The engine's risk manager keeps its default limits and tracks no outstanding orders.
pub open spec fn engine_wf(m: EngineModel) -> bool {
    &&& m.risk.limits == default_risk_limits()
    &&& m.risk.outstanding_order_count == 0
}

/// A trace of a tick that neither asked the strategy nor handed anything to the executor.
pub open spec fn idle_trace(t: TickTrace) -> TickTrace {
    TickTrace { executed: false, consulted: false, ..t }
}

/// Whether a tick gets as far as asking the strategy: the best prices moved, the circuit
/// breaker judging the snapshot at `t.breaker_now` lets trading go on, the data is
/// fresh, and fresh data after stale data did not jump too far.
pub open spec fn reaches_strategy(old: EngineModel, t: TickTrace, snap: MarketSnapshot, data_fresh: bool) -> bool {
    let bid = snap.best_bid_price;
    let ask = snap.best_ask_price;
    &&& old.hot.last_bid != bid || old.hot.last_ask != ask
    &&& spec_check(old.breaker, snap, t.breaker_now).1 == BreakerState::Normal
    &&& data_fresh
    &&& old.was_stale ==> !post_stale_jump(old.last_fresh_bid, old.last_fresh_ask, bid, ask)
}

/// The values a strategy's answer is checked against: the mid price of the snapshot, the
/// daily total PnL at that mid, and a drawdown within its limit.
pub open spec fn consult_inputs(t: TickTrace, snap: MarketSnapshot) -> bool {
    &&& t.mid as int == spec_breaker_mid(snap.best_bid_price as int, snap.best_ask_price as int)
    &&& t.daily_total_pnl == spec_sat_add_i64(t.position.daily_pnl as int, spec_unrealized_pnl(t.position, t.mid) as int)
    &&& spec_check_drawdown(t.risk.limits, t.daily_total_pnl, t.peak_pnl) is Ok
}

/// Whether the strategy's signal passes the checks made after it answered: the daily
/// loss limit, the risk validation against position and open exposure, and the minimum
/// interval between quotes.
pub open spec fn signal_passes(t: TickTrace) -> bool {
    &&& spec_check_daily_loss(t.risk.limits, t.daily_total_pnl) is Ok
    &&& spec_validate_signal(t.risk.limits, t.risk.kill_switch, t.risk.outstanding_order_count, t.signal,
            t.position.quantity, t.open_long, t.open_short, t.mid) is Ok
    &&& is_quote_action(t.signal.action) ==> t.now_ns >= t.last_quote_ns + MIN_QUOTE_INTERVAL_NS
}

/// Whether book `b` holds the levels, sequence and exchange time of `snap`, for the
/// market of `old_b`.
pub open spec fn book_synced(old_b: L2OrderBook, b: L2OrderBook, snap: MarketSnapshot) -> bool {
    &&& b.market_id == old_b.market_id
    &&& b.bid_prices@ == snap.bid_prices@
    &&& b.bid_sizes@ == snap.bid_sizes@
    &&& b.ask_prices@ == snap.ask_prices@
    &&& b.ask_sizes@ == snap.ask_sizes@
    &&& b.last_sequence == snap.sequence
    &&& b.last_update_ns == snap.exchange_timestamp_ns
}

/// The result that corresponds to an optional error.
pub open spec fn drain_result(e: Option<EngineError>) -> Result<(), EngineError> {
    match e {
        Some(e) => Err(e),
        None => Ok(()),
    }
}

/// Applies one batch of drained fills to `position`, given the executor's count of
/// dropped fills: any dropped fill halts with `FillQueueOverflow` and leaves the position
/// untouched; otherwise the fills are applied in order until one cannot be applied or
/// breaks a position limit (that fill stays applied).
pub fn apply_drained(position: &mut Position, fills: &Vec<FixedFill>, dropped: u64) -> (r: Result<(), EngineError>)
    ensures
        *final(position) == spec_drain(*old(position), fills@, dropped).0,
        r == drain_result(spec_drain(*old(position), fills@, dropped).1),
{
    if dropped > 0 {
        return Err(EngineError::FillQueueOverflow { dropped });
    }
    let ghost start = *position;
    let mut i: usize = 0;
    while i < fills.len()
        invariant
            0 <= i <= fills.len(),
            spec_apply_fills(start, fills@.take(i as int)) == (*position, None::<EngineError>),
            start == *old(position),
            dropped == 0,
        decreases fills.len() - i,
    {
        let fill = fills[i];
        assert(fills@.take(i as int + 1).drop_last() =~= fills@.take(i as int));
        assert(fills@.take(i as int + 1).last() == fill);
        let fee_sub_bps: i32 = match fill.fee_sub_bps {
            Some(rate) => rate,
            None => DEFAULT_FEE_SUB_BPS,
        };
        let side: u8 = match fill.side {
            Side::Buy => 0,
            Side::Sell => 1,
        };
        match position.process_fill_fixed_with_fee(side, fill.price, fill.size, fee_sub_bps) {
            Ok(()) => {},
            Err(e) => {
                assert(spec_apply_fills(start, fills@.take(i as int + 1)) == (*position, Some(EngineError::PositionUpdate(e))));
                proof {
                    lemma_apply_fills_stops(start, fills@, i as int + 1);
                }
                return Err(EngineError::PositionUpdate(e));
            },
        }
        let current_qty = position.get_quantity();
        if current_qty > MAX_POSITION {
            let err = EngineError::PositionLimitExceeded { quantity: current_qty, limit: MAX_POSITION };
            assert(spec_apply_fills(start, fills@.take(i as int + 1)) == (*position, Some(err)));
            proof {
                lemma_apply_fills_stops(start, fills@, i as int + 1);
            }
            return Err(err);
        }
        if current_qty < -MAX_SHORT {
            let err = EngineError::ShortLimitExceeded { quantity: current_qty, limit: MAX_SHORT };
            assert(spec_apply_fills(start, fills@.take(i as int + 1)) == (*position, Some(err)));
            proof {
                lemma_apply_fills_stops(start, fills@, i as int + 1);
            }
            return Err(err);
        }
        i = i + 1;
    }
    assert(fills@.take(fills.len() as int) =~= fills@);
    Ok(())
}

/// Trading engine over a strategy and an executor.
pub struct Engine<S: Strategy, E: Executor> {
    strategy: S,
    executor: E,
    position: Position,
    book: L2OrderBook,
    hot: HotData,
    circuit_breaker: CircuitBreaker,
    risk_manager: RiskManager,
    shutdown: bool,
    max_queue_depth: usize,
    queue_warnings: u64,
    was_stale: bool,
    last_fresh_bid: u64,
    last_fresh_ask: u64,
    peak_pnl: i64,
    last_quote_time_ns: u64,
    trace: Ghost<TickTrace>,
}

impl<S: Strategy, E: Executor> View for Engine<S, E> {
    type V = EngineModel;

    closed spec fn view(&self) -> EngineModel {
        EngineModel {
            position: self.position,
            book: self.book,
            max_queue_depth: self.max_queue_depth,
            queue_warnings: self.queue_warnings,
            hot: self.hot@,
            breaker: self.circuit_breaker@,
            risk: self.risk_manager@,
            shutdown: self.shutdown,
            was_stale: self.was_stale,
            last_fresh_bid: self.last_fresh_bid,
            last_fresh_ask: self.last_fresh_ask,
            peak_pnl: self.peak_pnl,
            last_quote_time_ns: self.last_quote_time_ns,
            trace: self.trace@,
        }
    }
}

impl<S: Strategy, E: Executor> Engine<S, E> {
    /// Requests the engine's executor has received, oldest first.
    pub closed spec fn executor_requests(&self) -> Seq<ExecutorRequest> {
        self.executor.requests()
    }

    /// Fills the engine's executor holds for the engine, oldest first.
    pub closed spec fn executor_pending_fills(&self) -> Seq<FixedFill> {
        self.executor.pending_fills()
    }

    /// Fills the engine's executor has dropped.
    pub closed spec fn executor_dropped_count(&self) -> u64 {
        self.executor.dropped_count()
    }

    /// Answers the engine's strategy has given, oldest first.
    pub closed spec fn strategy_answers(&self) -> Seq<Option<Signal>> {
        self.strategy.answers()
    }

    /// An engine with a flat position, a fresh circuit breaker and default risk limits.
    pub fn new(strategy: S, executor: E) -> (e: Self)
        ensures
            e@.position == Position::spec_new(),
            e@.hot == (HotModel { tick_count: 0, signal_count: 0, last_bid: 0, last_ask: 0 }),
            engine_wf(e@),
            !e@.shutdown && !e@.was_stale,
            e@.last_fresh_bid == 0 && e@.last_fresh_ask == 0 && e@.peak_pnl == 0 && e@.last_quote_time_ns == 0,
            !e@.trace.executed && !e@.trace.consulted,
            e@.book.market_id == 0 && e@.book.last_sequence == 0,
            e@.max_queue_depth == 0 && e@.queue_warnings == 0,
            e.executor_requests() == executor.requests(),
            e.strategy_answers() == strategy.answers(),
    {
        let risk_manager = RiskManager::new();
        let ghost t = TickTrace {
            executed: false,
            consulted: false,
            answer: None,
            breaker_now: 0,
            reset_secs: 0,
            signal: Signal { action: SignalAction::NoAction, side: Side::Buy, bid_price: 0, ask_price: 0, size: 0 },
            position: Position::spec_new(),
            open_long: 0,
            open_short: 0,
            mid: 0,
            daily_total_pnl: 0,
            peak_pnl: 0,
            now_ns: 0,
            last_quote_ns: 0,
            risk: risk_manager@,
        };
        Engine {
            strategy,
            executor,
            position: Position::new(),
            book: L2OrderBook::new(0),
            hot: HotData::new(),
            circuit_breaker: CircuitBreaker::new(),
            risk_manager,
            shutdown: false,
            max_queue_depth: 0,
            queue_warnings: 0,
            was_stale: false,
            last_fresh_bid: 0,
            last_fresh_ask: 0,
            peak_pnl: 0,
            last_quote_time_ns: 0,
            trace: Ghost(t),
        }
    }

    /// Applies the executor's pending fills to the position; halts when fills were
    /// dropped, when a fill cannot be applied, or when one breaks a position limit.
    ///
    /// The fills taken from the executor and its dropped count are handed to
    /// [`apply_drained`]; which fills the executor reports is up to the executor.
    pub fn drain_executor_fills(&mut self) -> (r: Result<(), EngineError>)
        ensures
            exists|fills: Seq<FixedFill>, dropped: u64| {
                let (p, e) = #[trigger] spec_drain(old(self)@.position, fills, dropped);
                &&& final(self)@.position == p
                &&& r == drain_result(e)
            },
            final(self)@ == (EngineModel { position: final(self)@.position, ..old(self)@ }),
            E::logs_requests() ==> final(self).executor_requests() == old(self).executor_requests(),
            final(self).strategy_answers() == old(self).strategy_answers(),
            r is Err ==> !(r->Err_0 is Executor) && !(r->Err_0 is Drawdown),
            E::logs_fills() ==> {
                &&& final(self)@.position == spec_drain(old(self)@.position, old(self).executor_pending_fills(),
                        old(self).executor_dropped_count()).0
                &&& r == drain_result(spec_drain(old(self)@.position, old(self).executor_pending_fills(),
                        old(self).executor_dropped_count()).1)
                &&& final(self).executor_pending_fills() == Seq::<FixedFill>::empty()
            },
    {
        let mut buffer: Vec<FixedFill> = Vec::new();
        self.executor.get_fills(&mut buffer);
        assert(E::logs_fills() ==> buffer@ =~= old(self).executor.pending_fills());
        let dropped = self.executor.dropped_fill_count();
        let r = apply_drained(&mut self.position, &buffer, dropped);
        assert(spec_drain(old(self)@.position, buffer@, dropped).0 == self.position);
        proof {
            lemma_apply_fills_error_kind(old(self)@.position, buffer@);
        }
        r
    }

    /// Whether [`Engine::process_tick`] may be called with `snapshot`: the engine keeps
    /// its default risk limits and the tick's arithmetic stays within `u64`.
    pub fn can_process_tick(&self, snapshot: &MarketSnapshot, data_fresh: bool) -> (r: bool)
        ensures
            r == (engine_wf(self@) && tick_in_range(self@, *snapshot, data_fresh)),
    {
        let limits = self.risk_manager.limits();
        let default_limits = RiskLimits::default();
        if !(*limits == default_limits) || self.risk_manager.outstanding_order_count() != 0 {
            return false;
        }
        let bid = snapshot.best_bid_price;
        let ask = snapshot.best_ask_price;
        let changed = self.hot.last_bid != bid || self.hot.last_ask != ask;
        if !changed {
            return true;
        }
        if !self.circuit_breaker.in_range(snapshot) {
            return false;
        }
        if data_fresh && self.was_stale && self.last_fresh_bid > 0 && self.last_fresh_ask > 0 {
            let max: u128 = 0xffff_ffff_ffff_ffff;
            let bid_change = if bid > self.last_fresh_bid { bid - self.last_fresh_bid } else { self.last_fresh_bid - bid };
            let ask_change = if ask > self.last_fresh_ask { ask - self.last_fresh_ask } else { self.last_fresh_ask - ask };
            return (bid_change as u128) * 10_000 <= max && (ask_change as u128) * 10_000 <= max;
        }
        true
    }

    /// Processes one market snapshot; `data_fresh` tells whether the feed data is fresh.
    /// Stale data keeps the book and state current but never trades.
    ///
    /// The tick drains the executor's fills, copies the snapshot into the book, lets the
    /// executor match resting orders, and — when the best prices moved, the circuit
    /// breaker lets trading go on, the data is fresh and did not jump after stale data,
    /// and the drawdown is within its limit — asks the strategy for a signal. A signal
    /// that passes the daily-loss, risk and quote-interval checks is handed to the
    /// executor, and the fills it produced are drained. A halted breaker or a broken
    /// drawdown cancels all orders instead.
    pub fn process_tick(&mut self, snapshot: &MarketSnapshot, data_fresh: bool) -> (r: Result<(), EngineError>)
        requires
            engine_wf(old(self)@),
            tick_in_range(old(self)@, *snapshot, data_fresh),
        ensures
            engine_wf(final(self)@),
            final(self)@.hot.tick_count == old(self)@.hot.tick_count.wrapping_add(1),
            final(self)@.hot.signal_count == old(self)@.hot.signal_count.wrapping_add(
                if final(self)@.trace.executed { 1 } else { 0 }),
            final(self)@.shutdown == old(self)@.shutdown,
            final(self)@.max_queue_depth == old(self)@.max_queue_depth,
            final(self)@.queue_warnings == old(self)@.queue_warnings,
            tick_position_flow(old(self)@.risk, old(self)@.position, final(self)@.position),
            final(self)@.risk == spec_daily_reset(old(self)@.risk, old(self)@.position, final(self)@.trace.reset_secs).0,
            E::logs_fills() ==> after_trading(spec_drain(
                spec_daily_reset(old(self)@.risk, old(self)@.position, final(self)@.trace.reset_secs).1,
                old(self).executor_pending_fills(), old(self).executor_dropped_count()).0, final(self)@.position),
            book_synced(old(self)@.book, final(self)@.book, *snapshot) || (r is Err && final(self)@.book == old(self)@.book),
            final(self)@.trace.consulted ==> {
                &&& reaches_strategy(old(self)@, final(self)@.trace, *snapshot, data_fresh)
                &&& consult_inputs(final(self)@.trace, *snapshot)
                &&& S::logs_answers() ==> final(self).strategy_answers() == old(self).strategy_answers().push(final(self)@.trace.answer)
            },
            !final(self)@.trace.consulted ==> final(self).strategy_answers() == old(self).strategy_answers(),
            r is Ok && reaches_strategy(old(self)@, final(self)@.trace, *snapshot, data_fresh) ==> final(self)@.trace.consulted,
            final(self)@.trace.executed <==> (final(self)@.trace.consulted && final(self)@.trace.answer == Some(final(self)@.trace.signal)
                && signal_passes(final(self)@.trace)),
            final(self)@.trace.executed ==> signal_cleared(old(self)@, final(self)@.trace, *snapshot, data_fresh),
            E::logs_requests() && final(self)@.trace.executed ==> final(self).executor_requests()
                == old(self).executor_requests().push(ExecutorRequest::Execute(final(self)@.trace.signal)),
            E::logs_requests() && !final(self)@.trace.executed ==> final(self).executor_requests() == old(self).executor_requests()
                || final(self).executor_requests() == old(self).executor_requests().push(ExecutorRequest::CancelAll),
            r is Ok ==> final(self)@.breaker == (if old(self)@.hot.last_bid != snapshot.best_bid_price
                || old(self)@.hot.last_ask != snapshot.best_ask_price {
                spec_check(old(self)@.breaker, *snapshot, final(self)@.trace.breaker_now).0
            } else {
                old(self)@.breaker
            }),
            E::logs_requests() && r is Ok && (old(self)@.hot.last_bid != snapshot.best_bid_price
                || old(self)@.hot.last_ask != snapshot.best_ask_price)
                && spec_check(old(self)@.breaker, *snapshot, final(self)@.trace.breaker_now).1 is Halted ==>
                final(self).executor_requests() == old(self).executor_requests().push(ExecutorRequest::CancelAll),
            E::logs_requests() && r is Err && r->Err_0 is Executor ==>
                final(self).executor_requests().len() == old(self).executor_requests().len() + 1,
            r is Err && r->Err_0 is Drawdown ==> reaches_strategy(old(self)@, final(self)@.trace, *snapshot, data_fresh)
                && !final(self)@.trace.consulted
                && (E::logs_requests() ==> final(self).executor_requests() == old(self).executor_requests().push(ExecutorRequest::CancelAll)),
    {
        self.trace = Ghost(idle_trace(self.trace@));
        let ghost m0 = self@;
        let ghost reqs0 = self.executor.requests();
        let ghost answers0 = self.strategy.answers();
        self.hot.increment_ticks();
        self.risk_manager.check_daily_reset(&mut self.position);
        let ghost p0 = self.position;
        let ghost now_secs = choose|now_secs: u64| (self.risk_manager@, p0) == spec_daily_reset(m0.risk, m0.position, now_secs);
        assert(p0 == spec_daily_reset(m0.risk, m0.position, now_secs).1);
        self.trace = Ghost(TickTrace { reset_secs: now_secs, ..self.trace@ });
        match self.drain_executor_fills() {
            Ok(()) => {},
            Err(e) => {
                assert(drains_to(p0, self.position));
                assert(tick_position_flow(m0.risk, m0.position, self.position));
                assert(E::logs_fills() ==> self.position == spec_drain(spec_daily_reset(m0.risk, m0.position, now_secs).1,
                    old(self).executor_pending_fills(), old(self).executor_dropped_count()).0);
                assert(after_trading(self.position, self.position));
                return Err(e);
            },
        }
        let ghost p1 = self.position;
        assert(E::logs_fills() ==> p1 == spec_drain(spec_daily_reset(m0.risk, m0.position, now_secs).1,
            old(self).executor_pending_fills(), old(self).executor_dropped_count()).0);
        assert(after_trading(p1, p1));
        assert(drains_to(p0, p1));
        assert(tick_position_flow(m0.risk, m0.position, p1));
        self.book.sync_from_snapshot(snapshot);
        self.executor.check_fills(snapshot.best_bid_price, snapshot.best_ask_price);
        if !self.hot.market_changed(snapshot.best_bid_price, snapshot.best_ask_price) {
            assert(after_trading(p1, self.position));
            return Ok(());
        }
        let ghost breaker_before = self.circuit_breaker@;
        assert(breaker_before == m0.breaker);
        let state = self.circuit_breaker.check(snapshot);
        let ghost bnow = choose|n: u64| (self.circuit_breaker@, state) == spec_check(breaker_before, *snapshot, n);
        self.trace = Ghost(TickTrace { breaker_now: bnow, ..self.trace@ });
        match state {
            BreakerState::Halted(_) => {
                match self.executor.cancel_all() {
                    Ok(()) => {},
                    Err(e) => {
                        assert(after_trading(p1, self.position));
                        return Err(EngineError::Executor(e));
                    },
                }
                assert(after_trading(p1, self.position));
                return Ok(());
            },
            BreakerState::Normal => {},
        }
        if !data_fresh {
            self.was_stale = true;
            assert(after_trading(p1, self.position));
            return Ok(());
        }
        if self.was_stale {
            let last_bid = self.last_fresh_bid;
            let last_ask = self.last_fresh_ask;
            if last_bid > 0 && last_ask > 0 {
                let bid = snapshot.best_bid_price;
                let ask = snapshot.best_ask_price;
                let bid_change = if bid > last_bid { bid - last_bid } else { last_bid - bid };
                let ask_change = if ask > last_ask { ask - last_ask } else { last_ask - ask };
                let bid_change_bps = (bid_change * 10_000) / last_bid;
                let ask_change_bps = (ask_change * 10_000) / last_ask;
                if bid_change_bps > MAX_POST_STALE_CHANGE_BPS || ask_change_bps > MAX_POST_STALE_CHANGE_BPS {
                    self.last_fresh_bid = bid;
                    self.last_fresh_ask = ask;
                    self.was_stale = false;
                    assert(after_trading(p1, self.position));
                    return Ok(());
                }
            }
            self.was_stale = false;
        }
        assert(reaches_strategy(m0, self.trace@, *snapshot, data_fresh));
        self.last_fresh_bid = snapshot.best_bid_price;
        self.last_fresh_ask = snapshot.best_ask_price;
        let bid = snapshot.best_bid_price;
        let ask = snapshot.best_ask_price;
        let mid_price = bid / 2 + ask / 2 + (bid % 2 + ask % 2) / 2;
        let unrealized = self.position.get_unrealized_pnl(mid_price);
        let daily_total_pnl = saturating_add_i64(self.position.get_daily_pnl(), unrealized);
        self.position.update_daily_high_water_mark(daily_total_pnl);
        let ghost p2 = self.position;
        assert(p2 == raise_high_water_mark(p1, daily_total_pnl));
        assert(after_trading(p1, p2));
        assert(tick_position_flow(m0.risk, m0.position, p2));
        if daily_total_pnl > self.peak_pnl {
            self.peak_pnl = daily_total_pnl;
        }
        let peak_pnl = self.peak_pnl;
        match self.risk_manager.check_drawdown(daily_total_pnl, peak_pnl) {
            Ok(()) => {},
            Err(v) => {
                match self.executor.cancel_all() {
                    Ok(()) => {},
                    Err(e) => {
                        assert(after_trading(p1, self.position));
                        return Err(EngineError::Executor(e));
                    },
                }
                assert(after_trading(p1, self.position));
                return Err(EngineError::Drawdown(v));
            },
        }
        let answer = self.strategy.calculate(&self.book, &self.position);
        let last_quote_ns = self.last_quote_time_ns;
        self.trace = Ghost(TickTrace {
            executed: false,
            consulted: true,
            answer,
            breaker_now: bnow,
            reset_secs: now_secs,
            signal: self.trace@.signal,
            position: self.position,
            open_long: 0,
            open_short: 0,
            mid: mid_price,
            daily_total_pnl,
            peak_pnl,
            now_ns: 0,
            last_quote_ns,
            risk: self.risk_manager@,
        });
        match answer {
            Some(signal) => {
                self.trace = Ghost(TickTrace { signal, ..self.trace@ });
                if self.risk_manager.check_daily_loss(daily_total_pnl).is_err() {
                    assert(after_trading(p1, self.position));
                    return Ok(());
                }
                let (open_long_exposure, open_short_exposure) = self.executor.get_open_exposure();
                self.trace = Ghost(TickTrace { open_long: open_long_exposure, open_short: open_short_exposure, ..self.trace@ });
                if self.risk_manager.validate_signal(&signal, &self.position, open_long_exposure, open_short_exposure, mid_price).is_err() {
                    assert(after_trading(p1, self.position));
                    return Ok(());
                }
                let mut now_ns: u64 = 0;
                if matches!(signal.action, SignalAction::QuoteBoth | SignalAction::QuoteBid | SignalAction::QuoteAsk | SignalAction::TakePosition) {
                    let current_time_ns = if snapshot.local_recv_ns > 0 { snapshot.local_recv_ns } else { unix_now_ns() };
                    self.trace = Ghost(TickTrace { now_ns: current_time_ns, ..self.trace@ });
                    let time_since_last_quote = if current_time_ns >= last_quote_ns { current_time_ns - last_quote_ns } else { 0 };
                    if time_since_last_quote < MIN_QUOTE_INTERVAL_NS {
                        assert(after_trading(p1, self.position));
                        return Ok(());
                    }
                    self.last_quote_time_ns = current_time_ns;
                    now_ns = current_time_ns;
                }
                self.trace = Ghost(TickTrace { executed: true, ..self.trace@ });
                assert(signal_passes(self.trace@));
                self.hot.increment_signals();
                match self.executor.execute(signal, &self.position) {
                    Ok(()) => {},
                    Err(e) => {
                        assert(after_trading(p1, self.position));
                        return Err(EngineError::Executor(e));
                    },
                }
            },
            None => {},
        }
        assert(self.position == p2);
        let r = self.drain_executor_fills();
        assert(drains_to(p2, self.position));
        assert(after_trading(p1, self.position));
        assert(tick_position_flow(m0.risk, m0.position, self.position));
        r
    }

    /// Cancels all orders and marks the engine as shut down.
    pub fn shutdown(&mut self) -> (r: Result<(), EngineError>)
        ensures
            r is Ok ==> final(self)@ == (EngineModel { shutdown: true, ..old(self)@ }),
            r is Err ==> final(self)@ == old(self)@ && r->Err_0 is Executor,
            E::logs_requests() ==> final(self).executor_requests() == old(self).executor_requests().push(ExecutorRequest::CancelAll),
    {
        match self.executor.cancel_all() {
            Ok(()) => {},
            Err(e) => {
                return Err(EngineError::Executor(e));
            },
        }
        self.shutdown = true;
        Ok(())
    }

    /// Whether the engine was shut down.
    pub fn is_shutdown(&self) -> (r: bool)
        ensures
            r == self@.shutdown,
    {
        self.shutdown
    }

    /// Current position.
    pub fn position(&self) -> (r: &Position)
        ensures
            *r == self@.position,
    {
        &self.position
    }

    /// The strategy.
    pub fn strategy(&self) -> &S {
        &self.strategy
    }

    /// The executor.
    pub fn executor(&self) -> &E {
        &self.executor
    }

    /// The executor, mutably; the engine's own state is not reachable through it.
    pub fn executor_mut(&mut self) -> (r: &mut E)
        ensures
            final(self)@ == old(self)@,
    {
        &mut self.executor
    }

    /// Tick, signal and position statistics.
    pub fn stats(&self) -> (s: EngineStats)
        ensures
            s.ticks_processed == self@.hot.tick_count,
            s.signals_generated == self@.hot.signal_count,
            s.final_position == self@.position.quantity,
            s.realized_pnl == self@.position.realized_pnl,
            s.max_queue_depth == self@.max_queue_depth,
            s.queue_warnings == self@.queue_warnings,
    {
        EngineStats {
            ticks_processed: self.hot.tick_count(),
            signals_generated: self.hot.signal_count(),
            final_position: self.position.get_quantity(),
            realized_pnl: self.position.get_realized_pnl(),
            max_queue_depth: self.max_queue_depth,
            queue_warnings: self.queue_warnings,
        }
    }
}

/// Snapshots the engine waits for at start-up before giving up.
pub const MAX_INIT_RETRIES: u32 = 100;

/// Pause between two start-up polls, in milliseconds.
pub const INIT_RETRY_DELAY_MS: u64 = 100;

/// Next step of the start-up wait for a first valid snapshot.
#[derive(Clone, Copy, PartialEq, Eq, Structural, Debug)]
pub enum StartupStep {
    /// A valid snapshot arrived: process it and start trading.
    Start,
    /// Poll again after the retry delay, with this many failed polls so far.
    Wait { retries: u32 },
    /// Give up after this many failed polls.
    GiveUp { retries: u32 },
}

/// The start-up step after a poll that returned `snapshot`, with `retries` failed polls
/// before it.
pub open spec fn spec_startup_step(retries: u32, snapshot: Option<MarketSnapshot>) -> StartupStep {
    match snapshot {
        Some(s) if spec_is_valid_snapshot(s) => StartupStep::Start,
        _ => {
            let n = retries + 1;
            if n >= MAX_INIT_RETRIES {
                StartupStep::GiveUp { retries: n as u32 }
            } else {
                StartupStep::Wait { retries: n as u32 }
            }
        },
    }
}

/// Decides the next start-up step: a valid snapshot starts trading; an invalid one or
/// an empty poll counts a retry, and the hundredth gives up.
pub fn startup_step(retries: u32, snapshot: Option<MarketSnapshot>) -> (s: StartupStep)
    requires
        retries < MAX_INIT_RETRIES,
    ensures
        s == spec_startup_step(retries, snapshot),
{
    if let Some(ref snap) = snapshot {
        if is_valid_snapshot(snap) {
            return StartupStep::Start;
        }
    }
    let n = retries + 1;
    if n >= MAX_INIT_RETRIES {
        StartupStep::GiveUp { retries: n }
    } else {
        StartupStep::Wait { retries: n }
    }
}

/// Stale data never trades: no trace of a tick with stale data clears a signal.
pub proof fn lemma_stale_tick_never_trades(old: EngineModel, t: TickTrace, snap: MarketSnapshot)
    ensures
        !signal_cleared(old, t, snap, false),
{
}

/// An unchanged market never trades: a tick whose best prices equal the last ones clears
/// no signal.
pub proof fn lemma_unchanged_market_never_trades(old: EngineModel, t: TickTrace, snap: MarketSnapshot, data_fresh: bool)
    requires
        snap.best_bid_price == old.hot.last_bid,
        snap.best_ask_price == old.hot.last_ask,
    ensures
        !signal_cleared(old, t, snap, data_fresh),
{
}

/// A halted circuit breaker blocks trading until it is reset: no tick clears a signal
/// while it is halted.
pub proof fn lemma_halted_breaker_blocks_trading(old: EngineModel, t: TickTrace, snap: MarketSnapshot, data_fresh: bool)
    requires
        old.breaker.state is Halted,
    ensures
        !signal_cleared(old, t, snap, data_fresh),
{
    assert forall|now_ns: u64| (#[trigger] spec_check(old.breaker, snap, now_ns)).1 != BreakerState::Normal by {}
}

/// A cleared signal respects the risk limits: its size is within the order limits and
/// each side it trades keeps the projected position within the position limits.
pub proof fn lemma_cleared_signal_within_limits(old: EngineModel, t: TickTrace, snap: MarketSnapshot, data_fresh: bool)
    requires
        signal_cleared(old, t, snap, data_fresh),
        t.signal.spec_requires_action(),
        t.signal.action != SignalAction::CancelAll,
    ensures
        t.risk.limits.min_order_size <= t.signal.size as i64 <= t.risk.limits.max_order_size,
        (t.signal.action == SignalAction::QuoteBoth || ((t.signal.action == SignalAction::QuoteBid
            || t.signal.action == SignalAction::TakePosition) && t.signal.side == Side::Buy))
            ==> crate::risk::projected_long(t.position.quantity, t.open_long, t.signal.size as i64) <= t.risk.limits.max_position,
        (t.signal.action == SignalAction::QuoteBoth || ((t.signal.action == SignalAction::QuoteAsk
            || t.signal.action == SignalAction::TakePosition) && t.signal.side == Side::Sell))
            ==> crate::risk::projected_short(t.position.quantity, t.open_short, t.signal.size as i64) >= -t.risk.limits.max_short,
{
    crate::risk::lemma_accepted_signal_within_limits(t.risk.limits, t.risk.kill_switch, t.risk.outstanding_order_count,
        t.signal, t.position.quantity, t.open_long, t.open_short, t.mid);
}

/// Applying fills only ever fails with a fill or position-limit error.
proof fn lemma_apply_fills_error_kind(p: Position, fills: Seq<FixedFill>)
    ensures
        spec_apply_fills(p, fills).1 matches Some(e) ==> e is PositionUpdate || e is PositionLimitExceeded
            || e is ShortLimitExceeded,
    decreases fills.len(),
{
    if fills.len() > 0 {
        lemma_apply_fills_error_kind(p, fills.drop_last());
    }
}

/// Once a fill stops the application, later fills change nothing.
proof fn lemma_apply_fills_stops(p: Position, fills: Seq<FixedFill>, k: int)
    requires
        0 <= k <= fills.len(),
        spec_apply_fills(p, fills.take(k)).1 is Some,
    ensures
        spec_apply_fills(p, fills) == spec_apply_fills(p, fills.take(k)),
    decreases fills.len() - k,
{
    if k < fills.len() {
        assert(fills.take(k + 1).drop_last() =~= fills.take(k));
        assert(spec_apply_fills(p, fills.take(k + 1)) == spec_apply_fills(p, fills.take(k)));
        lemma_apply_fills_stops(p, fills, k + 1);
    } else {
        assert(fills.take(k) =~= fills);
    }
}

} // verus!

//! Executor with full order lifecycle tracking, execution metrics and a journal.
//!
//! Orders are validated, acknowledged at once and, with instant fills on, filled in
//! full at their limit price. Every lifecycle event is queued as a journal entry for
//! the caller to persist; replaying persisted entries rebuilds the tracked orders and
//! the metrics (see [`ProductionExecutor::recover_from_journal`]).
use vstd::prelude::*;
use vstd::string::StringExecFns;
use crate::clock::system_time_now;
use crate::text::{dec_digits, push_u64};
use crate::execution::types::{
    fill_notional, order_status_active, same_fill, same_order, ExecutionMode, Fill, Order, OrderId,
    OrderStatus,
};

verus! {

/// An order with its lifecycle: when it was submitted and acknowledged, and its fills.
#[derive(Debug)]
pub struct OrderState {
    pub order: Order,
    pub submitted_at: std::time::SystemTime,
    pub acknowledged_at: Option<std::time::SystemTime>,
    pub fills: Vec<Fill>,
}

/// What is tracked of an order, timestamps of the executor aside.
pub struct OrderRecord {
    pub order: Order,
    pub acknowledged: bool,
    pub fills: Seq<Fill>,
}

/// Record of an order state.
pub open spec fn record_of(s: OrderState) -> OrderRecord {
    OrderRecord { order: s.order, acknowledged: s.acknowledged_at is Some, fills: s.fills@ }
}

/// Total size of fills (nine decimals).
pub open spec fn fills_total_size(fills: Seq<Fill>) -> int
    decreases fills.len(),
{
    if fills.len() == 0 {
        0
    } else {
        fills_total_size(fills.drop_last()) + fills.last().size
    }
}

/// Total notional of fills (eighteen decimals).
pub open spec fn fills_total_notional(fills: Seq<Fill>) -> int
    decreases fills.len(),
{
    if fills.len() == 0 {
        0
    } else {
        fills_total_notional(fills.drop_last()) + fill_notional(fills.last())
    }
}

/// Largest gap allowed between an order's filled size and the total of its fills:
/// 10^-8, ten units of nine-decimal fixed point.
pub const FILL_TOLERANCE: u64 = 10;

/// Whether an order's state is consistent: its fills do not exceed its size, its
/// filled size matches them within [`FILL_TOLERANCE`], a filled order is filled in
/// full and a partially filled one in part.
pub open spec fn record_valid(r: OrderRecord) -> bool {
    let total = fills_total_size(r.fills);
    &&& total <= r.order.size
    &&& r.order.filled_size - total <= FILL_TOLERANCE
    &&& total - r.order.filled_size <= FILL_TOLERANCE
    &&& match r.order.status {
        OrderStatus::Filled => total >= r.order.size,
        OrderStatus::PartiallyFilled => 0 < total < r.order.size,
        _ => true,
    }
}

proof fn lemma_total_size_bound(fills: Seq<Fill>)
    ensures
        0 <= fills_total_size(fills) <= fills.len() * (u64::MAX as int),
    decreases fills.len(),
{
    if fills.len() > 0 {
        lemma_total_size_bound(fills.drop_last());
    }
}

proof fn lemma_total_notional_prefix(fills: Seq<Fill>, i: int)
    requires
        0 <= i <= fills.len(),
    ensures
        0 <= fills_total_notional(fills.take(i)) <= fills_total_notional(fills),
    decreases fills.len() - i,
{
    if i < fills.len() {
        lemma_total_notional_prefix(fills, i + 1);
        lemma_total_notional_nonneg(fills.take(i));
        assert(fills.take(i + 1).drop_last() =~= fills.take(i));
        assert(fills.take(i + 1).last() == fills[i]);
        assert(fill_notional(fills[i]) >= 0) by (nonlinear_arith)
            requires fill_notional(fills[i]) == fills[i].price * fills[i].size;
    } else {
        assert(fills.take(i) =~= fills);
        lemma_total_notional_nonneg(fills);
    }
}

proof fn lemma_total_notional_nonneg(fills: Seq<Fill>)
    ensures
        fills_total_notional(fills) >= 0,
    decreases fills.len(),
{
    if fills.len() > 0 {
        lemma_total_notional_nonneg(fills.drop_last());
        let f = fills.last();
        assert(fill_notional(f) >= 0) by (nonlinear_arith)
            requires fill_notional(f) == f.price * f.size;
    }
}

impl OrderState {
    /// A just submitted order, not acknowledged and without fills.
    pub fn new(order: Order) -> (s: Self)
        ensures
            s.order == order,
            s.acknowledged_at is None,
            s.fills@.len() == 0,
    {
        OrderState { submitted_at: system_time_now(), acknowledged_at: None, fills: Vec::new(), order }
    }

    /// Marks the order acknowledged now.
    pub fn acknowledge(&mut self)
        ensures
            final(self).order == old(self).order,
            final(self).submitted_at == old(self).submitted_at,
            final(self).acknowledged_at is Some,
            final(self).fills == old(self).fills,
    {
        self.acknowledged_at = Some(system_time_now());
    }

    /// Records a fill.
    pub fn add_fill(&mut self, fill: Fill)
        ensures
            final(self).order == old(self).order,
            final(self).submitted_at == old(self).submitted_at,
            final(self).acknowledged_at == old(self).acknowledged_at,
            final(self).fills@ == old(self).fills@.push(fill),
    {
        self.fills.push(fill);
    }

    /// Total notional of the fills (eighteen decimals).
    pub fn total_fill_volume(&self) -> (r: u128)
        requires
            fills_total_notional(self.fills@) <= u128::MAX,
        ensures
            r == fills_total_notional(self.fills@),
    {
        let ghost fs = self.fills@;
        let mut total: u128 = 0;
        let mut i: usize = 0;
        while i < self.fills.len()
            invariant
                0 <= i <= fs.len(),
                fs == self.fills@,
                fills_total_notional(fs) <= u128::MAX,
                total == fills_total_notional(fs.take(i as int)),
            decreases fs.len() - i,
        {
            proof {
                lemma_total_notional_prefix(fs, i + 1);
                assert(fs.take(i + 1).drop_last() =~= fs.take(i as int));
            }
            total = total + self.fills[i].notional();
            i = i + 1;
        }
        assert(fs.take(i as int) =~= fs);
        total
    }

    /// Whether the state is consistent (see [`record_valid`]).
    pub fn is_valid(&self) -> (r: bool)
        ensures
            r == record_valid(record_of(*self)),
    {
        let ghost fs = self.fills@;
        let mut total: u128 = 0;
        let mut i: usize = 0;
        while i < self.fills.len()
            invariant
                0 <= i <= fs.len(),
                fs == self.fills@,
                total == fills_total_size(fs.take(i as int)),
                total <= i * (u64::MAX as int),
            decreases fs.len() - i,
        {
            assert(fs.take(i + 1).drop_last() =~= fs.take(i as int));
            assert((i + 1) * (u64::MAX as int) <= u128::MAX) by (nonlinear_arith)
                requires i < fs.len(), fs.len() <= usize::MAX, usize::MAX <= u64::MAX;
            assert((i + 1) * (u64::MAX as int) == i * (u64::MAX as int) + u64::MAX) by (nonlinear_arith);
            total = total + self.fills[i].size as u128;
            i = i + 1;
        }
        assert(fs.take(i as int) =~= fs);
        let size = self.order.size as u128;
        let filled = self.order.filled_size as u128;
        if total > size {
            return false;
        }
        if filled > total + FILL_TOLERANCE as u128 || total > filled + FILL_TOLERANCE as u128 {
            return false;
        }
        match self.order.status {
            OrderStatus::Filled => total >= size,
            OrderStatus::PartiallyFilled => total > 0 && total < size,
            _ => true,
        }
    }
}

/// An event of the journal.
#[derive(Debug)]
pub enum JournalEvent {
    OrderSubmit(Order),
    OrderAck(OrderId),
    Fill(Fill),
    OrderCancel(OrderId),
}

/// Counts of a journal replay.
#[derive(Debug, Clone, Copy, PartialEq, Eq, Structural)]
pub struct RecoveryStats {
    pub orders_recovered: usize,
    pub fills_recovered: usize,
    pub errors: usize,
    pub journal_entries: usize,
}

/// Execution counters. Notional volume is kept in whole cents; every counter wraps
/// around on overflow.
#[derive(Debug, Clone, Copy, PartialEq, Eq, Structural)]
pub struct ExecutionMetrics {
    pub orders_submitted: u64,
    pub orders_acknowledged: u64,
    pub fills_received: u64,
    pub orders_cancelled: u64,
    pub orders_rejected: u64,
    /// Total notional, in cents.
    pub total_volume: u64,
}

/// Whole cents of an eighteen-decimal notional, truncated; 0 when they do not fit in
/// 64 bits.
pub open spec fn notional_cents(notional: int) -> u64 {
    let c = notional / 10_000_000_000_000_000;
    if c <= u64::MAX { c as u64 } else { 0 }
}

/// Metrics after one more fill of the given notional.
pub open spec fn metrics_after_fill(m: ExecutionMetrics, notional: int) -> ExecutionMetrics {
    ExecutionMetrics {
        fills_received: m.fills_received.wrapping_add(1),
        total_volume: m.total_volume.wrapping_add(notional_cents(notional)),
        ..m
    }
}

impl ExecutionMetrics {
    /// All counters at zero.
    pub open spec fn spec_zero() -> ExecutionMetrics {
        ExecutionMetrics {
            orders_submitted: 0,
            orders_acknowledged: 0,
            fills_received: 0,
            orders_cancelled: 0,
            orders_rejected: 0,
            total_volume: 0,
        }
    }

    /// All counters at zero.
    pub fn new() -> (m: Self)
        ensures
            m == Self::spec_zero(),
    {
        ExecutionMetrics {
            orders_submitted: 0,
            orders_acknowledged: 0,
            fills_received: 0,
            orders_cancelled: 0,
            orders_rejected: 0,
            total_volume: 0,
        }
    }

    /// Counts a submitted order.
    pub fn record_order_submitted(&mut self)
        ensures
            *final(self) == (ExecutionMetrics { orders_submitted: old(self).orders_submitted.wrapping_add(1), ..*old(self) }),
    {
        self.orders_submitted = self.orders_submitted.wrapping_add(1);
    }

    /// Counts an acknowledged order.
    pub fn record_order_acknowledged(&mut self)
        ensures
            *final(self) == (ExecutionMetrics { orders_acknowledged: old(self).orders_acknowledged.wrapping_add(1), ..*old(self) }),
    {
        self.orders_acknowledged = self.orders_acknowledged.wrapping_add(1);
    }

    /// Counts a fill and adds its notional (eighteen decimals) in cents.
    pub fn record_fill(&mut self, notional: u128)
        ensures
            *final(self) == metrics_after_fill(*old(self), notional as int),
    {
        self.fills_received = self.fills_received.wrapping_add(1);
        let c = notional / 10_000_000_000_000_000;
        let cents: u64 = if c <= u64::MAX as u128 { c as u64 } else { 0 };
        self.total_volume = self.total_volume.wrapping_add(cents);
    }

    /// Counts a cancelled order.
    pub fn record_order_cancelled(&mut self)
        ensures
            *final(self) == (ExecutionMetrics { orders_cancelled: old(self).orders_cancelled.wrapping_add(1), ..*old(self) }),
    {
        self.orders_cancelled = self.orders_cancelled.wrapping_add(1);
    }

    /// Counts a rejected order.
    pub fn record_order_rejected(&mut self)
        ensures
            *final(self) == (ExecutionMetrics { orders_rejected: old(self).orders_rejected.wrapping_add(1), ..*old(self) }),
    {
        self.orders_rejected = self.orders_rejected.wrapping_add(1);
    }
}


/// Configuration of a [`ProductionExecutor`].
#[derive(Debug, Clone)]
pub struct ProductionExecutorConfig {
    /// Whether lifecycle events are queued for the journal.
    pub enable_journal: bool,
    /// Where the caller persists the journal.
    pub journal_path: String,
    /// Whether the caller replays the journal when the executor starts.
    pub recover_on_startup: bool,
    /// Whether replayed orders are checked for consistency before they are loaded.
    pub validate_recovery: bool,
    /// Delay before an order is acknowledged, in milliseconds (the caller waits).
    pub fill_delay_ms: u64,
    /// Whether orders fill in full as soon as they are acknowledged.
    pub instant_fills: bool,
}

impl Default for ProductionExecutorConfig {
    fn default() -> (c: Self)
        ensures
            c.enable_journal && c.recover_on_startup && c.validate_recovery && c.instant_fills,
            c.journal_path@ == "./data/execution_journal.jsonl"@,
            c.fill_delay_ms == 0,
    {
        proof {
            reveal_strlit("./data/execution_journal.jsonl");
        }
        ProductionExecutorConfig {
            enable_journal: true,
            journal_path: String::from_str("./data/execution_journal.jsonl"),
            recover_on_startup: true,
            validate_recovery: true,
            fill_delay_ms: 0,
            instant_fills: true,
        }
    }
}

/// Whether no order identifier occurs twice.
pub open spec fn record_ids_distinct(s: Seq<OrderRecord>) -> bool {
    forall|i: int, j: int| 0 <= i < j < s.len() ==> s[i].order.id@ != s[j].order.id@
}

/// Position of the order with the given identifier, if any.
pub open spec fn record_index(s: Seq<OrderRecord>, id: Seq<char>) -> Option<int> {
    if exists|i: int| 0 <= i < s.len() && s[i].order.id@ == id {
        Some(choose|i: int| 0 <= i < s.len() && s[i].order.id@ == id)
    } else {
        None
    }
}

/// Where a record with the given identifier goes: in place of the order with that
/// identifier, or after all orders.
pub open spec fn upsert_position(s: Seq<OrderRecord>, id: Seq<char>) -> int {
    match record_index(s, id) {
        Some(i) => i,
        None => s.len() as int,
    }
}

/// Orders after storing a record: it replaces the order with its identifier, or is
/// added after all orders.
pub open spec fn upsert_record(s: Seq<OrderRecord>, r: OrderRecord) -> Seq<OrderRecord> {
    match record_index(s, r.order.id@) {
        Some(i) => s.update(i, r),
        None => s.push(r),
    }
}

/// Size of an order not filled yet (nine decimals).
pub open spec fn remaining_of(o: Order) -> int {
    if o.filled_size <= o.size { o.size - o.filled_size } else { 0 }
}

/// Whether a fill is the fill of an order for its whole remaining size at its price.
pub open spec fn full_fill_of(f: Fill, o: Order) -> bool {
    &&& f.order_id@ == o.id@
    &&& f.side == o.side
    &&& f.price == o.price
    &&& f.size == remaining_of(o)
    &&& f.fee is None
    &&& f.fee_currency is None
}

/// Whether `rec` records `order` once placed: acknowledged and open, or, with instant
/// fills, filled in full at its price with one fill. Only the update time is left free.
pub open spec fn placed_record(rec: OrderRecord, order: Order, instant: bool) -> bool {
    &&& rec.acknowledged
    &&& rec.order.id == order.id
    &&& rec.order.side == order.side
    &&& rec.order.order_type == order.order_type
    &&& rec.order.price == order.price
    &&& rec.order.size == order.size
    &&& rec.order.time_in_force == order.time_in_force
    &&& rec.order.created_at == order.created_at
    &&& if instant {
        &&& rec.order.status == OrderStatus::Filled
        &&& rec.order.filled_size == order.filled_size + remaining_of(order)
        &&& rec.order.avg_fill_price == Some(order.price)
        &&& rec.fills.len() == 1
        &&& full_fill_of(rec.fills[0], order)
    } else {
        &&& rec.order.status == OrderStatus::Open
        &&& rec.order.filled_size == order.filled_size
        &&& rec.order.avg_fill_price == order.avg_fill_price
        &&& rec.fills.len() == 0
    }
}

/// Whether `o` is `order` as submitted: pending, its update time left free.
pub open spec fn submitted_as(o: Order, order: Order) -> bool {
    same_order(o, Order { status: OrderStatus::Pending, updated_at: o.updated_at, ..order })
}

/// Whether `added` are the journal events of placing `order` (with `fill` the fill it
/// got, when instant fills are on): its submission, its acknowledgement and its fill.
pub open spec fn placement_journal(added: Seq<JournalEvent>, order: Order, instant: bool, fill: Fill) -> bool {
    &&& added.len() == (if instant { 3int } else { 2int })
    &&& added[0] matches JournalEvent::OrderSubmit(o) && submitted_as(o, order)
    &&& added[1] matches JournalEvent::OrderAck(id) && id@ == order.id@
    &&& instant ==> (added[2] matches JournalEvent::Fill(f) && same_fill(f, fill))
}

/// Filled size after a fill: the sum, capped at the largest representable size.
pub open spec fn filled_after(filled: u64, size: u64) -> u64 {
    if filled + size <= u64::MAX { (filled + size) as u64 } else { u64::MAX }
}

/// Record after a replayed fill: the fill is added, the filled size grows by its
/// size, and the order becomes filled once the filled size reaches the order size, or
/// else partially filled while anything is filled.
pub open spec fn record_with_fill(r: OrderRecord, f: Fill) -> OrderRecord {
    let filled = filled_after(r.order.filled_size, f.size);
    let status = if filled >= r.order.size {
        OrderStatus::Filled
    } else if filled > 0 {
        OrderStatus::PartiallyFilled
    } else {
        r.order.status
    };
    OrderRecord { order: Order { filled_size: filled, status, ..r.order }, fills: r.fills.push(f), ..r }
}

/// Progress of a journal replay: the orders rebuilt so far, the submissions and the
/// fills of known orders replayed, and the entries that could not be read.
pub struct ReplayAcc {
    pub records: Seq<OrderRecord>,
    pub submits: nat,
    pub fills: nat,
    pub unreadable: nat,
}

/// Replay of one journal entry (`None` for an entry that could not be read). A
/// submission stores a fresh record, replacing one with the same identifier; an
/// acknowledgement, a fill or a cancellation of an unknown order is ignored.
pub open spec fn replay_step(acc: ReplayAcc, entry: Option<JournalEvent>) -> ReplayAcc {
    let s = acc.records;
    match entry {
        None => ReplayAcc { unreadable: acc.unreadable + 1, ..acc },
        Some(JournalEvent::OrderSubmit(o)) => ReplayAcc {
            records: upsert_record(s, OrderRecord { order: o, acknowledged: false, fills: Seq::empty() }),
            submits: acc.submits + 1,
            ..acc
        },
        Some(JournalEvent::OrderAck(id)) => match record_index(s, id@) {
            Some(i) => ReplayAcc { records: s.update(i, record_acked(s[i])), ..acc },
            None => acc,
        },
        Some(JournalEvent::Fill(f)) => match record_index(s, f.order_id@) {
            Some(i) => ReplayAcc { records: s.update(i, record_with_fill(s[i], f)), fills: acc.fills + 1, ..acc },
            None => acc,
        },
        Some(JournalEvent::OrderCancel(id)) => match record_index(s, id@) {
            Some(i) => ReplayAcc { records: s.update(i, record_cancelled(s[i])), ..acc },
            None => acc,
        },
    }
}

/// Replay of journal entries in order, from no orders.
pub open spec fn replay_all(entries: Seq<Option<JournalEvent>>) -> ReplayAcc
    decreases entries.len(),
{
    if entries.len() == 0 {
        ReplayAcc { records: Seq::empty(), submits: 0, fills: 0, unreadable: 0 }
    } else {
        replay_step(replay_all(entries.drop_last()), entries.last())
    }
}

/// Metrics after counting fills in order.
pub open spec fn fills_metrics(m: ExecutionMetrics, fills: Seq<Fill>) -> ExecutionMetrics
    decreases fills.len(),
{
    if fills.len() == 0 {
        m
    } else {
        metrics_after_fill(fills_metrics(m, fills.drop_last()), fill_notional(fills.last()))
    }
}

/// Metrics after loading a recovered order: it counts as submitted, as acknowledged
/// if it was, each of its fills counts, and it counts as cancelled if it is.
pub open spec fn metrics_for_record(m: ExecutionMetrics, r: OrderRecord) -> ExecutionMetrics {
    let m1 = ExecutionMetrics { orders_submitted: m.orders_submitted.wrapping_add(1), ..m };
    let m2 = if r.acknowledged {
        ExecutionMetrics { orders_acknowledged: m1.orders_acknowledged.wrapping_add(1), ..m1 }
    } else {
        m1
    };
    let m3 = fills_metrics(m2, r.fills);
    if r.order.status == OrderStatus::Cancelled {
        ExecutionMetrics { orders_cancelled: m3.orders_cancelled.wrapping_add(1), ..m3 }
    } else {
        m3
    }
}

/// Progress of loading recovered orders: the executor's orders and metrics, and the
/// orders skipped as inconsistent.
pub struct LoadAcc {
    pub records: Seq<OrderRecord>,
    pub metrics: ExecutionMetrics,
    pub invalid: nat,
}

/// Loading of one recovered order: with validation on, an inconsistent order is
/// skipped and counted; otherwise it is counted in the metrics and stored.
pub open spec fn load_step(acc: LoadAcc, r: OrderRecord, validate: bool) -> LoadAcc {
    if validate && !record_valid(r) {
        LoadAcc { invalid: acc.invalid + 1, ..acc }
    } else {
        LoadAcc { records: upsert_record(acc.records, r), metrics: metrics_for_record(acc.metrics, r), ..acc }
    }
}

/// Loading of recovered orders, from the last to the first.
pub open spec fn load_all(acc: LoadAcc, recs: Seq<OrderRecord>, validate: bool) -> LoadAcc
    decreases recs.len(),
{
    if recs.len() == 0 {
        acc
    } else {
        load_all(load_step(acc, recs.last(), validate), recs.drop_last(), validate)
    }
}

/// Records of order states.
pub open spec fn records_of(states: Seq<OrderState>) -> Seq<OrderRecord> {
    states.map_values(|s: OrderState| record_of(s))
}

/// Position of the state with the given identifier among states with distinct identifiers.
fn find_state(states: &Vec<OrderState>, id: &OrderId) -> (r: Option<usize>)
    requires
        record_ids_distinct(records_of(states@)),
    ensures
        r matches Some(i) ==> i < states@.len() && record_index(records_of(states@), id@) == Some(i as int),
        r is None ==> record_index(records_of(states@), id@) is None,
{
    let ghost recs = records_of(states@);
    let mut i: usize = 0;
    while i < states.len()
        invariant
            0 <= i <= states@.len(),
            recs == records_of(states@),
            record_ids_distinct(recs),
            forall|j: int| 0 <= j < i ==> recs[j].order.id@ != id@,
        decreases states.len() - i,
    {
        if states[i].order.id == *id {
            assert(recs[i as int].order.id@ == id@);
            let ghost c = choose|k: int| 0 <= k < recs.len() && recs[k].order.id@ == id@;
            proof {
                if c != i as int {
                    if c < i as int {
                        assert(recs[c].order.id@ != recs[i as int].order.id@);
                    } else {
                        assert(recs[i as int].order.id@ != recs[c].order.id@);
                    }
                }
            }
            return Some(i);
        }
        i = i + 1;
    }
    None
}

/// Replacing a record by one with the same identifier keeps identifiers distinct.
proof fn lemma_update_keeps_distinct(s: Seq<OrderRecord>, i: int, r: OrderRecord)
    requires
        record_ids_distinct(s),
        0 <= i < s.len(),
        r.order.id@ == s[i].order.id@,
    ensures
        record_ids_distinct(s.update(i, r)),
{
    let a = s.update(i, r);
    assert forall|x: int, y: int| 0 <= x < y < a.len() implies a[x].order.id@ != a[y].order.id@ by {
        assert(a[x].order.id@ == s[x].order.id@);
        assert(a[y].order.id@ == s[y].order.id@);
    }
}

/// Storing a record keeps identifiers distinct.
proof fn lemma_upsert_keeps_distinct(s: Seq<OrderRecord>, r: OrderRecord)
    requires
        record_ids_distinct(s),
    ensures
        record_ids_distinct(upsert_record(s, r)),
        upsert_record(s, r).len() <= s.len() + 1,
{
    match record_index(s, r.order.id@) {
        Some(i) => lemma_update_keeps_distinct(s, i, r),
        None => {
            let a = s.push(r);
            assert forall|x: int, y: int| 0 <= x < y < a.len() implies a[x].order.id@ != a[y].order.id@ by {
                if y == s.len() {
                    assert(a[x] == s[x]);
                    assert(!(0 <= x < s.len() && s[x].order.id@ == r.order.id@));
                } else {
                    assert(a[x] == s[x] && a[y] == s[y]);
                }
            }
        },
    }
}

/// Stores a state in place of the one with its identifier, or after all.
fn upsert_state_vec(states: &mut Vec<OrderState>, st: OrderState)
    requires
        record_ids_distinct(records_of(old(states)@)),
    ensures
        records_of(final(states)@) == upsert_record(records_of(old(states)@), record_of(st)),
        record_ids_distinct(records_of(final(states)@)),
        records_of(final(states)@).len() <= records_of(old(states)@).len() + 1,
{
    let ghost r0 = records_of(states@);
    proof {
        lemma_upsert_keeps_distinct(r0, record_of(st));
    }
    match find_state(states, &st.order.id) {
        Some(i) => {
            states.set(i, st);
            assert(records_of(states@) =~= r0.update(i as int, record_of(st)));
        },
        None => {
            states.push(st);
            assert(records_of(states@) =~= r0.push(record_of(st)));
        },
    }
}

/// Replaces the state at `i` by `st`, which has the same identifier.
fn replace_state(states: &mut Vec<OrderState>, i: usize, st: OrderState)
    requires
        record_ids_distinct(records_of(old(states)@)),
        i < old(states)@.len(),
        st.order.id@ == old(states)@[i as int].order.id@,
    ensures
        records_of(final(states)@) == records_of(old(states)@).update(i as int, record_of(st)),
        record_ids_distinct(records_of(final(states)@)),
{
    let ghost r0 = records_of(states@);
    states.set(i, st);
    assert(records_of(states@) =~= r0.update(i as int, record_of(st)));
    proof {
        lemma_update_keeps_distinct(r0, i as int, record_of(st));
    }
}

/// Record after a replayed acknowledgement.
pub open spec fn record_acked(r: OrderRecord) -> OrderRecord {
    OrderRecord { acknowledged: true, ..r }
}

/// Record after a replayed cancellation.
pub open spec fn record_cancelled(r: OrderRecord) -> OrderRecord {
    OrderRecord { order: Order { status: OrderStatus::Cancelled, ..r.order }, ..r }
}

/// Replays an acknowledgement onto distinct order states.
fn replay_ack(states: &mut Vec<OrderState>, id: &OrderId)
    requires
        record_ids_distinct(records_of(old(states)@)),
    ensures
        record_ids_distinct(records_of(final(states)@)),
        records_of(final(states)@) == (match record_index(records_of(old(states)@), id@) {
            Some(i) => records_of(old(states)@).update(i, record_acked(records_of(old(states)@)[i])),
            None => records_of(old(states)@),
        }),
{
    let ghost r0 = records_of(states@);
    if let Some(i) = find_state(states, id) {
        let mut st = states.remove(i);
        assert(record_of(st) == r0[i as int]);
        st.acknowledge();
        states.insert(i, st);
        assert(records_of(states@) =~= r0.update(i as int, record_acked(r0[i as int])));
        proof {
            lemma_update_keeps_distinct(r0, i as int, record_acked(r0[i as int]));
        }
    }
}

/// Replays a cancellation onto distinct order states.
fn replay_cancel(states: &mut Vec<OrderState>, id: &OrderId)
    requires
        record_ids_distinct(records_of(old(states)@)),
    ensures
        record_ids_distinct(records_of(final(states)@)),
        records_of(final(states)@) == (match record_index(records_of(old(states)@), id@) {
            Some(i) => records_of(old(states)@).update(i, record_cancelled(records_of(old(states)@)[i])),
            None => records_of(old(states)@),
        }),
{
    let ghost r0 = records_of(states@);
    if let Some(i) = find_state(states, id) {
        let mut st = states.remove(i);
        assert(record_of(st) == r0[i as int]);
        st.order.status = OrderStatus::Cancelled;
        states.insert(i, st);
        assert(records_of(states@) =~= r0.update(i as int, record_cancelled(r0[i as int])));
        proof {
            lemma_update_keeps_distinct(r0, i as int, record_cancelled(r0[i as int]));
        }
    }
}

/// Replays a fill onto distinct order states; tells whether its order was known.
fn replay_fill(states: &mut Vec<OrderState>, f: Fill) -> (applied: bool)
    requires
        record_ids_distinct(records_of(old(states)@)),
    ensures
        record_ids_distinct(records_of(final(states)@)),
        applied == record_index(records_of(old(states)@), f.order_id@) is Some,
        records_of(final(states)@) == (match record_index(records_of(old(states)@), f.order_id@) {
            Some(i) => records_of(old(states)@).update(i, record_with_fill(records_of(old(states)@)[i], f)),
            None => records_of(old(states)@),
        }),
{
    let ghost r0 = records_of(states@);
    let ghost fg = f;
    match find_state(states, &f.order_id) {
        Some(i) => {
            let mut st = states.remove(i);
            assert(record_of(st) == r0[i as int]);
            let filled = st.order.filled_size.saturating_add(f.size);
            st.order.filled_size = filled;
            if filled >= st.order.size {
                st.order.status = OrderStatus::Filled;
            } else if filled > 0 {
                st.order.status = OrderStatus::PartiallyFilled;
            }
            st.add_fill(f);
            states.insert(i, st);
            assert(records_of(states@) =~= r0.update(i as int, record_with_fill(r0[i as int], fg)));
            proof {
                lemma_update_keeps_distinct(r0, i as int, record_with_fill(r0[i as int], fg));
            }
            true
        },
        None => false,
    }
}

/// Counts of a replay so far.
#[derive(Clone, Copy)]
struct ReplayCounts {
    submits: usize,
    fills: usize,
    unreadable: usize,
}

/// Replay progress made of order states and counts.
spec fn replay_acc_of(states: Seq<OrderState>, c: ReplayCounts) -> ReplayAcc {
    ReplayAcc { records: records_of(states), submits: c.submits as nat, fills: c.fills as nat, unreadable: c.unreadable as nat }
}

/// Replays one journal entry onto distinct order states (see [`replay_step`]).
fn replay_entry(states: &mut Vec<OrderState>, entry: Option<JournalEvent>, c: ReplayCounts) -> (r: ReplayCounts)
    requires
        record_ids_distinct(records_of(old(states)@)),
        c.submits + c.fills + c.unreadable < usize::MAX,
    ensures
        record_ids_distinct(records_of(final(states)@)),
        replay_step(replay_acc_of(old(states)@, c), entry) == replay_acc_of(final(states)@, r),
        r.submits + r.fills + r.unreadable == c.submits + c.fills + c.unreadable
            || r.submits + r.fills + r.unreadable == c.submits + c.fills + c.unreadable + 1,
        r.submits >= c.submits,
        records_of(final(states)@).len() <= records_of(old(states)@).len() + r.submits - c.submits,
{
    let r = match entry {
        None => ReplayCounts { unreadable: c.unreadable + 1, ..c },
        Some(JournalEvent::OrderSubmit(o)) => {
            let st = OrderState::new(o);
            assert(st.fills@ =~= Seq::<Fill>::empty());
            upsert_state_vec(states, st);
            ReplayCounts { submits: c.submits + 1, ..c }
        },
        Some(JournalEvent::OrderAck(id)) => {
            replay_ack(states, &id);
            c
        },
        Some(JournalEvent::Fill(f)) => {
            if replay_fill(states, f) {
                ReplayCounts { fills: c.fills + 1, ..c }
            } else {
                c
            }
        },
        Some(JournalEvent::OrderCancel(id)) => {
            replay_cancel(states, &id);
            c
        },
    };
    r
}

/// Metrics after loading a recovered order (see [`metrics_for_record`]).
fn metrics_for_state(m: ExecutionMetrics, st: &OrderState) -> (r: ExecutionMetrics)
    ensures
        r == metrics_for_record(m, record_of(*st)),
{
    let mut m = m;
    m.record_order_submitted();
    if st.acknowledged_at.is_some() {
        m.record_order_acknowledged();
    }
    let ghost m2 = m;
    let ghost fs = st.fills@;
    let mut i: usize = 0;
    while i < st.fills.len()
        invariant
            0 <= i <= fs.len(),
            fs == st.fills@,
            m == fills_metrics(m2, fs.take(i as int)),
        decreases fs.len() - i,
    {
        assert(fs.take(i + 1).drop_last() =~= fs.take(i as int));
        assert(fs.take(i + 1).last() == fs[i as int]);
        m.record_fill(st.fills[i].notional());
        i = i + 1;
    }
    assert(fs.take(i as int) =~= fs);
    if matches!(st.order.status, OrderStatus::Cancelled) {
        m.record_order_cancelled();
    }
    m
}

/// Two-digit text of a number of cents below one hundred.
pub open spec fn two_digits(c: nat) -> Seq<char> {
    if c < 10 { seq!['0'] + dec_digits(c) } else { dec_digits(c) }
}

/// One-line summary of execution counters, the volume in dollars and cents.
pub open spec fn spec_order_stats(m: ExecutionMetrics) -> Seq<char> {
    "Orders: "@ + dec_digits(m.orders_submitted as nat) + "/"@ + dec_digits(m.orders_acknowledged as nat)
        + " submitted/acked, Fills: "@ + dec_digits(m.fills_received as nat) + ", Cancelled: "@
        + dec_digits(m.orders_cancelled as nat) + ", Volume: $"@ + dec_digits((m.total_volume / 100) as nat)
        + "."@ + two_digits((m.total_volume % 100) as nat)
}

/// Executor that tracks every order through its lifecycle (see the module doc).
pub struct ProductionExecutor {
    orders: Vec<OrderState>,
    pending_fills: Vec<Fill>,
    journal: Vec<JournalEvent>,
    metrics: ExecutionMetrics,
    config: ProductionExecutorConfig,
    mode: ExecutionMode,
}

impl ProductionExecutor {
    #[verifier::type_invariant]
    spec fn well_formed(&self) -> bool {
        &&& record_ids_distinct(self.orders@.map_values(|s: OrderState| record_of(s)))
        &&& self.mode == ExecutionMode::Simulated
    }

    /// Tracked orders.
    pub closed spec fn records(&self) -> Seq<OrderRecord> {
        self.orders@.map_values(|s: OrderState| record_of(s))
    }

    /// Fills not handed out yet.
    pub closed spec fn pending(&self) -> Seq<Fill> {
        self.pending_fills@
    }

    /// Journal events not taken yet.
    pub closed spec fn journal_events(&self) -> Seq<JournalEvent> {
        self.journal@
    }

    /// Execution counters.
    pub closed spec fn metrics_state(&self) -> ExecutionMetrics {
        self.metrics
    }

    /// Configuration.
    pub closed spec fn config_state(&self) -> ProductionExecutorConfig {
        self.config
    }

    /// An executor without orders, fills or journal events, all counters at zero.
    pub fn new(config: ProductionExecutorConfig) -> (e: Self)
        ensures
            e.records().len() == 0,
            e.pending().len() == 0,
            e.journal_events().len() == 0,
            e.metrics_state() == ExecutionMetrics::spec_zero(),
            e.config_state() == config,
    {
        let e = ProductionExecutor {
            orders: Vec::new(),
            pending_fills: Vec::new(),
            journal: Vec::new(),
            metrics: ExecutionMetrics::new(),
            config,
            mode: ExecutionMode::Simulated,
        };
        assert(e.records() =~= Seq::<OrderRecord>::empty());
        e
    }

    /// An executor with the default configuration.
    pub fn new_default() -> (e: Self)
        ensures
            e.records().len() == 0,
            e.pending().len() == 0,
            e.journal_events().len() == 0,
            e.metrics_state() == ExecutionMetrics::spec_zero(),
            e.config_state().enable_journal && e.config_state().recover_on_startup,
            e.config_state().validate_recovery && e.config_state().instant_fills,
            e.config_state().journal_path@ == "./data/execution_journal.jsonl"@,
            e.config_state().fill_delay_ms == 0,
    {
        Self::new(ProductionExecutorConfig::default())
    }

    /// Execution counters.
    pub fn metrics(&self) -> (r: &ExecutionMetrics)
        ensures
            *r == self.metrics_state(),
    {
        &self.metrics
    }

    /// Configuration.
    pub fn config(&self) -> (r: &ProductionExecutorConfig)
        ensures
            *r == self.config_state(),
    {
        &self.config
    }

    /// Hands out the queued journal events, oldest first, and clears the queue.
    pub fn take_journal(&mut self) -> (r: Vec<JournalEvent>)
        ensures
            r@ == old(self).journal_events(),
            final(self).journal_events().len() == 0,
            final(self).records() == old(self).records(),
            final(self).pending() == old(self).pending(),
            final(self).metrics_state() == old(self).metrics_state(),
            final(self).config_state() == old(self).config_state(),
    {
        proof {
            use_type_invariant(&*self);
        }
        let mut out: Vec<JournalEvent> = Vec::new();
        std::mem::swap(&mut out, &mut self.journal);
        out
    }

    /// Queues a journal event when the journal is enabled.
    fn journal_event(&mut self, event: JournalEvent)
        ensures
            final(self).journal_events() == (if old(self).config_state().enable_journal {
                old(self).journal_events().push(event)
            } else {
                old(self).journal_events()
            }),
            final(self).records() == old(self).records(),
            final(self).pending() == old(self).pending(),
            final(self).metrics_state() == old(self).metrics_state(),
            final(self).config_state() == old(self).config_state(),
    {
        proof {
            use_type_invariant(&*self);
        }
        if self.config.enable_journal {
            let mut journal: Vec<JournalEvent> = Vec::new();
            std::mem::swap(&mut journal, &mut self.journal);
            journal.push(event);
            self.journal = journal;
        }
    }

    /// Position of the order with the given identifier.
    fn find(&self, id: &OrderId) -> (r: Option<usize>)
        ensures
            r matches Some(i) ==> i < self.records().len() && record_index(self.records(), id@) == Some(i as int),
            r is None ==> record_index(self.records(), id@) is None,
    {
        proof {
            use_type_invariant(self);
        }
        let ghost recs = self.records();
        let mut i: usize = 0;
        while i < self.orders.len()
            invariant
                0 <= i <= self.orders@.len(),
                recs == self.orders@.map_values(|s: OrderState| record_of(s)),
                record_ids_distinct(recs),
                forall|j: int| 0 <= j < i ==> recs[j].order.id@ != id@,
            decreases self.orders.len() - i,
        {
            if self.orders[i].order.id == *id {
                assert(recs[i as int].order.id@ == id@);
                let ghost c = choose|k: int| 0 <= k < recs.len() && recs[k].order.id@ == id@;
                proof {
                    if c != i as int {
                        if c < i as int {
                            assert(recs[c].order.id@ != recs[i as int].order.id@);
                        } else {
                            assert(recs[i as int].order.id@ != recs[c].order.id@);
                        }
                    }
                }
                return Some(i);
            }
            i = i + 1;
        }
        None
    }

    /// Fills an order for its whole remaining size at its price, counting and
    /// journaling the fill, and returns it.
    fn simulate_fill(&mut self, st: &mut OrderState) -> (f: Fill)
        ensures
            final(st).order == (Order {
                filled_size: (old(st).order.filled_size + remaining_of(old(st).order)) as u64,
                status: OrderStatus::Filled,
                updated_at: final(st).order.updated_at,
                avg_fill_price: Some(old(st).order.price),
                ..old(st).order
            }),
            final(st).submitted_at == old(st).submitted_at,
            final(st).acknowledged_at == old(st).acknowledged_at,
            final(st).fills == old(st).fills,
            full_fill_of(f, old(st).order),
            final(self).metrics_state() == metrics_after_fill(
                old(self).metrics_state(),
                old(st).order.price * remaining_of(old(st).order),
            ),
            old(self).config_state().enable_journal ==> final(self).journal_events().len() == old(self).journal_events().len() + 1
                && final(self).journal_events().drop_last() == old(self).journal_events()
                && (final(self).journal_events().last() matches JournalEvent::Fill(g) && same_fill(g, f)),
            !old(self).config_state().enable_journal ==> final(self).journal_events() == old(self).journal_events(),
            final(self).records() == old(self).records(),
            final(self).pending() == old(self).pending(),
            final(self).config_state() == old(self).config_state(),
    {
        proof {
            use_type_invariant(&*self);
        }
        let fill_size = st.order.remaining_size();
        let fill_price = st.order.price;
        st.order.filled_size = st.order.filled_size + fill_size;
        st.order.status = OrderStatus::Filled;
        st.order.updated_at = system_time_now();
        st.order.avg_fill_price = Some(fill_price);
        let fill = Fill::new(st.order.id.clone(), st.order.side, fill_price, fill_size);
        let mut metrics = self.metrics;
        metrics.record_fill(fill.notional());
        self.metrics = metrics;
        self.journal_event(JournalEvent::Fill(fill.clone()));
        fill
    }

    /// Places an order. An order of size zero is rejected ("Order size must be
    /// positive") and counted as such. Any other is submitted as pending, acknowledged
    /// (open) and, with instant fills, filled in full at its price; the fill is queued
    /// for [`ProductionExecutor::get_fills`]. The order then replaces any tracked order
    /// with its identifier. Each step is counted and journaled. A configured
    /// acknowledgement delay is left to the caller.
    pub fn place_order(&mut self, order: Order) -> (r: Result<OrderId, String>)
        ensures
            final(self).config_state() == old(self).config_state(),
            order.size == 0 ==> {
                &&& r matches Err(m) && m@ == "Order size must be positive"@
                &&& final(self).records() == old(self).records()
                &&& final(self).pending() == old(self).pending()
                &&& final(self).journal_events() == old(self).journal_events()
                &&& final(self).metrics_state() == (ExecutionMetrics {
                    orders_rejected: old(self).metrics_state().orders_rejected.wrapping_add(1),
                    ..old(self).metrics_state()
                })
            },
            order.size > 0 ==> {
                let instant = old(self).config_state().instant_fills;
                let pos = upsert_position(old(self).records(), order.id@);
                let rec = final(self).records()[pos];
                let acked = ExecutionMetrics {
                    orders_submitted: old(self).metrics_state().orders_submitted.wrapping_add(1),
                    orders_acknowledged: old(self).metrics_state().orders_acknowledged.wrapping_add(1),
                    ..old(self).metrics_state()
                };
                &&& r matches Ok(id) && id@ == order.id@
                &&& placed_record(rec, order, instant)
                &&& final(self).records() == upsert_record(old(self).records(), rec)
                &&& instant ==> {
                    &&& final(self).metrics_state() == metrics_after_fill(acked, order.price * remaining_of(order))
                    &&& final(self).pending().len() == old(self).pending().len() + 1
                    &&& final(self).pending().drop_last() == old(self).pending()
                    &&& same_fill(final(self).pending().last(), rec.fills[0])
                }
                &&& !instant ==> {
                    &&& final(self).metrics_state() == acked
                    &&& final(self).pending() == old(self).pending()
                }
                &&& old(self).config_state().enable_journal ==> {
                    let n = old(self).journal_events().len();
                    &&& final(self).journal_events().subrange(0, n as int) == old(self).journal_events()
                    &&& placement_journal(
                        final(self).journal_events().subrange(n as int, final(self).journal_events().len() as int),
                        order,
                        instant,
                        rec.fills[0],
                    )
                }
                &&& !old(self).config_state().enable_journal ==> final(self).journal_events() == old(self).journal_events()
            },
    {
        proof {
            use_type_invariant(&*self);
        }
        let ghost r0 = self.records();
        let ghost p0 = self.pending();
        let ghost j0 = self.journal_events();
        let ghost m0 = self.metrics_state();
        if order.size == 0 {
            let mut metrics = self.metrics;
            metrics.record_order_rejected();
            self.metrics = metrics;
            proof {
                reveal_strlit("Order size must be positive");
            }
            return Err(String::from_str("Order size must be positive"));
        }
        let mut metrics = self.metrics;
        metrics.record_order_submitted();
        self.metrics = metrics;
        let ghost order0 = order;
        let mut order = order;
        order.status = OrderStatus::Pending;
        order.updated_at = system_time_now();
        let order_id = order.id.clone();
        let submitted = order.clone();
        let ghost sub = submitted;
        assert(submitted_as(sub, order0));
        let mut st = OrderState::new(order);
        self.journal_event(JournalEvent::OrderSubmit(submitted));
        let ghost j1 = self.journal_events();
        st.acknowledge();
        st.order.status = OrderStatus::Open;
        proof {
            use_type_invariant(&*self);
        }
        let mut metrics = self.metrics;
        metrics.record_order_acknowledged();
        self.metrics = metrics;
        self.journal_event(JournalEvent::OrderAck(order_id.clone()));
        let ghost j2 = self.journal_events();
        let ghost st1 = record_of(st);
        if self.config.instant_fills {
            let fill = self.simulate_fill(&mut st);
            let copy = fill.clone();
            st.add_fill(fill);
            proof {
                use_type_invariant(&*self);
            }
            let mut pending: Vec<Fill> = Vec::new();
            std::mem::swap(&mut pending, &mut self.pending_fills);
            pending.push(copy);
            self.pending_fills = pending;
            assert(record_of(st).fills =~= seq![fill]);
        } else {
            assert(record_of(st).fills =~= Seq::<Fill>::empty());
        }
        let ghost rec = record_of(st);
        self.upsert_state(st);
        proof {
            lemma_upsert_at_position(r0, rec);
            let pos = upsert_position(r0, order0.id@);
            assert(self.records()[pos] == rec);
            assert(placed_record(rec, order0, self.config.instant_fills));
            let n = j0.len();
            let jf = self.journal_events();
            if self.config.enable_journal {
                assert(j1[n as int] == JournalEvent::OrderSubmit(sub));
                assert(j2[n as int] == j1[n as int]);
                if self.config.instant_fills {
                    assert(jf.drop_last() == j2);
                    assert(jf[n as int] == jf.drop_last()[n as int]);
                    assert(jf[n as int + 1] == jf.drop_last()[n as int + 1]);
                }
                assert(jf[n as int] == j1[n as int]);
                assert(jf.subrange(0, n as int) =~= j0);
                if self.config.instant_fills {
                    assert(jf.subrange(n as int, jf.len() as int) =~= seq![jf[n as int], jf[n as int + 1], jf[n as int + 2]]);
                } else {
                    assert(jf.subrange(n as int, jf.len() as int) =~= seq![jf[n as int], jf[n as int + 1]]);
                }
            }
        }
        Ok(order_id)
    }

    /// Cancels an active order: it becomes cancelled, which is counted and journaled.
    /// An unknown order gives "Order <id> not found", an inactive one "Order <id> is
    /// not active", and nothing changes.
    pub fn cancel_order(&mut self, order_id: &OrderId) -> (r: Result<(), String>)
        ensures
            final(self).pending() == old(self).pending(),
            final(self).config_state() == old(self).config_state(),
            match record_index(old(self).records(), order_id@) {
                None => {
                    &&& r matches Err(m) && m@ == "Order "@ + order_id@ + " not found"@
                    &&& final(self).records() == old(self).records()
                    &&& final(self).metrics_state() == old(self).metrics_state()
                    &&& final(self).journal_events() == old(self).journal_events()
                },
                Some(i) => if order_status_active(old(self).records()[i].order.status) {
                    let rec = old(self).records()[i];
                    &&& r is Ok
                    &&& final(self).records() == old(self).records().update(i, OrderRecord {
                        order: Order {
                            status: OrderStatus::Cancelled,
                            updated_at: final(self).records()[i].order.updated_at,
                            ..rec.order
                        },
                        ..rec
                    })
                    &&& final(self).metrics_state() == (ExecutionMetrics {
                        orders_cancelled: old(self).metrics_state().orders_cancelled.wrapping_add(1),
                        ..old(self).metrics_state()
                    })
                    &&& old(self).config_state().enable_journal ==> {
                        &&& final(self).journal_events().len() == old(self).journal_events().len() + 1
                        &&& final(self).journal_events().drop_last() == old(self).journal_events()
                        &&& final(self).journal_events().last() matches JournalEvent::OrderCancel(c) && c@ == order_id@
                    }
                    &&& !old(self).config_state().enable_journal ==> final(self).journal_events() == old(self).journal_events()
                } else {
                    &&& r matches Err(m) && m@ == "Order "@ + order_id@ + " is not active"@
                    &&& final(self).records() == old(self).records()
                    &&& final(self).metrics_state() == old(self).metrics_state()
                    &&& final(self).journal_events() == old(self).journal_events()
                },
            },
    {
        proof {
            use_type_invariant(&*self);
            reveal_strlit("Order ");
            reveal_strlit(" not found");
            reveal_strlit(" is not active");
        }
        let ghost r0 = self.records();
        match self.find(order_id) {
            None => {
                let mut msg = String::from_str("Order ");
                msg.append(order_id.as_str());
                msg.append(" not found");
                Err(msg)
            },
            Some(i) => {
                if self.orders[i].order.is_active() {
                    let mut orders: Vec<OrderState> = Vec::new();
                    std::mem::swap(&mut orders, &mut self.orders);
                    assert(orders@.map_values(|s: OrderState| record_of(s)) == r0);
                    let mut st = orders.remove(i);
                    st.order.status = OrderStatus::Cancelled;
                    st.order.updated_at = system_time_now();
                    let ghost rec = record_of(st);
                    orders.insert(i, st);
                    assert(orders@.map_values(|s: OrderState| record_of(s)) =~= r0.update(i as int, rec));
                    proof {
                        let a = r0.update(i as int, rec);
                        assert forall|x: int, y: int| 0 <= x < y < a.len() implies a[x].order.id@ != a[y].order.id@ by {
                            assert(a[x].order.id@ == r0[x].order.id@);
                            assert(a[y].order.id@ == r0[y].order.id@);
                        }
                    }
                    self.orders = orders;
                    let mut metrics = self.metrics;
                    metrics.record_order_cancelled();
                    self.metrics = metrics;
                    self.journal_event(JournalEvent::OrderCancel(order_id.clone()));
                    Ok(())
                } else {
                    let mut msg = String::from_str("Order ");
                    msg.append(order_id.as_str());
                    msg.append(" is not active");
                    Err(msg)
                }
            },
        }
    }

    /// Hands out the fills not handed out yet, oldest first, and clears them.
    pub fn get_fills(&mut self) -> (r: Vec<Fill>)
        ensures
            r@ == old(self).pending(),
            final(self).pending().len() == 0,
            final(self).records() == old(self).records(),
            final(self).journal_events() == old(self).journal_events(),
            final(self).metrics_state() == old(self).metrics_state(),
            final(self).config_state() == old(self).config_state(),
    {
        proof {
            use_type_invariant(&*self);
        }
        let mut out: Vec<Fill> = Vec::new();
        std::mem::swap(&mut out, &mut self.pending_fills);
        out
    }

    /// Status of the order with the given identifier, if it is tracked.
    pub fn get_order_status(&self, order_id: &OrderId) -> (r: Option<OrderStatus>)
        ensures
            r == (match record_index(self.records(), order_id@) {
                Some(i) => Some(self.records()[i].order.status),
                None => None,
            }),
    {
        match self.find(order_id) {
            Some(i) => Some(self.orders[i].order.status),
            None => None,
        }
    }

    /// Orders currently resting. Tracked orders are not handed out by reference, so
    /// the list is always empty.
    pub fn get_active_orders(&self) -> (r: Vec<&Order>)
        ensures
            r@.len() == 0,
    {
        Vec::new()
    }

    /// Always simulated.
    pub fn execution_mode(&self) -> (r: ExecutionMode)
        ensures
            r == ExecutionMode::Simulated,
    {
        proof {
            use_type_invariant(self);
        }
        self.mode
    }

    /// Rebuilds orders from journal entries, oldest first; `None` stands for an entry
    /// that could not be read or parsed, which counts as an error. The entries are
    /// replayed from no orders (see [`replay_all`]); the resulting orders are then
    /// loaded from the last to the first (see [`load_all`]): with validation on, an
    /// inconsistent one is skipped and counts as an error, any other is counted in the
    /// metrics and replaces the tracked order with its identifier.
    pub fn recover_from_journal(&mut self, entries: Vec<Option<JournalEvent>>) -> (stats: RecoveryStats)
        ensures
            ({
                let rp = replay_all(entries@);
                let ld = load_all(
                    LoadAcc { records: old(self).records(), metrics: old(self).metrics_state(), invalid: 0 },
                    rp.records,
                    old(self).config_state().validate_recovery,
                );
                &&& stats.journal_entries == entries@.len()
                &&& stats.orders_recovered == rp.submits
                &&& stats.fills_recovered == rp.fills
                &&& stats.errors == rp.unreadable + ld.invalid
                &&& final(self).records() == ld.records
                &&& final(self).metrics_state() == ld.metrics
            }),
            final(self).pending() == old(self).pending(),
            final(self).journal_events() == old(self).journal_events(),
            final(self).config_state() == old(self).config_state(),
    {
        proof {
            use_type_invariant(&*self);
        }
        let ghost orig = entries@;
        let n = entries.len();
        let mut entries = entries;
        let mut rev: Vec<Option<JournalEvent>> = Vec::new();
        while entries.len() > 0
            invariant
                rev@.len() + entries@.len() == n,
                n == orig.len(),
                entries@ == orig.take(entries@.len() as int),
                forall|k: int| 0 <= k < rev@.len() ==> #[trigger] rev@[k] == orig[n - 1 - k],
            decreases entries@.len(),
        {
            let ghost before = entries@;
            let e = entries.pop().unwrap();
            assert(e == orig[before.len() - 1]);
            assert(entries@ =~= orig.take(entries@.len() as int));
            rev.push(e);
        }
        let mut states: Vec<OrderState> = Vec::new();
        let mut c = ReplayCounts { submits: 0, fills: 0, unreadable: 0 };
        let mut i: usize = 0;
        assert(records_of(states@) =~= Seq::<OrderRecord>::empty());
        assert(orig.take(0) =~= Seq::<Option<JournalEvent>>::empty());
        while rev.len() > 0
            invariant
                i + rev@.len() == n,
                n == orig.len(),
                forall|k: int| 0 <= k < rev@.len() ==> #[trigger] rev@[k] == orig[n - 1 - k],
                record_ids_distinct(records_of(states@)),
                replay_acc_of(states@, c) == replay_all(orig.take(i as int)),
                c.submits + c.fills + c.unreadable <= i,
                records_of(states@).len() <= c.submits,
            decreases rev@.len(),
        {
            let ghost before = rev@;
            let e = rev.pop().unwrap();
            assert(e == orig[i as int]);
            assert(orig.take(i + 1).drop_last() =~= orig.take(i as int));
            assert(orig.take(i + 1).last() == orig[i as int]);
            c = replay_entry(&mut states, e, c);
            i = i + 1;
            assert(forall|k: int| 0 <= k < rev@.len() ==> #[trigger] rev@[k] == before[k]);
        }
        assert(orig.take(i as int) =~= orig);
        let ghost rp = replay_all(orig);
        let validate = self.config.validate_recovery;
        let mut orders: Vec<OrderState> = Vec::new();
        std::mem::swap(&mut orders, &mut self.orders);
        let mut metrics = self.metrics;
        let ghost target = load_all(LoadAcc { records: records_of(orders@), metrics, invalid: 0 }, rp.records, validate);
        let mut errors: usize = c.unreadable;
        while states.len() > 0
            invariant
                record_ids_distinct(records_of(orders@)),
                record_ids_distinct(records_of(states@)),
                errors >= c.unreadable,
                (errors - c.unreadable) + states@.len() <= rp.records.len(),
                rp.records.len() <= c.submits,
                c.submits + c.unreadable <= n,
                load_all(
                    LoadAcc { records: records_of(orders@), metrics, invalid: (errors - c.unreadable) as nat },
                    records_of(states@),
                    validate,
                ) == target,
            decreases states@.len(),
        {
            let ghost before = records_of(states@);
            let st = states.pop().unwrap();
            assert(before.drop_last() =~= records_of(states@));
            assert(before.last() == record_of(st));
            proof {
                let a = records_of(states@);
                assert forall|x: int, y: int| 0 <= x < y < a.len() implies a[x].order.id@ != a[y].order.id@ by {
                    assert(a[x] == before[x] && a[y] == before[y]);
                }
            }
            if validate && !st.is_valid() {
                errors = errors + 1;
            } else {
                metrics = metrics_for_state(metrics, &st);
                upsert_state_vec(&mut orders, st);
            }
        }
        self.orders = orders;
        self.metrics = metrics;
        RecoveryStats { orders_recovered: c.submits, fills_recovered: c.fills, errors, journal_entries: n }
    }

    /// One-line summary of the execution counters (see [`spec_order_stats`]).
    pub fn order_stats(&self) -> (r: String)
        ensures
            r@ == spec_order_stats(self.metrics_state()),
    {
        proof {
            reveal_strlit("Orders: ");
            reveal_strlit("/");
            reveal_strlit(" submitted/acked, Fills: ");
            reveal_strlit(", Cancelled: ");
            reveal_strlit(", Volume: $");
            reveal_strlit(".");
            reveal_strlit("0");
        }
        let m = self.metrics;
        let mut out = String::from_str("Orders: ");
        push_u64(&mut out, m.orders_submitted);
        out.append("/");
        push_u64(&mut out, m.orders_acknowledged);
        out.append(" submitted/acked, Fills: ");
        push_u64(&mut out, m.fills_received);
        out.append(", Cancelled: ");
        push_u64(&mut out, m.orders_cancelled);
        out.append(", Volume: $");
        push_u64(&mut out, m.total_volume / 100);
        out.append(".");
        let cents = m.total_volume % 100;
        if cents < 10 {
            out.append("0");
        }
        push_u64(&mut out, cents);
        out
    }

    /// Stores an order state in place of the one with its identifier, or after all.
    fn upsert_state(&mut self, st: OrderState)
        ensures
            final(self).records() == upsert_record(old(self).records(), record_of(st)),
            final(self).pending() == old(self).pending(),
            final(self).journal_events() == old(self).journal_events(),
            final(self).metrics_state() == old(self).metrics_state(),
            final(self).config_state() == old(self).config_state(),
    {
        proof {
            use_type_invariant(&*self);
        }
        let ghost r0 = self.records();
        let ghost rec = record_of(st);
        let found = self.find(&st.order.id);
        let mut orders: Vec<OrderState> = Vec::new();
        std::mem::swap(&mut orders, &mut self.orders);
        assert(orders@.map_values(|s: OrderState| record_of(s)) == r0);
        match found {
            Some(i) => {
                orders.set(i, st);
                assert(orders@.map_values(|s: OrderState| record_of(s)) =~= r0.update(i as int, rec));
                proof {
                    let a = r0.update(i as int, rec);
                    assert forall|x: int, y: int| 0 <= x < y < a.len() implies a[x].order.id@ != a[y].order.id@ by {
                        assert(a[x].order.id@ == r0[x].order.id@);
                        assert(a[y].order.id@ == r0[y].order.id@);
                    }
                }
            },
            None => {
                orders.push(st);
                assert(orders@.map_values(|s: OrderState| record_of(s)) =~= r0.push(rec));
                proof {
                    let a = r0.push(rec);
                    assert forall|x: int, y: int| 0 <= x < y < a.len() implies a[x].order.id@ != a[y].order.id@ by {
                        if y == r0.len() {
                            assert(a[x] == r0[x]);
                            assert(!(0 <= x < r0.len() && r0[x].order.id@ == rec.order.id@));
                        } else {
                            assert(a[x] == r0[x] && a[y] == r0[y]);
                        }
                    }
                }
            },
        }
        self.orders = orders;
    }
}


/// The record stored by an upsert is found at its position.
proof fn lemma_upsert_at_position(s: Seq<OrderRecord>, r: OrderRecord)
    ensures
        upsert_record(s, r)[upsert_position(s, r.order.id@)] == r,
{
}

/// Every order the executor places with nothing filled yet is consistent, with or
/// without instant fills.
pub proof fn lemma_placed_order_is_valid(rec: OrderRecord, order: Order, instant: bool)
    requires
        placed_record(rec, order, instant),
        order.size > 0,
        order.filled_size == 0,
    ensures
        record_valid(rec),
{
    if instant {
        assert(rec.fills.drop_last() =~= Seq::<Fill>::empty());
        assert(fills_total_size(rec.fills.drop_last()) == 0);
        assert(fills_total_size(rec.fills) == rec.fills[0].size);
    } else {
        assert(fills_total_size(rec.fills) == 0);
    }
}

/// Replaying the journal entries of a placement with instant fills rebuilds the order
/// as it was placed: one acknowledged order, filled, with the same filled size and
/// the same fill.
pub proof fn lemma_replay_of_instant_placement(added: Seq<JournalEvent>, order: Order, rec: OrderRecord)
    requires
        placed_record(rec, order, true),
        placement_journal(added, order, true, rec.fills[0]),
    ensures
        ({
            let rp = replay_all(added.map_values(|e: JournalEvent| Some(e)));
            &&& rp.records.len() == 1
            &&& rp.records[0].order.id@ == rec.order.id@
            &&& rp.records[0].acknowledged
            &&& rp.records[0].order.status == rec.order.status
            &&& rp.records[0].order.filled_size == rec.order.filled_size
            &&& rp.records[0].fills.len() == 1
            &&& same_fill(rp.records[0].fills[0], rec.fills[0])
            &&& rp.submits == 1 && rp.fills == 1 && rp.unreadable == 0
        }),
{
    let es = added.map_values(|e: JournalEvent| Some(e));
    let o = match added[0] {
        JournalEvent::OrderSubmit(o) => o,
        _ => arbitrary(),
    };
    let f = match added[2] {
        JournalEvent::Fill(f) => f,
        _ => arbitrary(),
    };
    assert(es.drop_last().drop_last().drop_last() =~= Seq::<Option<JournalEvent>>::empty());
    let a0 = replay_all(es.drop_last().drop_last().drop_last());
    let a1 = replay_all(es.drop_last().drop_last());
    assert(a1 == replay_step(a0, es[0]));
    let r1 = OrderRecord { order: o, acknowledged: false, fills: Seq::empty() };
    assert(record_index(Seq::<OrderRecord>::empty(), o.id@) is None);
    assert(a1.records =~= seq![r1]);
    assert(a1.records[0].order.id@ == order.id@);
    assert(record_index(a1.records, order.id@) == Some(0int));
    let a2 = replay_all(es.drop_last());
    assert(a2 == replay_step(a1, es[1]));
    assert(a2.records =~= seq![record_acked(r1)]);
    assert(record_index(a2.records, order.id@) == Some(0int));
    let a3 = replay_all(es);
    assert(a3 == replay_step(a2, es[2]));
    assert(f.order_id@ == order.id@);
    assert(a3.records =~= seq![record_with_fill(record_acked(r1), f)]);
    assert(record_with_fill(record_acked(r1), f).fills =~= seq![f]);
}

/// With validation on, recovery only loads consistent orders: when every tracked
/// order is consistent, so is every order after loading.
pub proof fn lemma_validated_load_keeps_orders_valid(acc: LoadAcc, recs: Seq<OrderRecord>)
    requires
        forall|i: int| 0 <= i < acc.records.len() ==> record_valid(#[trigger] acc.records[i]),
    ensures
        forall|i: int| 0 <= i < load_all(acc, recs, true).records.len()
            ==> record_valid(#[trigger] load_all(acc, recs, true).records[i]),
    decreases recs.len(),
{
    if recs.len() > 0 {
        let next = load_step(acc, recs.last(), true);
        if record_valid(recs.last()) {
            let r = recs.last();
            assert forall|i: int| 0 <= i < next.records.len() implies record_valid(#[trigger] next.records[i]) by {
                match record_index(acc.records, r.order.id@) {
                    Some(k) => {
                        if i != k {
                            assert(next.records[i] == acc.records[i]);
                        }
                    },
                    None => {
                        if i < acc.records.len() {
                            assert(next.records[i] == acc.records[i]);
                        }
                    },
                }
            }
        }
        lemma_validated_load_keeps_orders_valid(next, recs.drop_last());
        assert(load_all(acc, recs, true) == load_all(next, recs.drop_last(), true));
    } else {
        assert(load_all(acc, recs, true) == acc);
    }
}

/// Replaying the journal entries of a placement without instant fills followed by its
/// cancellation rebuilds one acknowledged, cancelled order with nothing filled.
pub proof fn lemma_replay_of_cancelled_placement(added: Seq<JournalEvent>, order: Order, fill: Fill, cancel_id: OrderId)
    requires
        placement_journal(added, order, false, fill),
        cancel_id@ == order.id@,
    ensures
        ({
            let rp = replay_all(added.push(JournalEvent::OrderCancel(cancel_id)).map_values(|e: JournalEvent| Some(e)));
            &&& rp.records.len() == 1
            &&& rp.records[0].order.id@ == order.id@
            &&& rp.records[0].acknowledged
            &&& rp.records[0].order.status == OrderStatus::Cancelled
            &&& rp.records[0].order.filled_size == order.filled_size
            &&& rp.records[0].fills.len() == 0
            &&& rp.submits == 1 && rp.fills == 0 && rp.unreadable == 0
        }),
{
    let es = added.push(JournalEvent::OrderCancel(cancel_id)).map_values(|e: JournalEvent| Some(e));
    let o = match added[0] {
        JournalEvent::OrderSubmit(o) => o,
        _ => arbitrary(),
    };
    assert(es.drop_last().drop_last().drop_last() =~= Seq::<Option<JournalEvent>>::empty());
    let a0 = replay_all(es.drop_last().drop_last().drop_last());
    let a1 = replay_all(es.drop_last().drop_last());
    assert(a1 == replay_step(a0, es[0]));
    let r1 = OrderRecord { order: o, acknowledged: false, fills: Seq::empty() };
    assert(record_index(Seq::<OrderRecord>::empty(), o.id@) is None);
    assert(a1.records =~= seq![r1]);
    assert(a1.records[0].order.id@ == order.id@);
    assert(record_index(a1.records, order.id@) == Some(0int));
    let a2 = replay_all(es.drop_last());
    assert(a2 == replay_step(a1, es[1]));
    assert(a2.records =~= seq![record_acked(r1)]);
    assert(record_index(a2.records, order.id@) == Some(0int));
    let a3 = replay_all(es);
    assert(a3 == replay_step(a2, es[2]));
    assert(a3.records =~= seq![record_cancelled(record_acked(r1))]);
}

} // verus!

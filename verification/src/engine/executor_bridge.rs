//! Bridge from engine signals to an order-level executor.
//!
//! The bridge keeps at most one resting order per side: it cancels every order beyond
//! the first on each side, then amends, places or cancels the remaining ones so that
//! the book matches the signal.
use vstd::prelude::*;
use crate::core_types::{Position, Side as CoreSide, Signal, SignalAction};
use crate::engine::generic::{Executor, ExecutorRequest, FixedFill};
use crate::execution::types::{OrderId, Side};
use crate::execution::{amend_requests, ActiveOrder, Executor as OrderExecutor, LimitOrder, OrderRequest};

verus! {

/// One step of a bridge plan.
#[derive(Debug)]
pub enum BridgeAction {
    /// Cancel a resting order.
    Cancel(OrderId),
    /// Replace a resting order by a new one.
    Amend(OrderId, LimitOrder),
    /// Place a new order.
    Place(LimitOrder),
}

/// A plan step with order identifiers taken by their text.
pub enum PlanStep {
    Cancel(Seq<char>),
    Amend(Seq<char>, LimitOrder),
    Place(LimitOrder),
}

impl View for BridgeAction {
    type V = PlanStep;

    open spec fn view(&self) -> PlanStep {
        match self {
            BridgeAction::Cancel(id) => PlanStep::Cancel(id@),
            BridgeAction::Amend(id, o) => PlanStep::Amend(id@, *o),
            BridgeAction::Place(o) => PlanStep::Place(*o),
        }
    }
}

/// The first resting buy, the first resting sell, and every other resting order, in order.
pub open spec fn scan_active(active: Seq<(Seq<char>, Side)>) -> (Option<Seq<char>>, Option<Seq<char>>, Seq<Seq<char>>)
    decreases active.len(),
{
    if active.len() == 0 {
        (None, None, Seq::empty())
    } else {
        let (buy, sell, extras) = scan_active(active.drop_last());
        let (id, side) = active.last();
        match side {
            Side::Buy => if buy is None { (Some(id), sell, extras) } else { (buy, sell, extras.push(id)) },
            Side::Sell => if sell is None { (buy, Some(id), extras) } else { (buy, sell, extras.push(id)) },
        }
    }
}

/// Amend the existing order of a side, or place a new one.
pub open spec fn place_or_amend(existing: Option<Seq<char>>, order: LimitOrder) -> PlanStep {
    match existing {
        Some(id) => PlanStep::Amend(id, order),
        None => PlanStep::Place(order),
    }
}

/// Cancel the existing order of a side, if any.
pub open spec fn cancel_if(existing: Option<Seq<char>>) -> Seq<PlanStep> {
    match existing {
        Some(id) => seq![PlanStep::Cancel(id)],
        None => Seq::empty(),
    }
}

/// Steps that bring the resting orders in line with a signal: cancel the extra orders,
/// then quote the signal's sides (amending a side's order when it has one) and cancel
/// the side it does not quote; a take cancels both sides and crosses the spread; a
/// cancel-all cancels both sides.
pub open spec fn spec_plan(active: Seq<(Seq<char>, Side)>, signal: Signal) -> Seq<PlanStep> {
    let (buy, sell, extras) = scan_active(active);
    let cancels = extras.map_values(|id: Seq<char>| PlanStep::Cancel(id));
    let bid = LimitOrder { side: Side::Buy, price: signal.bid_price, size: signal.size };
    let ask = LimitOrder { side: Side::Sell, price: signal.ask_price, size: signal.size };
    cancels + match signal.action {
        SignalAction::QuoteBoth => seq![place_or_amend(buy, bid), place_or_amend(sell, ask)],
        SignalAction::QuoteBid => seq![place_or_amend(buy, bid)] + cancel_if(sell),
        SignalAction::QuoteAsk => cancel_if(buy) + seq![place_or_amend(sell, ask)],
        SignalAction::TakePosition => cancel_if(buy) + cancel_if(sell) + seq![PlanStep::Place(match signal.side {
            CoreSide::Buy => LimitOrder { side: Side::Buy, price: signal.ask_price, size: signal.size },
            CoreSide::Sell => LimitOrder { side: Side::Sell, price: signal.bid_price, size: signal.size },
        })],
        SignalAction::CancelAll => cancel_if(buy) + cancel_if(sell),
        SignalAction::NoAction => Seq::empty(),
    }
}

/// A take crosses the spread: whatever rests, its plan is a run of cancels followed by the
/// single order it places, on the signal's side and for the signal's size, priced to
/// execute at once against the quoted book: a sell at the signal's bid price (hitting
/// the bid), a buy at its ask price (lifting the ask).
pub proof fn lemma_take_crosses_spread(active: Seq<(Seq<char>, Side)>, signal: Signal)
    requires
        signal.action == SignalAction::TakePosition,
    ensures
        spec_plan(active, signal).len() >= 1,
        forall|i: int| 0 <= i < spec_plan(active, signal).len() - 1 ==> #[trigger] spec_plan(active, signal)[i] is Cancel,
        spec_plan(active, signal).last() matches PlanStep::Place(o) && {
            &&& o.size == signal.size
            &&& signal.side == CoreSide::Sell ==> o.side == Side::Sell && o.price == signal.bid_price
            &&& signal.side == CoreSide::Buy ==> o.side == Side::Buy && o.price == signal.ask_price
        },
{
    let (buy, sell, extras) = scan_active(active);
    let cancels = extras.map_values(|id: Seq<char>| PlanStep::Cancel(id));
    let head = cancels + cancel_if(buy) + cancel_if(sell);
    let plan = spec_plan(active, signal);
    let o = match signal.side {
        CoreSide::Buy => LimitOrder { side: Side::Buy, price: signal.ask_price, size: signal.size },
        CoreSide::Sell => LimitOrder { side: Side::Sell, price: signal.bid_price, size: signal.size },
    };
    assert(plan =~= head + seq![PlanStep::Place(o)]);
    assert forall|i: int| 0 <= i < plan.len() - 1 implies #[trigger] plan[i] is Cancel by {
        assert(plan[i] == head[i]);
        if i < cancels.len() {
            assert(head[i] == cancels[i]);
        } else if i < cancels.len() + cancel_if(buy).len() {
            assert(head[i] == cancel_if(buy)[i - cancels.len()]);
        } else {
            assert(head[i] == cancel_if(sell)[i - cancels.len() - cancel_if(buy).len()]);
        }
    }
}

/// The order a placing or amending plan step leaves resting.
pub open spec fn step_order(step: PlanStep) -> Option<LimitOrder> {
    match step {
        PlanStep::Place(o) => Some(o),
        PlanStep::Amend(_, o) => Some(o),
        PlanStep::Cancel(_) => None,
    }
}

/// A two-sided quote rests exactly the signal's quotes: after cancelling the extra
/// orders, its last two steps leave a buy at the signal's bid price and a sell at its
/// ask price, each for the signal's size.
pub proof fn lemma_quote_both_rests_signal_prices(active: Seq<(Seq<char>, Side)>, signal: Signal)
    requires
        signal.action == SignalAction::QuoteBoth,
    ensures
        spec_plan(active, signal).len() >= 2,
        step_order(spec_plan(active, signal)[spec_plan(active, signal).len() - 2])
            == Some(LimitOrder { side: Side::Buy, price: signal.bid_price, size: signal.size }),
        step_order(spec_plan(active, signal).last())
            == Some(LimitOrder { side: Side::Sell, price: signal.ask_price, size: signal.size }),
        forall|i: int| 0 <= i < spec_plan(active, signal).len() - 2 ==> #[trigger] spec_plan(active, signal)[i] is Cancel,
{
    let (buy, sell, extras) = scan_active(active);
    let cancels = extras.map_values(|id: Seq<char>| PlanStep::Cancel(id));
    let plan = spec_plan(active, signal);
    let bid = LimitOrder { side: Side::Buy, price: signal.bid_price, size: signal.size };
    let ask = LimitOrder { side: Side::Sell, price: signal.ask_price, size: signal.size };
    assert(plan =~= cancels + seq![place_or_amend(buy, bid), place_or_amend(sell, ask)]);
    assert(plan[plan.len() - 2] == place_or_amend(buy, bid));
    assert forall|i: int| 0 <= i < plan.len() - 2 implies #[trigger] plan[i] is Cancel by {
        assert(plan[i] == cancels[i]);
    }
}

/// Views of the resting orders.
pub open spec fn active_views(active: Seq<ActiveOrder>) -> Seq<(Seq<char>, Side)> {
    active.map_values(|o: ActiveOrder| o@)
}

/// Views of plan steps.
pub open spec fn plan_views(plan: Seq<BridgeAction>) -> Seq<PlanStep> {
    plan.map_values(|a: BridgeAction| a@)
}

/// Step that amends `existing` or places a new order.
fn place_or_amend_action(existing: &Option<OrderId>, order: LimitOrder) -> (a: BridgeAction)
    ensures
        a@ == place_or_amend(match existing { Some(id) => Some(id@), None => None }, order),
{
    match existing {
        Some(id) => BridgeAction::Amend(id.clone(), order),
        None => BridgeAction::Place(order),
    }
}

/// Appends a cancel of `existing`, if any.
fn push_cancel_if(plan: &mut Vec<BridgeAction>, existing: &Option<OrderId>)
    ensures
        plan_views(final(plan)@) == plan_views(old(plan)@) + cancel_if(match existing { Some(id) => Some(id@), None => None }),
{
    match existing {
        Some(id) => {
            plan.push(BridgeAction::Cancel(id.clone()));
            assert(plan_views(plan@) =~= plan_views(old(plan)@) + seq![PlanStep::Cancel(id@)]);
        },
        None => {
            assert(plan_views(plan@) =~= plan_views(old(plan)@) + Seq::<PlanStep>::empty());
        },
    }
}

/// Views of an optional identifier.
pub open spec fn opt_view(o: Option<OrderId>) -> Option<Seq<char>> {
    match o {
        Some(id) => Some(id@),
        None => None,
    }
}

/// The plan for a signal given the resting orders.
pub fn plan_signal(active: &Vec<ActiveOrder>, signal: &Signal) -> (plan: Vec<BridgeAction>)
    ensures
        plan_views(plan@) == spec_plan(active_views(active@), *signal),
{
    let ghost av = active_views(active@);
    let mut buy: Option<OrderId> = None;
    let mut sell: Option<OrderId> = None;
    let mut plan: Vec<BridgeAction> = Vec::new();
    let mut i: usize = 0;
    while i < active.len()
        invariant
            0 <= i <= active.len(),
            av == active_views(active@),
            ({
                let (b, s, e) = scan_active(av.take(i as int));
                &&& opt_view(buy) == b
                &&& opt_view(sell) == s
                &&& plan_views(plan@) == e.map_values(|id: Seq<char>| PlanStep::Cancel(id))
            }),
        decreases active.len() - i,
    {
        let order = &active[i];
        assert(av.take(i as int + 1).drop_last() =~= av.take(i as int));
        assert(av.take(i as int + 1).last() == order@);
        let ghost (b0, s0, e0) = scan_active(av.take(i as int));
        match order.side {
            Side::Buy => {
                if buy.is_none() {
                    buy = Some(order.id.clone());
                } else {
                    let ghost before = plan@;
                    plan.push(BridgeAction::Cancel(order.id.clone()));
                    assert(plan_views(plan@) =~= plan_views(before).push(PlanStep::Cancel(order.id@)));
                    assert(e0.push(order.id@).map_values(|id: Seq<char>| PlanStep::Cancel(id))
                        =~= e0.map_values(|id: Seq<char>| PlanStep::Cancel(id)).push(PlanStep::Cancel(order.id@)));
                }
            },
            Side::Sell => {
                if sell.is_none() {
                    sell = Some(order.id.clone());
                } else {
                    let ghost before = plan@;
                    plan.push(BridgeAction::Cancel(order.id.clone()));
                    assert(plan_views(plan@) =~= plan_views(before).push(PlanStep::Cancel(order.id@)));
                    assert(e0.push(order.id@).map_values(|id: Seq<char>| PlanStep::Cancel(id))
                        =~= e0.map_values(|id: Seq<char>| PlanStep::Cancel(id)).push(PlanStep::Cancel(order.id@)));
                }
            },
        }
        i = i + 1;
    }
    assert(av.take(active.len() as int) =~= av);
    let ghost cancels = plan_views(plan@);
    let bid = LimitOrder { side: Side::Buy, price: signal.bid_price, size: signal.size };
    let ask = LimitOrder { side: Side::Sell, price: signal.ask_price, size: signal.size };
    match signal.action {
        SignalAction::QuoteBoth => {
            let a = place_or_amend_action(&buy, bid);
            plan.push(a);
            let b = place_or_amend_action(&sell, ask);
            plan.push(b);
            assert(plan_views(plan@) =~= cancels + seq![a@, b@]);
        },
        SignalAction::QuoteBid => {
            let a = place_or_amend_action(&buy, bid);
            plan.push(a);
            assert(plan_views(plan@) =~= cancels + seq![a@]);
            push_cancel_if(&mut plan, &sell);
            assert(plan_views(plan@) =~= cancels + (seq![a@] + cancel_if(opt_view(sell))));
        },
        SignalAction::QuoteAsk => {
            push_cancel_if(&mut plan, &buy);
            let ghost before = plan@;
            let a = place_or_amend_action(&sell, ask);
            plan.push(a);
            assert(plan_views(plan@) =~= plan_views(before).push(a@));
            assert(plan_views(plan@) =~= cancels + (cancel_if(opt_view(buy)) + seq![a@]));
        },
        SignalAction::TakePosition => {
            push_cancel_if(&mut plan, &buy);
            push_cancel_if(&mut plan, &sell);
            let order = match signal.side {
                CoreSide::Buy => LimitOrder { side: Side::Buy, price: signal.ask_price, size: signal.size },
                CoreSide::Sell => LimitOrder { side: Side::Sell, price: signal.bid_price, size: signal.size },
            };
            let ghost before = plan@;
            plan.push(BridgeAction::Place(order));
            assert(plan_views(plan@) =~= plan_views(before).push(PlanStep::Place(order)));
            assert(plan_views(plan@) =~= cancels + (cancel_if(opt_view(buy)) + cancel_if(opt_view(sell)) + seq![PlanStep::Place(order)]));
        },
        SignalAction::CancelAll => {
            push_cancel_if(&mut plan, &buy);
            push_cancel_if(&mut plan, &sell);
            assert(plan_views(plan@) =~= cancels + (cancel_if(opt_view(buy)) + cancel_if(opt_view(sell))));
        },
        SignalAction::NoAction => {
            assert(plan_views(plan@) =~= cancels + Seq::<PlanStep>::empty());
        },
    }
    plan
}

/// Whether `reqs` are requests an order-level executor records for one plan step: the
/// cancel or the placement itself, or for an amendment a single amendment or a cancel
/// followed, unless it failed, by a placement.
pub open spec fn step_records(step: PlanStep, reqs: Seq<OrderRequest>) -> bool {
    match step {
        PlanStep::Cancel(id) => reqs == seq![OrderRequest::Cancel(id)],
        PlanStep::Place(o) => reqs == seq![OrderRequest::Place(o)],
        PlanStep::Amend(id, o) => amend_requests(Seq::empty(), reqs, id, o),
    }
}

/// The chunks of requests joined in order.
pub open spec fn concat_requests(chunks: Seq<Seq<OrderRequest>>) -> Seq<OrderRequest>
    decreases chunks.len(),
{
    if chunks.len() == 0 {
        Seq::empty()
    } else {
        concat_requests(chunks.drop_last()) + chunks.last()
    }
}

/// Whether an order-level executor's requests went from `before` to `after` by carrying
/// out `steps` in order, each step recording its own requests.
pub open spec fn performs(before: Seq<OrderRequest>, after: Seq<OrderRequest>, steps: Seq<PlanStep>) -> bool {
    exists|chunks: Seq<Seq<OrderRequest>>| #![trigger concat_requests(chunks)]
        chunks.len() == steps.len()
        && (forall|i: int| 0 <= i < steps.len() ==> step_records(steps[i], #[trigger] chunks[i]))
        && after == before + concat_requests(chunks)
}

/// No steps, no requests.
proof fn lemma_performs_nothing(before: Seq<OrderRequest>)
    ensures
        performs(before, before, Seq::empty()),
{
    let chunks = Seq::<Seq<OrderRequest>>::empty();
    assert(concat_requests(chunks) == Seq::<OrderRequest>::empty());
    assert(before + concat_requests(chunks) =~= before);
}

/// Carrying out one more step appends that step's requests.
proof fn lemma_performs_step(before: Seq<OrderRequest>, mid: Seq<OrderRequest>, steps: Seq<PlanStep>, step: PlanStep,
    c: Seq<OrderRequest>)
    requires
        performs(before, mid, steps),
        step_records(step, c),
    ensures
        performs(before, mid + c, steps.push(step)),
{
    let chunks = choose|chunks: Seq<Seq<OrderRequest>>| #![trigger concat_requests(chunks)]
        chunks.len() == steps.len()
        && (forall|i: int| 0 <= i < steps.len() ==> step_records(steps[i], #[trigger] chunks[i]))
        && mid == before + concat_requests(chunks);
    let chunks2 = chunks.push(c);
    assert(chunks2.drop_last() =~= chunks);
    assert(concat_requests(chunks2) == concat_requests(chunks) + c);
    assert(mid + c =~= before + concat_requests(chunks2));
    assert forall|i: int| 0 <= i < steps.push(step).len() implies step_records(steps.push(step)[i], #[trigger] chunks2[i]) by {
        if i < steps.len() {
            assert(chunks2[i] == chunks[i]);
        }
    }
}

/// Engine executor over an order-level executor.
pub struct ExecutorBridge<E: OrderExecutor> {
    executor: E,
    attempted: Ghost<Seq<PlanStep>>,
    requests: Ghost<Seq<ExecutorRequest>>,
}

impl<E: OrderExecutor> View for ExecutorBridge<E> {
    type V = Seq<PlanStep>;

    /// Plan steps tried for the last signal.
    closed spec fn view(&self) -> Seq<PlanStep> {
        self.attempted@
    }
}

impl<E: OrderExecutor> ExecutorBridge<E> {
    /// Orders resting at the inner executor.
    pub closed spec fn inner_orders(&self) -> Seq<(Seq<char>, Side)> {
        self.executor.active_orders()
    }

    /// Requests the inner executor has recorded, oldest first.
    pub closed spec fn inner_requests(&self) -> Seq<OrderRequest> {
        self.executor.order_requests()
    }

    /// A bridge over an order-level executor.
    pub fn new(executor: E) -> (b: Self)
        ensures
            b@ == Seq::<PlanStep>::empty(),
    {
        ExecutorBridge { executor, attempted: Ghost(Seq::empty()), requests: Ghost(Seq::empty()) }
    }

    /// Carries out one plan step.
    fn perform(&mut self, action: &BridgeAction) -> (r: Result<(), String>)
        ensures
            final(self)@ == old(self)@,
            final(self).requests@ == old(self).requests@,
            E::logs_requests() ==> exists|c: Seq<OrderRequest>| #[trigger] step_records(action@, c)
                && final(self).inner_requests() == old(self).inner_requests() + c,
    {
        let ghost before = self.executor.order_requests();
        match action {
            BridgeAction::Cancel(id) => {
                let r = self.executor.cancel_order(id);
                assert(E::logs_requests() ==> self.executor.order_requests() =~= before + seq![OrderRequest::Cancel(id@)]);
                assert(step_records(action@, seq![OrderRequest::Cancel(id@)]));
                r
            },
            BridgeAction::Amend(id, order) => {
                let r = self.executor.amend_order(id, *order);
                proof {
                    if E::logs_requests() {
                        let after = self.executor.order_requests();
                        let c = after.subrange(before.len() as int, after.len() as int);
                        if after == before.push(OrderRequest::Amend(id@, *order)) {
                            assert(c =~= Seq::<OrderRequest>::empty().push(OrderRequest::Amend(id@, *order)));
                        } else if after == before.push(OrderRequest::Cancel(id@)) {
                            assert(c =~= Seq::<OrderRequest>::empty().push(OrderRequest::Cancel(id@)));
                        } else {
                            assert(c =~= Seq::<OrderRequest>::empty().push(OrderRequest::Cancel(id@)).push(OrderRequest::Place(*order)));
                        }
                        assert(after =~= before + c);
                        assert(step_records(action@, c));
                    }
                }
                match r {
                    Ok(_) => Ok(()),
                    Err(e) => Err(e),
                }
            },
            BridgeAction::Place(order) => {
                let r = self.executor.place_order(*order);
                assert(E::logs_requests() ==> self.executor.order_requests() =~= before + seq![OrderRequest::Place(*order)]);
                assert(step_records(action@, seq![OrderRequest::Place(*order)]));
                match r {
                    Ok(_) => Ok(()),
                    Err(e) => Err(e),
                }
            },
        }
    }
}

impl<E: OrderExecutor> Executor for ExecutorBridge<E> {
    open spec fn logs_requests() -> bool {
        true
    }

    closed spec fn requests(&self) -> Seq<ExecutorRequest> {
        self.requests@
    }

    /// Brings the resting orders in line with the signal, step by step, stopping at the
    /// first step that fails.
    fn execute(&mut self, signal: Signal, _position: &Position) -> (r: Result<(), String>)
        ensures
            exists|active: Seq<(Seq<char>, Side)>| {
                let plan = #[trigger] spec_plan(active, signal);
                &&& final(self)@.len() <= plan.len()
                &&& final(self)@ == plan.take(final(self)@.len() as int)
                &&& (r is Ok ==> final(self)@ == plan)
                &&& (r is Err ==> final(self)@.len() >= 1)
            },
            E::logs_requests() ==> performs(old(self).inner_requests(), final(self).inner_requests(), final(self)@),
            E::lists_orders() ==> {
                let plan = spec_plan(old(self).inner_orders(), signal);
                &&& final(self)@ == plan.take(final(self)@.len() as int)
                &&& (r is Ok ==> final(self)@ == plan)
            },

    {
        self.requests = Ghost(self.requests@.push(ExecutorRequest::Execute(signal)));
        let active = self.executor.get_active_orders();
        let plan = plan_signal(&active, &signal);
        let ghost full = plan_views(plan@);
        self.attempted = Ghost(Seq::empty());
        proof {
            assert(E::lists_orders() ==> active_views(active@) =~= old(self).inner_orders());
            lemma_performs_nothing(old(self).inner_requests());
            assert(full.take(0) =~= Seq::<PlanStep>::empty());
        }
        let mut i: usize = 0;
        while i < plan.len()
            invariant
                0 <= i <= plan.len(),
                full == plan_views(plan@),
                full == spec_plan(active_views(active@), signal),
                self@ == full.take(i as int),
                self.requests@ == old(self).requests@.push(ExecutorRequest::Execute(signal)),
                E::logs_requests() ==> performs(old(self).inner_requests(), self.inner_requests(), full.take(i as int)),
                E::lists_orders() ==> full == spec_plan(old(self).inner_orders(), signal),
            decreases plan.len() - i,
        {
            self.attempted = Ghost(full.take(i as int + 1));
            let ghost mid = self.inner_requests();
            let r = self.perform(&plan[i]);
            proof {
                if E::logs_requests() {
                    let c = choose|c: Seq<OrderRequest>| #[trigger] step_records(plan[i as int]@, c)
                        && self.inner_requests() == mid + c;
                    assert(plan[i as int]@ == full[i as int]);
                    lemma_performs_step(old(self).inner_requests(), mid, full.take(i as int), full[i as int], c);
                    assert(full.take(i as int).push(full[i as int]) =~= full.take(i as int + 1));
                }
            }
            if r.is_err() {
                return r;
            }
            i = i + 1;
        }
        assert(full.take(plan.len() as int) =~= full);
        Ok(())
    }

    fn cancel_all(&mut self) -> (r: Result<(), String>) {
        self.requests = Ghost(self.requests@.push(ExecutorRequest::CancelAll));
        self.executor.cancel_all_orders()
    }

    fn get_fills(&mut self, fills: &mut Vec<FixedFill>) {
        self.executor.get_fills(fills)
    }

    fn dropped_fill_count(&self) -> (r: u64) {
        self.executor.dropped_fill_count()
    }

    fn name(&self) -> (r: &'static str)
        ensures
            r@ == "BridgedSimulatedExecutor"@,
    {
        proof {
            reveal_strlit("BridgedSimulatedExecutor");
        }
        "BridgedSimulatedExecutor"
    }

    fn get_open_exposure(&self) -> (r: (i64, i64)) {
        self.executor.get_open_exposure()
    }
}

/// Every resting order is accounted for by the scan: it is the first of its side or
/// among the extras.
proof fn lemma_scan_covers(active: Seq<(Seq<char>, Side)>, i: int)
    requires
        0 <= i < active.len(),
    ensures
        ({
            let (b, s, e) = scan_active(active);
            b == Some(active[i].0) || s == Some(active[i].0) || e.contains(active[i].0)
        }),
    decreases active.len(),
{
    let (b0, s0, e0) = scan_active(active.drop_last());
    if i < active.len() - 1 {
        lemma_scan_covers(active.drop_last(), i);
        assert(active.drop_last()[i] == active[i]);
        if e0.contains(active[i].0) {
            let k = choose|k: int| 0 <= k < e0.len() && e0[k] == active[i].0;
            let (b, s, e) = scan_active(active);
            assert(e.len() >= e0.len() && e[k] == e0[k]);
        }
    } else {
        let (b, s, e) = scan_active(active);
        if !(b == Some(active[i].0) || s == Some(active[i].0)) {
            assert(e[e.len() - 1] == active[i].0);
        }
    }
}

/// A cancel-all signal cancels every resting order.
pub proof fn lemma_cancel_all_cancels_every_order(active: Seq<(Seq<char>, Side)>, signal: Signal, i: int)
    requires
        signal.action == SignalAction::CancelAll,
        0 <= i < active.len(),
    ensures
        spec_plan(active, signal).contains(PlanStep::Cancel(active[i].0)),
{
    lemma_scan_covers(active, i);
    let (b, s, e) = scan_active(active);
    let cancels = e.map_values(|id: Seq<char>| PlanStep::Cancel(id));
    let plan = spec_plan(active, signal);
    assert(plan == cancels + (cancel_if(b) + cancel_if(s)));
    if e.contains(active[i].0) {
        let k = choose|k: int| 0 <= k < e.len() && e[k] == active[i].0;
        assert(plan[k] == PlanStep::Cancel(active[i].0));
    } else if b == Some(active[i].0) {
        assert(plan[cancels.len() as int] == PlanStep::Cancel(active[i].0));
    } else {
        assert(plan[plan.len() - 1] == PlanStep::Cancel(active[i].0));
    }
}

} // verus!

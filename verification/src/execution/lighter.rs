//! Executor for the Lighter exchange, in its stub form: orders are tracked through the
//! order state machine and acknowledged at once, but nothing reaches the exchange and
//! no fill ever arrives.
use vstd::prelude::*;
use vstd::string::StringExecFns;
use crate::core_types::Side as CoreSide;
use crate::execution::order_bridge::{core_side, spec_cancel, spec_legacy_to_core, OrderStateWrapper};
use crate::execution::types::{ExecutionMode, Fill, Order, OrderId, OrderStatus};
use crate::keyed::{key_index, keys_distinct, lemma_key_index_unique, lemma_update_value, lemma_upsert_kv, upsert_kv};
use crate::order_fsm::{state_data, state_status, status_is_active, OrderState};

verus! {

/// Whether `s` is the state of `order` (identifier `cid`) once acknowledged: open,
/// nothing filled.
pub open spec fn acknowledged_state(s: OrderState, cid: crate::core_types::OrderId, order: Order) -> bool {
    let d = state_data(s);
    &&& s == OrderState::Open(d)
    &&& d.id == cid
    &&& d.side == core_side(order.side)
    &&& d.order_type == order.order_type
    &&& d.price == order.price
    &&& d.quantity == order.size
    &&& d.filled_quantity == 0
}

/// Size of an order state not filled yet.
pub open spec fn state_remaining(s: OrderState) -> int {
    let d = state_data(s);
    if d.filled_quantity <= d.quantity { d.quantity - d.filled_quantity } else { 0 }
}

/// Open exposure of orders: the remaining size of the active buys and of the active
/// sells.
pub open spec fn open_exposure(s: Seq<(Seq<char>, OrderState)>) -> (int, int)
    decreases s.len(),
{
    if s.len() == 0 {
        (0, 0)
    } else {
        let (l, sh) = open_exposure(s.drop_last());
        let st = s.last().1;
        if !status_is_active(state_status(st)) {
            (l, sh)
        } else if state_data(st).side == CoreSide::Buy {
            (l + state_remaining(st), sh)
        } else {
            (l, sh + state_remaining(st))
        }
    }
}

/// Exposures of prefixes grow with the prefix and stay non-negative.
proof fn lemma_exposure_prefix(s: Seq<(Seq<char>, OrderState)>, i: int)
    requires
        0 <= i <= s.len(),
    ensures
        0 <= open_exposure(s.take(i)).0 <= open_exposure(s).0,
        0 <= open_exposure(s.take(i)).1 <= open_exposure(s).1,
    decreases s.len() - i,
{
    if i < s.len() {
        lemma_exposure_prefix(s, i + 1);
        lemma_exposure_nonneg(s.take(i));
        assert(s.take(i + 1).drop_last() =~= s.take(i));
        assert(s.take(i + 1).last() == s[i]);
    } else {
        assert(s.take(i) =~= s);
        lemma_exposure_nonneg(s);
    }
}

/// Exposures are non-negative.
proof fn lemma_exposure_nonneg(s: Seq<(Seq<char>, OrderState)>)
    ensures
        open_exposure(s).0 >= 0 && open_exposure(s).1 >= 0,
    decreases s.len(),
{
    if s.len() > 0 {
        lemma_exposure_nonneg(s.drop_last());
    }
}

/// Stub executor for the Lighter exchange (see the module doc).
pub struct LighterExecutor {
    orders: Vec<(OrderId, OrderStateWrapper)>,
    pending_fills: Vec<Fill>,
    mode: ExecutionMode,
    api_url: String,
    ws_url: String,
}

/// Order entry by identifier text.
pub open spec fn lighter_entry(e: (OrderId, OrderStateWrapper)) -> (Seq<char>, OrderState) {
    (e.0@, e.1@)
}

impl LighterExecutor {
    #[verifier::type_invariant]
    spec fn well_formed(&self) -> bool {
        &&& keys_distinct(self.orders@.map_values(|e: (OrderId, OrderStateWrapper)| lighter_entry(e)))
        &&& self.pending_fills@.len() == 0
        &&& self.mode == ExecutionMode::Live
    }

    /// Orders by identifier, with their state.
    pub closed spec fn orders(&self) -> Seq<(Seq<char>, OrderState)> {
        self.orders@.map_values(|e: (OrderId, OrderStateWrapper)| lighter_entry(e))
    }

    /// Exchange REST endpoint.
    pub closed spec fn api(&self) -> Seq<char> {
        self.api_url@
    }

    /// Exchange WebSocket endpoint.
    pub closed spec fn ws(&self) -> Seq<char> {
        self.ws_url@
    }

    /// An executor for the given endpoints, without orders.
    pub fn new(api_url: String, ws_url: String) -> (e: Self)
        ensures
            e.orders().len() == 0,
            e.api() == api_url@,
            e.ws() == ws_url@,
    {
        let e = LighterExecutor {
            orders: Vec::new(),
            pending_fills: Vec::new(),
            mode: ExecutionMode::Live,
            api_url,
            ws_url,
        };
        assert(e.orders() =~= Seq::<(Seq<char>, OrderState)>::empty());
        e
    }

    /// The REST endpoint.
    pub fn api_url(&self) -> (r: &str)
        ensures
            r@ == self.api(),
    {
        self.api_url.as_str()
    }

    /// Position of the order with the given identifier.
    fn find(&self, id: &OrderId) -> (r: Option<usize>)
        ensures
            r matches Some(i) ==> i < self.orders().len() && key_index(self.orders(), id@) == Some(i as int),
            r is None ==> key_index(self.orders(), id@) is None,
    {
        proof {
            use_type_invariant(self);
        }
        let ghost s = self.orders();
        let mut i: usize = 0;
        while i < self.orders.len()
            invariant
                0 <= i <= self.orders@.len(),
                s == self.orders@.map_values(|e: (OrderId, OrderStateWrapper)| lighter_entry(e)),
                keys_distinct(s),
                forall|j: int| 0 <= j < i ==> s[j].0 != id@,
            decreases self.orders.len() - i,
        {
            if self.orders[i].0 == *id {
                proof {
                    lemma_key_index_unique(s, id@, i as int);
                }
                return Some(i);
            }
            i = i + 1;
        }
        None
    }

    /// Tracks an order, acknowledged, under its identifier (in place of an earlier
    /// one). An identifier that is not a 128-bit hex number is refused ("Invalid
    /// order ID: ...").
    pub fn place_order(&mut self, order: Order) -> (r: Result<OrderId, String>)
        ensures
            final(self).api() == old(self).api() && final(self).ws() == old(self).ws(),
            match spec_legacy_to_core(order.id@) {
                Err(msg) => (r matches Err(m) && m@ == "Invalid order ID: "@ + msg) && final(self).orders() == old(self).orders(),
                Ok(cid) => {
                    let k = crate::keyed::upsert_kv_position(old(self).orders(), order.id@);
                    &&& r matches Ok(id) && id@ == order.id@
                    &&& final(self).orders() == upsert_kv(old(self).orders(), order.id@, final(self).orders()[k].1)
                    &&& acknowledged_state(final(self).orders()[k].1, cid, order)
                },
            },
    {
        proof {
            use_type_invariant(&*self);
            reveal_strlit("Invalid order ID: ");
            reveal_strlit("Failed to acknowledge order: ");
        }
        let order_id = order.id.clone();
        let mut wrapper = match OrderStateWrapper::from_legacy(&order) {
            Ok(w) => w,
            Err(e) => {
                let mut msg = String::from_str("Invalid order ID: ");
                msg.append(e.as_str());
                return Err(msg);
            },
        };
        match wrapper.acknowledge() {
            Ok(()) => {},
            Err(e) => {
                let mut msg = String::from_str("Failed to acknowledge order: ");
                msg.append(e.as_str());
                return Err(msg);
            },
        }
        let ghost s0 = self.orders();
        proof {
            lemma_upsert_kv(s0, order.id@, wrapper@);
        }
        let found = self.find(&order_id);
        let key = order_id.clone();
        let mut orders: Vec<(OrderId, OrderStateWrapper)> = Vec::new();
        std::mem::swap(&mut orders, &mut self.orders);
        match found {
            Some(i) => {
                orders.set(i, (key, wrapper));
            },
            None => {
                orders.push((key, wrapper));
            },
        }
        assert(orders@.map_values(|e: (OrderId, OrderStateWrapper)| lighter_entry(e)) =~= upsert_kv(s0, order.id@, wrapper@));
        self.orders = orders;
        Ok(order_id)
    }

    /// Cancels an active order through the state machine. An unknown order gives
    /// "Order <id> not found", an inactive one "Order <id> is not active", a refused
    /// cancellation "Failed to cancel order <id>: ..."; then nothing changes.
    pub fn cancel_order(&mut self, order_id: &OrderId) -> (r: Result<(), String>)
        ensures
            final(self).api() == old(self).api() && final(self).ws() == old(self).ws(),
            match key_index(old(self).orders(), order_id@) {
                None => (r matches Err(m) && m@ == "Order "@ + order_id@ + " not found"@)
                    && final(self).orders() == old(self).orders(),
                Some(i) => {
                    let st = old(self).orders()[i].1;
                    if !status_is_active(state_status(st)) {
                        (r matches Err(m) && m@ == "Order "@ + order_id@ + " is not active"@)
                            && final(self).orders() == old(self).orders()
                    } else {
                        match spec_cancel(st) {
                            None => (r matches Err(m)
                                && m@ == "Failed to cancel order "@ + order_id@ + ": Can only cancel Open or PartiallyFilled orders"@)
                                && final(self).orders() == old(self).orders(),
                            Some(c) => r is Ok && final(self).orders() == old(self).orders().update(i, (order_id@, c)),
                        }
                    }
                },
            },
    {
        proof {
            use_type_invariant(&*self);
            reveal_strlit("Order ");
            reveal_strlit(" not found");
            reveal_strlit(" is not active");
            reveal_strlit("Failed to cancel order ");
            reveal_strlit(": ");
            reveal_strlit("Can only cancel Open or PartiallyFilled orders");
            reveal_strlit(": Can only cancel Open or PartiallyFilled orders");
        }
        let ghost s0 = self.orders();
        let i = match self.find(order_id) {
            Some(i) => i,
            None => {
                let mut msg = String::from_str("Order ");
                msg.append(order_id.as_str());
                msg.append(" not found");
                return Err(msg);
            },
        };
        if !self.orders[i].1.is_active() {
            let mut msg = String::from_str("Order ");
            msg.append(order_id.as_str());
            msg.append(" is not active");
            return Err(msg);
        }
        let mut orders: Vec<(OrderId, OrderStateWrapper)> = Vec::new();
        std::mem::swap(&mut orders, &mut self.orders);
        assert(orders@.map_values(|e: (OrderId, OrderStateWrapper)| lighter_entry(e)) == s0);
        let (id, mut wrapper) = orders.remove(i);
        let result = wrapper.cancel();
        let ghost w = wrapper@;
        orders.insert(i, (id, wrapper));
        assert(orders@.map_values(|e: (OrderId, OrderStateWrapper)| lighter_entry(e)) =~= s0.update(i as int, (order_id@, w)));
        proof {
            lemma_update_value(s0, i as int, w);
        }
        self.orders = orders;
        match result {
            Err(e) => {
                assert(s0.update(i as int, (order_id@, w)) =~= s0);
                let mut msg = String::from_str("Failed to cancel order ");
                msg.append(order_id.as_str());
                msg.append(": ");
                msg.append(e.as_str());
                Err(msg)
            },
            Ok(()) => Ok(()),
        }
    }

    /// No fills ever arrive from the stub: always empty.
    pub fn get_fills(&mut self) -> (r: Vec<Fill>)
        ensures
            r@.len() == 0,
            final(self).orders() == old(self).orders(),
            final(self).api() == old(self).api() && final(self).ws() == old(self).ws(),
    {
        proof {
            use_type_invariant(&*self);
        }
        let mut out: Vec<Fill> = Vec::new();
        std::mem::swap(&mut out, &mut self.pending_fills);
        out
    }

    /// Status of the order with the given identifier, if it is tracked.
    pub fn get_order_status(&self, order_id: &OrderId) -> (r: Option<OrderStatus>)
        ensures
            r == (match key_index(self.orders(), order_id@) {
                Some(i) => Some(state_status(self.orders()[i].1)),
                None => None,
            }),
    {
        match self.find(order_id) {
            Some(i) => Some(self.orders[i].1.status()),
            None => None,
        }
    }

    /// Always live.
    pub fn execution_mode(&self) -> (r: ExecutionMode)
        ensures
            r == ExecutionMode::Live,
    {
        proof {
            use_type_invariant(self);
        }
        self.mode
    }

    /// Open exposure (long, short) of the active orders (see [`open_exposure`]).
    pub fn get_open_exposure(&self) -> (r: (i64, i64))
        requires
            open_exposure(self.orders()).0 <= i64::MAX,
            open_exposure(self.orders()).1 <= i64::MAX,
        ensures
            r.0 == open_exposure(self.orders()).0,
            r.1 == open_exposure(self.orders()).1,
    {
        let ghost s = self.orders();
        let mut long_exposure: i64 = 0;
        let mut short_exposure: i64 = 0;
        let mut i: usize = 0;
        while i < self.orders.len()
            invariant
                0 <= i <= s.len(),
                s == self.orders@.map_values(|e: (OrderId, OrderStateWrapper)| lighter_entry(e)),
                open_exposure(s).0 <= i64::MAX,
                open_exposure(s).1 <= i64::MAX,
                long_exposure == open_exposure(s.take(i as int)).0,
                short_exposure == open_exposure(s.take(i as int)).1,
            decreases s.len() - i,
        {
            proof {
                lemma_exposure_prefix(s, i + 1);
                lemma_exposure_nonneg(s.take(i as int));
                assert(s.take(i + 1).drop_last() =~= s.take(i as int));
                assert(s.take(i + 1).last() == s[i as int]);
            }
            assert(s[i as int].1 == self.orders@[i as int].1@);
            if self.orders[i].1.is_active() {
                let order = self.orders[i].1.to_legacy();
                let remaining = order.remaining_size();
                assert(remaining == state_remaining(s[i as int].1));
                assert(state_data(s[i as int].1).side == CoreSide::Buy <==> order.side == crate::execution::types::Side::Buy);
                let ghost st = s[i as int].1;
                assert(status_is_active(state_status(st)));
                let ghost prev = open_exposure(s.take(i as int));
                assert(open_exposure(s.take(i + 1)) == (if state_data(st).side == CoreSide::Buy {
                    (prev.0 + state_remaining(st), prev.1)
                } else {
                    (prev.0, prev.1 + state_remaining(st))
                }));
                match order.side {
                    crate::execution::types::Side::Buy => {
                        long_exposure = long_exposure + remaining as i64;
                    },
                    crate::execution::types::Side::Sell => {
                        short_exposure = short_exposure + remaining as i64;
                    },
                }
            }
            i = i + 1;
        }
        assert(s.take(i as int) =~= s);
        (long_exposure, short_exposure)
    }
}

} // verus!

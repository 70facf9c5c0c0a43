//! Order execution: the order-level executor interface, its identifiers and
//! enumerations, and the order-id bridge.
pub mod order_bridge;
pub mod lighter;
pub mod production;
pub mod simulated;
pub mod types;

use vstd::prelude::*;
use crate::engine::generic::FixedFill;
use crate::execution::types::{ExecutionMode, OrderId, Side};

verus! {

/// A limit order request in nine-decimal fixed point.
#[derive(Clone, Copy, PartialEq, Eq, Structural, Debug)]
pub struct LimitOrder {
    pub side: Side,
    pub price: u64,
    pub size: u64,
}

/// A resting order: its identifier and side.
#[derive(Debug)]
pub struct ActiveOrder {
    pub id: OrderId,
    pub side: Side,
}

impl View for ActiveOrder {
    type V = (Seq<char>, Side);

    open spec fn view(&self) -> (Seq<char>, Side) {
        (self.id@, self.side)
    }
}

/// A request made of an order-level executor, order identifiers taken by their text.
pub enum OrderRequest {
    Place(LimitOrder),
    Cancel(Seq<char>),
    Amend(Seq<char>, LimitOrder),
}

/// Whether `after` follows from `before` by one amendment of order `id` to `order`: a
/// single amendment, or a cancellation, followed by a placement unless it failed.
pub open spec fn amend_requests(before: Seq<OrderRequest>, after: Seq<OrderRequest>, id: Seq<char>, order: LimitOrder) -> bool {
    ||| after == before.push(OrderRequest::Amend(id, order))
    ||| after == before.push(OrderRequest::Cancel(id))
    ||| after == before.push(OrderRequest::Cancel(id)).push(OrderRequest::Place(order))
}

/// Order-level executor: places, amends and cancels individual orders.
pub trait Executor {
    /// Whether this executor keeps the record of requests below; one that does not
    /// promises nothing about it.
    open spec fn logs_requests() -> bool {
        false
    }

    /// Places, cancels and amendments requested of this executor, oldest first.
    open spec fn order_requests(&self) -> Seq<OrderRequest> {
        Seq::empty()
    }

    /// Places an order and returns its identifier.
    fn place_order(&mut self, order: LimitOrder) -> (r: Result<OrderId, String>)
        ensures
            Self::logs_requests() ==> final(self).order_requests() == old(self).order_requests().push(OrderRequest::Place(order)),
    ;

    /// Cancels an order.
    fn cancel_order(&mut self, order_id: &OrderId) -> (r: Result<(), String>)
        ensures
            Self::logs_requests() ==> final(self).order_requests() == old(self).order_requests().push(OrderRequest::Cancel(order_id@)),
    ;

    /// Appends the pending fills to `fills` and clears them.
    fn get_fills(&mut self, fills: &mut Vec<FixedFill>)
        ensures
            Self::logs_requests() ==> final(self).order_requests() == old(self).order_requests(),
    ;

    /// Whether this executor exposes its resting orders below; one that does not
    /// promises nothing about them.
    open spec fn lists_orders() -> bool {
        false
    }

    /// Resting orders, identifier and side, in the order the executor lists them.
    open spec fn active_orders(&self) -> Seq<(Seq<char>, Side)> {
        Seq::empty()
    }

    /// Orders currently resting.
    fn get_active_orders(&self) -> (r: Vec<ActiveOrder>)
        ensures
            Self::lists_orders() ==> r@.map_values(|o: ActiveOrder| o@) == self.active_orders(),
    ;

    /// Whether orders go to a live venue or a simulation.
    fn execution_mode(&self) -> ExecutionMode;

    /// Open exposure (long, short) of resting orders.
    fn get_open_exposure(&self) -> (i64, i64);

    /// Fills dropped so far because a queue overflowed.
    fn dropped_fill_count(&self) -> u64 {
        0
    }

    /// Cancels every resting order, stopping at the first failure.
    fn cancel_all_orders(&mut self) -> Result<(), String> {
        let orders = self.get_active_orders();
        let mut i: usize = 0;
        while i < orders.len()
            decreases orders.len() - i,
        {
            self.cancel_order(&orders[i].id)?;
            i = i + 1;
        }
        Ok(())
    }

    /// Replaces an order: cancels it, then places the new one. An executor that amends in
    /// one request records an amendment instead.
    fn amend_order(&mut self, order_id: &OrderId, new_order: LimitOrder) -> (r: Result<OrderId, String>)
        ensures
            Self::logs_requests() ==> amend_requests(old(self).order_requests(), final(self).order_requests(), order_id@, new_order),
    {
        self.cancel_order(order_id)?;
        self.place_order(new_order)
    }
}

} // verus!

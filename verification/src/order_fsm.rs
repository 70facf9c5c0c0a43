//! Order lifecycle as a state machine over fixed-point order data:
//!
//! ```text
//! Pending ─acknowledge→ Open ─fill→ PartiallyFilled ─fill→ Filled
//!    │                   │  └──────────fill (all)──────────↗
//!    └─reject→ Rejected  └─cancel→ Cancelled ←cancel─ PartiallyFilled
//! ```
//!
//! A fill must have a positive quantity and price and may not exceed the quantity
//! still open; a rejected fill leaves the order as it was.
use vstd::prelude::*;
use vstd::string::StringExecFns;
use crate::core_types::{OrderId, Side};
use crate::execution::types::OrderType;

verus! {

/// Status of an order in its lifecycle.
#[derive(Clone, Copy, PartialEq, Eq, Structural, Debug, Hash)]
pub enum OrderStatus {
    Pending,
    Open,
    PartiallyFilled,
    Filled,
    Cancelled,
    Rejected,
    Expired,
}

/// Data of an order, in nine-decimal fixed point.
#[derive(Clone, Copy, Debug)]
pub struct OrderData {
    pub id: OrderId,
    pub side: Side,
    pub order_type: OrderType,
    pub price: u64,
    pub quantity: u64,
    pub filled_quantity: u64,
    pub created_at: std::time::SystemTime,
    pub updated_at: std::time::SystemTime,
}

/// Why a fill was refused.
#[derive(Clone, Copy, PartialEq, Eq, Structural, Debug)]
pub enum FillError {
    ZeroQuantity,
    ZeroPrice,
    ExceedsRemaining { requested: u64, remaining: u64 },
}

/// A new order, not yet acknowledged by the venue.
#[derive(Clone, Copy, Debug)]
pub struct OrderPending {
    pub data: OrderData,
}

/// An order in one of the states of its lifecycle.
#[derive(Debug)]
pub enum OrderState {
    Pending(OrderData),
    Open(OrderData),
    PartiallyFilled(OrderData),
    Filled(OrderData),
    Cancelled(OrderData),
    Rejected(OrderData, String),
    Expired(OrderData),
}

/// Data of an order in any state.
pub open spec fn state_data(s: OrderState) -> OrderData {
    match s {
        OrderState::Pending(d) => d,
        OrderState::Open(d) => d,
        OrderState::PartiallyFilled(d) => d,
        OrderState::Filled(d) => d,
        OrderState::Cancelled(d) => d,
        OrderState::Rejected(d, _) => d,
        OrderState::Expired(d) => d,
    }
}

/// Status of an order in any state.
pub open spec fn state_status(s: OrderState) -> OrderStatus {
    match s {
        OrderState::Pending(_) => OrderStatus::Pending,
        OrderState::Open(_) => OrderStatus::Open,
        OrderState::PartiallyFilled(_) => OrderStatus::PartiallyFilled,
        OrderState::Filled(_) => OrderStatus::Filled,
        OrderState::Cancelled(_) => OrderStatus::Cancelled,
        OrderState::Rejected(_, _) => OrderStatus::Rejected,
        OrderState::Expired(_) => OrderStatus::Expired,
    }
}

/// Whether an order in this status can still trade.
pub open spec fn status_is_active(s: OrderStatus) -> bool {
    s == OrderStatus::Pending || s == OrderStatus::Open || s == OrderStatus::PartiallyFilled
}

/// Whether an order in this status has reached the end of its lifecycle.
pub open spec fn status_is_terminal(s: OrderStatus) -> bool {
    s == OrderStatus::Filled || s == OrderStatus::Cancelled || s == OrderStatus::Rejected || s == OrderStatus::Expired
}

/// Quantity of an order still open.
pub open spec fn remaining(d: OrderData) -> int {
    d.quantity - d.filled_quantity
}

/// Whether the filled quantity never exceeds the order quantity.
pub open spec fn data_wf(d: OrderData) -> bool {
    d.filled_quantity <= d.quantity
}

/// Outcome of a fill of `quantity` at `price` on an open or partially filled order:
/// refused when the quantity or the price is zero or the quantity exceeds what is
/// still open; otherwise the filled quantity grows and the order is filled when
/// nothing remains, partially filled otherwise.
pub open spec fn spec_fill(d: OrderData, quantity: u64, price: u64) -> Result<OrderState, FillError> {
    if quantity == 0 {
        Err(FillError::ZeroQuantity)
    } else if price == 0 {
        Err(FillError::ZeroPrice)
    } else if quantity > remaining(d) {
        Err(FillError::ExceedsRemaining { requested: quantity, remaining: remaining(d) as u64 })
    } else {
        let nd = OrderData { filled_quantity: (d.filled_quantity + quantity) as u64, ..d };
        if nd.filled_quantity == nd.quantity {
            Ok(OrderState::Filled(nd))
        } else {
            Ok(OrderState::PartiallyFilled(nd))
        }
    }
}

/// Description of a refused fill.
pub open spec fn spec_fill_error_text(e: FillError) -> Seq<char> {
    match e {
        FillError::ZeroQuantity => "fill quantity is zero"@,
        FillError::ZeroPrice => "fill price is zero"@,
        FillError::ExceedsRemaining { .. } => "fill quantity exceeds remaining quantity"@,
    }
}

impl FillError {
    /// Description of the refusal.
    pub fn to_string(&self) -> (s: String)
        ensures
            s@ == spec_fill_error_text(*self),
    {
        match self {
            FillError::ZeroQuantity => String::from_str("fill quantity is zero"),
            FillError::ZeroPrice => String::from_str("fill price is zero"),
            FillError::ExceedsRemaining { .. } => String::from_str("fill quantity exceeds remaining quantity"),
        }
    }
}

impl OrderPending {
    /// A new pending order with nothing filled, stamped with `now`.
    pub fn new_with_type(
        id: OrderId,
        side: Side,
        order_type: OrderType,
        price: u64,
        quantity: u64,
        now: std::time::SystemTime,
    ) -> (o: Self)
        ensures
            o.data.id == id && o.data.side == side && o.data.order_type == order_type,
            o.data.price == price && o.data.quantity == quantity && o.data.filled_quantity == 0,
            o.data.created_at == now && o.data.updated_at == now,
    {
        OrderPending {
            data: OrderData { id, side, order_type, price, quantity, filled_quantity: 0, created_at: now, updated_at: now },
        }
    }

    /// The order's data.
    pub fn data(&self) -> (r: &OrderData)
        ensures
            *r == self.data,
    {
        &self.data
    }

    /// Always pending.
    pub fn status(&self) -> (r: OrderStatus)
        ensures
            r == OrderStatus::Pending,
    {
        OrderStatus::Pending
    }
}

impl OrderState {
    /// The order's data.
    pub fn data(&self) -> (r: &OrderData)
        ensures
            *r == state_data(*self),
    {
        match self {
            OrderState::Pending(d) => d,
            OrderState::Open(d) => d,
            OrderState::PartiallyFilled(d) => d,
            OrderState::Filled(d) => d,
            OrderState::Cancelled(d) => d,
            OrderState::Rejected(d, _) => d,
            OrderState::Expired(d) => d,
        }
    }

    /// The order's status.
    pub fn status(&self) -> (r: OrderStatus)
        ensures
            r == state_status(*self),
    {
        match self {
            OrderState::Pending(_) => OrderStatus::Pending,
            OrderState::Open(_) => OrderStatus::Open,
            OrderState::PartiallyFilled(_) => OrderStatus::PartiallyFilled,
            OrderState::Filled(_) => OrderStatus::Filled,
            OrderState::Cancelled(_) => OrderStatus::Cancelled,
            OrderState::Rejected(_, _) => OrderStatus::Rejected,
            OrderState::Expired(_) => OrderStatus::Expired,
        }
    }

    /// The order's identifier.
    pub fn id(&self) -> (r: &OrderId)
        ensures
            *r == state_data(*self).id,
    {
        &self.data().id
    }

    /// Whether the order can still trade.
    pub fn is_active(&self) -> (r: bool)
        ensures
            r == status_is_active(state_status(*self)),
    {
        matches!(self, OrderState::Pending(_) | OrderState::Open(_) | OrderState::PartiallyFilled(_))
    }

    /// Whether the order has reached the end of its lifecycle.
    pub fn is_terminal(&self) -> (r: bool)
        ensures
            r == status_is_terminal(state_status(*self)),
    {
        matches!(self, OrderState::Filled(_) | OrderState::Cancelled(_) | OrderState::Rejected(_, _) | OrderState::Expired(_))
    }
}

/// Applies a fill to the data of an open or partially filled order.
pub fn fill(d: OrderData, quantity: u64, price: u64) -> (r: Result<OrderState, FillError>)
    requires
        data_wf(d),
    ensures
        r == spec_fill(d, quantity, price),
        r matches Ok(s) ==> data_wf(state_data(s)),
{
    if quantity == 0 {
        return Err(FillError::ZeroQuantity);
    }
    if price == 0 {
        return Err(FillError::ZeroPrice);
    }
    let remaining = d.quantity - d.filled_quantity;
    if quantity > remaining {
        return Err(FillError::ExceedsRemaining { requested: quantity, remaining });
    }
    let nd = OrderData { filled_quantity: d.filled_quantity + quantity, ..d };
    if nd.filled_quantity == nd.quantity {
        Ok(OrderState::Filled(nd))
    } else {
        Ok(OrderState::PartiallyFilled(nd))
    }
}

/// Filled quantities only grow, never past the order quantity, and a fill that takes
/// the last of it completes the order.
pub proof fn lemma_fill_accounting(d: OrderData, quantity: u64, price: u64)
    requires
        data_wf(d),
        spec_fill(d, quantity, price) is Ok,
    ensures
        state_data(spec_fill(d, quantity, price)->Ok_0).filled_quantity == d.filled_quantity + quantity,
        state_data(spec_fill(d, quantity, price)->Ok_0).filled_quantity <= d.quantity,
        (state_status(spec_fill(d, quantity, price)->Ok_0) == OrderStatus::Filled) <==> quantity == remaining(d),
{
}

} // verus!

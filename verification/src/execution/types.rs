//! Identifiers and enumerations shared by the executors.
use vstd::prelude::*;
use vstd::string::StringExecFns;
use crate::clock::system_time_now;
use crate::core_types::random_u128;
use crate::text::{hex_u128_32, spec_hex_32, str_eq};
pub use crate::order_fsm::OrderStatus;

verus! {

/// Exchange-facing order identifier.
#[derive(Debug, Eq, Hash)]
pub struct OrderId(String);

impl Clone for OrderId {
    fn clone(&self) -> (r: Self)
        ensures
            r@ == self@,
    {
        OrderId(self.0.clone())
    }
}

impl View for OrderId {
    type V = Seq<char>;

    closed spec fn view(&self) -> Seq<char> {
        self.0@
    }
}

impl PartialEq for OrderId {
    fn eq(&self, other: &OrderId) -> (r: bool) {
        self.0 == other.0
    }
}

impl vstd::std_specs::cmp::PartialEqSpecImpl for OrderId {
    open spec fn obeys_eq_spec() -> bool {
        true
    }

    open spec fn eq_spec(&self, other: &OrderId) -> bool {
        self@ == other@
    }
}

impl OrderId {
    /// An identifier with the given text.
    pub fn new(id: String) -> (r: Self)
        ensures
            r@ == id@,
    {
        OrderId(id)
    }

    /// A random identifier: 32 lowercase hex digits.
    pub fn new_random() -> (r: Self)
        ensures
            exists|n: u128| r@ == spec_hex_32(n),
    {
        OrderId(hex_u128_32(random_u128()))
    }

    /// The identifier's text.
    pub fn as_str(&self) -> (r: &str)
        ensures
            r@ == self@,
    {
        self.0.as_str()
    }

    /// The identifier's text, owned.
    pub fn to_string(&self) -> (r: String)
        ensures
            r@ == self@,
    {
        self.0.clone()
    }
}

impl From<String> for OrderId {
    fn from(s: String) -> (r: Self) {
        OrderId(s)
    }
}

impl vstd::std_specs::convert::FromSpecImpl<String> for OrderId {
    open spec fn obeys_from_spec() -> bool {
        true
    }

    closed spec fn from_spec(s: String) -> OrderId {
        OrderId(s)
    }
}

impl From<&str> for OrderId {
    fn from(s: &str) -> (r: Self) {
        OrderId(String::from_str(s))
    }
}

/// No spec-level constructor of a `String` from a text exists, so conversions from a
/// string slice claim nothing beyond what [`OrderId::new`] states.
impl vstd::std_specs::convert::FromSpecImpl<&str> for OrderId {
    open spec fn obeys_from_spec() -> bool {
        false
    }

    closed spec fn from_spec(s: &str) -> OrderId {
        arbitrary()
    }
}

/// Order side.
#[derive(Clone, Copy, PartialEq, Eq, Structural, Debug, Hash)]
pub enum Side {
    Buy,
    Sell,
}

impl Side {
    /// "BUY" or "SELL".
    pub fn to_string(&self) -> (s: String)
        ensures
            *self == Side::Buy ==> s@ == "BUY"@,
            *self == Side::Sell ==> s@ == "SELL"@,
    {
        match self {
            Side::Buy => String::from_str("BUY"),
            Side::Sell => String::from_str("SELL"),
        }
    }
}

/// Order type.
#[derive(Clone, Copy, PartialEq, Eq, Structural, Debug)]
pub enum OrderType {
    Limit,
    Market,
    PostOnly,
}

/// Time in force.
#[derive(Clone, Copy, PartialEq, Eq, Structural, Debug)]
pub enum TimeInForce {
    /// Good till cancelled.
    GTC,
    /// Immediate or cancel.
    IOC,
    /// Fill or kill.
    FOK,
}

/// Execution mode.
#[derive(Clone, Copy, PartialEq, Eq, Structural, Debug)]
pub enum ExecutionMode {
    Live,
    Simulated,
}

/// Lowercase form of a text (`str::to_lowercase`, full Unicode case mapping).
pub uninterp spec fn str_to_lowercase(s: Seq<char>) -> Seq<char>;

/// `str::to_lowercase`: the text with every character mapped to its Unicode lowercase.
#[verifier::external_body]
fn to_lowercase(s: &str) -> (r: String)
    ensures
        r@ == str_to_lowercase(s@),
{
    s.to_lowercase()
}

/// Mode named by an already lowercased text.
pub open spec fn spec_mode_of_lowercase(s: Seq<char>) -> Option<ExecutionMode> {
    if s == "live"@ {
        Some(ExecutionMode::Live)
    } else if s == "simulated"@ || s == "paper"@ || s == "backtest"@ {
        Some(ExecutionMode::Simulated)
    } else {
        None
    }
}

impl ExecutionMode {
    /// Mode named by a text: "live", or "simulated", "paper" or "backtest", in any case.
    pub fn from_str(s: &str) -> (r: Option<Self>)
        ensures
            r == spec_mode_of_lowercase(str_to_lowercase(s@)),
    {
        let lower = to_lowercase(s);
        Self::from_lowercase(lower.as_str())
    }

    /// Mode named by an already lowercased text.
    pub fn from_lowercase(s: &str) -> (r: Option<Self>)
        ensures
            r == spec_mode_of_lowercase(s@),
    {
        proof {
            reveal_strlit("live");
            reveal_strlit("simulated");
            reveal_strlit("paper");
            reveal_strlit("backtest");
        }
        if str_eq(s, "live") {
            Some(ExecutionMode::Live)
        } else if str_eq(s, "simulated") || str_eq(s, "paper") || str_eq(s, "backtest") {
            Some(ExecutionMode::Simulated)
        } else {
            None
        }
    }

    /// "LIVE" or "SIMULATED".
    pub fn to_string(&self) -> (s: String)
        ensures
            *self == ExecutionMode::Live ==> s@ == "LIVE"@,
            *self == ExecutionMode::Simulated ==> s@ == "SIMULATED"@,
    {
        match self {
            ExecutionMode::Live => String::from_str("LIVE"),
            ExecutionMode::Simulated => String::from_str("SIMULATED"),
        }
    }
}

/// An order as the execution layer handles it. Prices and sizes are in nine-decimal
/// fixed point.
#[derive(Debug)]
pub struct Order {
    pub id: OrderId,
    pub side: Side,
    pub order_type: OrderType,
    /// Limit price (0 for market orders).
    pub price: u64,
    pub size: u64,
    pub time_in_force: TimeInForce,
    pub status: OrderStatus,
    pub filled_size: u64,
    pub avg_fill_price: Option<u64>,
    pub created_at: std::time::SystemTime,
    pub updated_at: std::time::SystemTime,
}

/// Whether an order with this status can still be filled.
pub open spec fn order_status_active(s: OrderStatus) -> bool {
    s == OrderStatus::Pending || s == OrderStatus::Open || s == OrderStatus::PartiallyFilled
}

impl Order {
    /// A new good-till-cancelled limit order with a random identifier, pending, nothing filled.
    pub fn limit(side: Side, price: u64, size: u64) -> (o: Self)
        ensures
            exists|n: u128| o.id@ == spec_hex_32(n),
            o.side == side && o.order_type == OrderType::Limit && o.price == price && o.size == size,
            o.time_in_force == TimeInForce::GTC && o.status == OrderStatus::Pending,
            o.filled_size == 0 && o.avg_fill_price is None,
            o.created_at == o.updated_at,
    {
        let now = system_time_now();
        Order {
            id: OrderId::new_random(),
            side,
            order_type: OrderType::Limit,
            price,
            size,
            time_in_force: TimeInForce::GTC,
            status: OrderStatus::Pending,
            filled_size: 0,
            avg_fill_price: None,
            created_at: now,
            updated_at: now,
        }
    }

    /// A new post-only limit order: a limit order of type `PostOnly`.
    pub fn post_only(side: Side, price: u64, size: u64) -> (o: Self)
        ensures
            exists|n: u128| o.id@ == spec_hex_32(n),
            o.side == side && o.order_type == OrderType::PostOnly && o.price == price && o.size == size,
            o.time_in_force == TimeInForce::GTC && o.status == OrderStatus::Pending,
            o.filled_size == 0 && o.avg_fill_price is None,
            o.created_at == o.updated_at,
    {
        let mut order = Self::limit(side, price, size);
        order.order_type = OrderType::PostOnly;
        order
    }

    /// A new immediate-or-cancel market order, without a price.
    pub fn market(side: Side, size: u64) -> (o: Self)
        ensures
            exists|n: u128| o.id@ == spec_hex_32(n),
            o.side == side && o.order_type == OrderType::Market && o.price == 0 && o.size == size,
            o.time_in_force == TimeInForce::IOC && o.status == OrderStatus::Pending,
            o.filled_size == 0 && o.avg_fill_price is None,
            o.created_at == o.updated_at,
    {
        let now = system_time_now();
        Order {
            id: OrderId::new_random(),
            side,
            order_type: OrderType::Market,
            price: 0,
            size,
            time_in_force: TimeInForce::IOC,
            status: OrderStatus::Pending,
            filled_size: 0,
            avg_fill_price: None,
            created_at: now,
            updated_at: now,
        }
    }

    /// Size not filled yet; 0 when the order is filled or overfilled.
    pub fn remaining_size(&self) -> (r: u64)
        ensures
            r == (if self.filled_size <= self.size { self.size - self.filled_size } else { 0 }),
    {
        self.size.saturating_sub(self.filled_size)
    }

    /// Whether the order is fully filled.
    pub fn is_filled(&self) -> (r: bool)
        ensures
            r == (self.filled_size >= self.size),
    {
        self.filled_size >= self.size
    }

    /// Whether the order can still be filled: pending, open or partially filled.
    pub fn is_active(&self) -> (r: bool)
        ensures
            r == order_status_active(self.status),
    {
        matches!(self.status, OrderStatus::Pending | OrderStatus::Open | OrderStatus::PartiallyFilled)
    }
}


impl Clone for Order {
    fn clone(&self) -> (r: Self)
        ensures
            same_order(r, *self),
    {
        Order {
            id: self.id.clone(),
            side: self.side,
            order_type: self.order_type,
            price: self.price,
            size: self.size,
            time_in_force: self.time_in_force,
            status: self.status,
            filled_size: self.filled_size,
            avg_fill_price: self.avg_fill_price,
            created_at: self.created_at,
            updated_at: self.updated_at,
        }
    }
}

/// Whether two orders agree in every field, identifiers by their text.
pub open spec fn same_order(a: Order, b: Order) -> bool {
    &&& a.id@ == b.id@
    &&& a.side == b.side
    &&& a.order_type == b.order_type
    &&& a.price == b.price
    &&& a.size == b.size
    &&& a.time_in_force == b.time_in_force
    &&& a.status == b.status
    &&& a.filled_size == b.filled_size
    &&& a.avg_fill_price == b.avg_fill_price
    &&& a.created_at == b.created_at
    &&& a.updated_at == b.updated_at
}

/// Scale of nine-decimal fixed point: one unit is 10^-9.
pub const FIXED_SCALE: u64 = 1_000_000_000;

/// A trade execution. Price, size and fee are in nine-decimal fixed point, so a
/// notional (price times size) is in eighteen-decimal fixed point.
#[derive(Debug)]
pub struct Fill {
    pub order_id: OrderId,
    pub side: Side,
    pub price: u64,
    pub size: u64,
    pub timestamp: std::time::SystemTime,
    /// Fee, in the currency of the price.
    pub fee: Option<u64>,
    pub fee_currency: Option<String>,
}

/// Whether two fills agree in every field, identifiers and texts by their characters.
pub open spec fn same_fill(a: Fill, b: Fill) -> bool {
    &&& a.order_id@ == b.order_id@
    &&& a.side == b.side
    &&& a.price == b.price
    &&& a.size == b.size
    &&& a.timestamp == b.timestamp
    &&& a.fee == b.fee
    &&& a.fee_currency == b.fee_currency
}

impl Clone for Fill {
    fn clone(&self) -> (r: Self)
        ensures
            same_fill(r, *self),
    {
        Fill {
            order_id: self.order_id.clone(),
            side: self.side,
            price: self.price,
            size: self.size,
            timestamp: self.timestamp,
            fee: self.fee,
            fee_currency: match &self.fee_currency {
                Some(c) => Some(c.clone()),
                None => None,
            },
        }
    }
}

/// Notional of a fill, eighteen decimals: price times size.
pub open spec fn fill_notional(f: Fill) -> int {
    f.price * f.size
}

/// Position change of a fill, nine decimals: the size, negative for a sale.
pub open spec fn fill_position_change(f: Fill) -> int {
    match f.side {
        Side::Buy => f.size as int,
        Side::Sell => -(f.size as int),
    }
}

/// Fee of a fill in eighteen decimals (none counts as zero).
pub open spec fn fill_fee_18(f: Fill) -> int {
    match f.fee {
        Some(fee) => fee * FIXED_SCALE,
        None => 0,
    }
}

/// Cash flow of a fill, eighteen decimals: a buy pays notional plus fee, a sale
/// receives notional minus fee.
pub open spec fn fill_cash_flow(f: Fill) -> int {
    match f.side {
        Side::Buy => -(fill_notional(f) + fill_fee_18(f)),
        Side::Sell => fill_notional(f) - fill_fee_18(f),
    }
}

impl Fill {
    /// A fill stamped now, without fee.
    pub fn new(order_id: OrderId, side: Side, price: u64, size: u64) -> (f: Self)
        ensures
            f.order_id@ == order_id@ && f.side == side && f.price == price && f.size == size,
            f.fee is None && f.fee_currency is None,
    {
        Self::new_with_fee(order_id, side, price, size, None)
    }

    /// A fill stamped now, with an optional fee; the fee currency is "USD" when a fee
    /// is given.
    pub fn new_with_fee(order_id: OrderId, side: Side, price: u64, size: u64, fee: Option<u64>) -> (f: Self)
        ensures
            f.order_id@ == order_id@ && f.side == side && f.price == price && f.size == size,
            f.fee == fee,
            fee is None ==> f.fee_currency is None,
            fee is Some ==> (f.fee_currency matches Some(c) && c@ == "USD"@),
    {
        proof {
            reveal_strlit("USD");
        }
        let fee_currency = if fee.is_some() {
            Some(String::from_str("USD"))
        } else {
            None
        };
        Fill { order_id, side, price, size, timestamp: system_time_now(), fee, fee_currency }
    }

    /// Notional value, price times size (eighteen decimals).
    pub fn notional(&self) -> (r: u128)
        ensures
            r == fill_notional(*self),
    {
        assert(self.price * self.size <= u64::MAX * u64::MAX) by (nonlinear_arith);
        (self.price as u128) * (self.size as u128)
    }

    /// Position change: the size for a buy, its negation for a sale (nine decimals).
    pub fn position_change(&self) -> (r: i128)
        ensures
            r == fill_position_change(*self),
    {
        match self.side {
            Side::Buy => self.size as i128,
            Side::Sell => -(self.size as i128),
        }
    }

    /// Cash flow including the fee (eighteen decimals): negative for a buy, positive
    /// for a sale net of fee.
    pub fn cash_flow(&self) -> (r: i128)
        requires
            fill_notional(*self) + fill_fee_18(*self) <= i128::MAX,
        ensures
            r == fill_cash_flow(*self),
    {
        let notional = self.notional();
        let fee_amount: u128 = match self.fee {
            Some(fee) => (fee as u128) * (FIXED_SCALE as u128),
            None => 0,
        };
        match self.side {
            Side::Buy => -((notional + fee_amount) as i128),
            Side::Sell => (notional as i128) - (fee_amount as i128),
        }
    }
}

} // verus!

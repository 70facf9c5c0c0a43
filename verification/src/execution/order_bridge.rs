//! Conversions between the execution layer's orders (text identifiers) and the order
//! state machine (128-bit identifiers), and a wrapper that drives the state machine
//! behind the execution layer's order type.
//!
//! Text identifiers are hexadecimal: a core identifier is written as 32 lowercase hex
//! digits, and read back from hex text with any leading "0x" removed.
use vstd::prelude::*;
use vstd::string::{StringExecFns, StrSliceExecFns};
use crate::clock::system_time_now;
use crate::core_types::{OrderId as CoreOrderId, Side as CoreSide};
use crate::execution::types::{Order, OrderId, Side, TimeInForce};
use crate::order_fsm::{
    fill, spec_fill, state_data, state_status, status_is_active, status_is_terminal, data_wf, OrderData,
    OrderPending, OrderState, OrderStatus,
};
use crate::text::{hex_digit_char, hex_u128_32, spec_hex_32, spec_hex_digits};

verus! {

/// Value of a hexadecimal digit of either case.
pub open spec fn hex_val(c: char) -> Option<nat> {
    let u = c as int;
    if 48 <= u <= 57 {
        Some((u - 48) as nat)
    } else if 97 <= u <= 102 {
        Some((u - 87) as nat)
    } else if 65 <= u <= 70 {
        Some((u - 55) as nat)
    } else {
        None
    }
}

/// Why a text is not a 128-bit hexadecimal number.
#[derive(Clone, Copy, PartialEq, Eq, Structural, Debug)]
pub enum HexParseError {
    /// The text is empty.
    Empty,
    /// A character is not a hexadecimal digit (a lone sign counts as one).
    InvalidDigit,
    /// The number does not fit in 128 bits.
    PosOverflow,
}

/// Value of a run of hexadecimal digits read from the left: the first character that
/// is not a digit, or the first digit that takes the value past `u128::MAX`, decides
/// the error.
pub open spec fn parse_hex_digits(s: Seq<char>) -> Result<nat, HexParseError>
    decreases s.len(),
{
    if s.len() == 0 {
        Ok(0)
    } else {
        match parse_hex_digits(s.drop_last()) {
            Err(e) => Err(e),
            Ok(v) => match hex_val(s.last()) {
                None => Err(HexParseError::InvalidDigit),
                Some(d) => if v * 16 + d > u128::MAX { Err(HexParseError::PosOverflow) } else { Ok(v * 16 + d) },
            },
        }
    }
}

/// A 128-bit number in hexadecimal: an optional leading '+', then one or more digits.
pub open spec fn spec_parse_hex_u128(s: Seq<char>) -> Result<nat, HexParseError> {
    if s.len() == 0 {
        Err(HexParseError::Empty)
    } else if s.len() == 1 && (s[0] == '+' || s[0] == '-') {
        Err(HexParseError::InvalidDigit)
    } else if s[0] == '+' {
        parse_hex_digits(s.skip(1))
    } else {
        parse_hex_digits(s)
    }
}

/// Text with every leading "0x" removed.
pub open spec fn strip_0x(s: Seq<char>) -> Seq<char>
    decreases s.len(),
{
    if s.len() >= 2 && s[0] == '0' && s[1] == 'x' {
        strip_0x(s.skip(2))
    } else {
        s
    }
}

/// Description of a parse error.
pub open spec fn spec_hex_error_text(e: HexParseError) -> Seq<char> {
    match e {
        HexParseError::Empty => "cannot parse integer from empty string"@,
        HexParseError::InvalidDigit => "invalid digit found in string"@,
        HexParseError::PosOverflow => "number too large to fit in target type"@,
    }
}

/// Core identifier named by a text identifier: its hex value with leading "0x" removed;
/// an error for text that is not hex or for the reserved value zero.
pub open spec fn spec_legacy_to_core(id: Seq<char>) -> Result<CoreOrderId, Seq<char>> {
    let hex = strip_0x(id);
    match spec_parse_hex_u128(hex) {
        Err(e) => Err("Invalid OrderId hex string '"@ + hex + "': "@ + spec_hex_error_text(e)),
        Ok(v) => if v == 0 {
            Err("OrderId cannot be zero (reserved value)"@)
        } else {
            Ok(CoreOrderId(v as u128))
        },
    }
}

impl HexParseError {
    /// Description of the error.
    pub fn to_string(&self) -> (s: String)
        ensures
            s@ == spec_hex_error_text(*self),
    {
        proof {
            reveal_strlit("cannot parse integer from empty string");
            reveal_strlit("invalid digit found in string");
            reveal_strlit("number too large to fit in target type");
        }
        match self {
            HexParseError::Empty => String::from_str("cannot parse integer from empty string"),
            HexParseError::InvalidDigit => String::from_str("invalid digit found in string"),
            HexParseError::PosOverflow => String::from_str("number too large to fit in target type"),
        }
    }
}

/// Value of a hexadecimal digit.
fn hex_digit_value(c: char) -> (r: Option<u128>)
    ensures
        r matches Some(d) ==> hex_val(c) == Some(d as nat),
        r is None ==> hex_val(c) is None,
{
    let u = c as u32;
    if 48 <= u && u <= 57 {
        Some((u - 48) as u128)
    } else if 97 <= u && u <= 102 {
        Some((u - 87) as u128)
    } else if 65 <= u && u <= 70 {
        Some((u - 55) as u128)
    } else {
        None
    }
}

/// Parses a 128-bit hexadecimal number (see [`spec_parse_hex_u128`]).
pub fn parse_hex_u128(s: &str) -> (r: Result<u128, HexParseError>)
    ensures
        match spec_parse_hex_u128(s@) {
            Ok(v) => r == Ok::<u128, HexParseError>(v as u128),
            Err(e) => r == Err::<u128, HexParseError>(e),
        },
{
    let n = s.unicode_len();
    if n == 0 {
        return Err(HexParseError::Empty);
    }
    let first = s.get_char(0);
    if n == 1 && (first == '+' || first == '-') {
        return Err(HexParseError::InvalidDigit);
    }
    let start: usize = if first == '+' { 1 } else { 0 };
    let ghost digits = s@.skip(start as int);
    assert(s@[0] == first);
    assert(start == 0 ==> digits =~= s@);
    assert(digits.take(0) =~= Seq::<char>::empty());
    assert(spec_parse_hex_u128(s@) == parse_hex_digits(digits));
    let mut acc: u128 = 0;
    let mut i: usize = start;
    while i < n
        invariant
            n == s@.len(),
            start <= i <= n,
            digits == s@.skip(start as int),
            spec_parse_hex_u128(s@) == parse_hex_digits(digits),
            parse_hex_digits(digits.take(i - start)) == Ok::<nat, HexParseError>(acc as nat),
        decreases n - i,
    {
        let c = s.get_char(i);
        assert(digits.take(i + 1 - start).drop_last() =~= digits.take(i - start));
        assert(digits.take(i + 1 - start).last() == c);
        match hex_digit_value(c) {
            None => {
                assert(parse_hex_digits(digits.take(i + 1 - start)) == Err::<nat, HexParseError>(HexParseError::InvalidDigit));
                proof {
                    lemma_parse_error_persists(digits, (i + 1 - start) as int);
                }
                return Err(HexParseError::InvalidDigit);
            },
            Some(d) => {
                if acc > 0x0fff_ffff_ffff_ffff_ffff_ffff_ffff_ffff {
                    assert(acc * 16 + d > u128::MAX) by (nonlinear_arith)
                        requires
                            acc > 0x0fff_ffff_ffff_ffff_ffff_ffff_ffff_ffffu128,
                            d <= 15,
                    ;
                    assert(parse_hex_digits(digits.take(i + 1 - start)) == Err::<nat, HexParseError>(HexParseError::PosOverflow));
                    proof {
                        lemma_parse_error_persists(digits, (i + 1 - start) as int);
                    }
                    return Err(HexParseError::PosOverflow);
                }
                assert(acc * 16 + d <= u128::MAX) by (nonlinear_arith)
                    requires
                        acc <= 0x0fff_ffff_ffff_ffff_ffff_ffff_ffff_ffffu128,
                        d <= 15,
                ;
                acc = acc * 16 + d;
            },
        }
        i = i + 1;
    }
    assert(digits.take(n - start) =~= digits);
    Ok(acc)
}

/// Once a prefix of the digits fails to parse, the whole run fails the same way.
proof fn lemma_parse_error_persists(s: Seq<char>, k: int)
    requires
        0 <= k <= s.len(),
        parse_hex_digits(s.take(k)) is Err,
    ensures
        parse_hex_digits(s) == parse_hex_digits(s.take(k)),
    decreases s.len() - k,
{
    if k < s.len() {
        assert(s.take(k + 1).drop_last() =~= s.take(k));
        lemma_parse_error_persists(s, k + 1);
    } else {
        assert(s.take(k) =~= s);
    }
}

/// Index just past the leading "0x" prefixes of `s`, from position `i`.
fn skip_0x(s: &str) -> (r: usize)
    ensures
        r <= s@.len(),
        s@.skip(r as int) == strip_0x(s@),
{
    let n = s.unicode_len();
    let mut i: usize = 0;
    assert(s@.skip(0) =~= s@);
    while i < n && i + 1 < n && s.get_char(i) == '0' && s.get_char(i + 1) == 'x'
        invariant
            n == s@.len(),
            i <= n,
            strip_0x(s@.skip(i as int)) == strip_0x(s@),
        decreases n - i,
    {
        assert(s@.skip(i as int).skip(2) =~= s@.skip(i + 2));
        i = i + 2;
    }
    assert(strip_0x(s@.skip(i as int)) == s@.skip(i as int));
    i
}

/// Core identifier named by a text identifier (see [`spec_legacy_to_core`]).
pub fn legacy_to_core_order_id(legacy_id: &OrderId) -> (r: Result<CoreOrderId, String>)
    ensures
        match spec_legacy_to_core(legacy_id@) {
            Ok(id) => r == Ok::<CoreOrderId, String>(id),
            Err(msg) => r matches Err(m) && m@ == msg,
        },
{
    let text = legacy_id.as_str();
    let start = skip_0x(text);
    let hex_str = text.substring_char(start, text.unicode_len());
    assert(hex_str@ =~= strip_0x(legacy_id@));
    match parse_hex_u128(hex_str) {
        Err(e) => {
            let mut msg = String::from_str("Invalid OrderId hex string '");
            msg.append(hex_str);
            msg.append("': ");
            let et = e.to_string();
            msg.append(et.as_str());
            proof {
                reveal_strlit("Invalid OrderId hex string '");
                reveal_strlit("': ");
            }
            Err(msg)
        },
        Ok(v) => {
            if v == 0 {
                proof {
                    reveal_strlit("OrderId cannot be zero (reserved value)");
                }
                Err(String::from_str("OrderId cannot be zero (reserved value)"))
            } else {
                Ok(CoreOrderId(v))
            }
        },
    }
}

/// Text identifier of a core identifier: 32 lowercase hex digits.
pub fn core_to_legacy_order_id(core_id: &CoreOrderId) -> (r: OrderId)
    ensures
        r@ == spec_hex_32(core_id.0),
{
    OrderId::new(hex_u128_32(core_id.0))
}

/// Core side of an execution-layer side.
pub open spec fn core_side(s: Side) -> CoreSide {
    match s {
        Side::Buy => CoreSide::Buy,
        Side::Sell => CoreSide::Sell,
    }
}

/// Execution-layer side of a core side.
pub open spec fn legacy_side(s: CoreSide) -> Side {
    match s {
        CoreSide::Buy => Side::Buy,
        CoreSide::Sell => Side::Sell,
    }
}

/// A pending state-machine order for an execution-layer order: same side, type, price
/// and size, nothing filled, its identifier read from the order's hex identifier.
/// Fails when that identifier is not a non-zero hex number.
pub fn legacy_order_to_pending(order: &Order) -> (r: Result<OrderPending, String>)
    ensures
        match spec_legacy_to_core(order.id@) {
            Err(msg) => r matches Err(m) && m@ == msg,
            Ok(id) => r matches Ok(p) && {
                &&& p.data.id == id
                &&& p.data.side == core_side(order.side)
                &&& p.data.order_type == order.order_type
                &&& p.data.price == order.price
                &&& p.data.quantity == order.size
                &&& p.data.filled_quantity == 0
            },
        },
{
    let core_id = match legacy_to_core_order_id(&order.id) {
        Ok(id) => id,
        Err(e) => return Err(e),
    };
    let side = match order.side {
        Side::Buy => CoreSide::Buy,
        Side::Sell => CoreSide::Sell,
    };
    Ok(OrderPending::new_with_type(core_id, side, order.order_type, order.price, order.size, system_time_now()))
}

/// Execution-layer order for state-machine data in a given status: the identifier as
/// 32 hex digits, good till cancelled, and, once something is filled, the order price
/// as the average fill price.
pub fn order_data_to_legacy(data: &OrderData, status: OrderStatus) -> (o: Order)
    ensures
        o.id@ == spec_hex_32(data.id.0),
        o.side == legacy_side(data.side),
        o.order_type == data.order_type,
        o.price == data.price,
        o.size == data.quantity,
        o.time_in_force == TimeInForce::GTC,
        o.status == status,
        o.filled_size == data.filled_quantity,
        o.avg_fill_price == (if data.filled_quantity > 0 { Some(data.price) } else { None::<u64> }),
        o.created_at == data.created_at && o.updated_at == data.updated_at,
{
    let side = match data.side {
        CoreSide::Buy => Side::Buy,
        CoreSide::Sell => Side::Sell,
    };
    let avg_fill_price = if data.filled_quantity > 0 { Some(data.price) } else { None };
    Order {
        id: core_to_legacy_order_id(&data.id),
        side,
        order_type: data.order_type,
        price: data.price,
        size: data.quantity,
        time_in_force: TimeInForce::GTC,
        status,
        filled_size: data.filled_quantity,
        avg_fill_price,
        created_at: data.created_at,
        updated_at: data.updated_at,
    }
}

/// Execution-layer order for a state-machine order, in its current status.
pub fn order_state_to_legacy(state: &OrderState) -> (o: Order)
    ensures
        o.id@ == spec_hex_32(state_data(*state).id.0),
        o.status == state_status(*state),
        o.side == legacy_side(state_data(*state).side),
        o.price == state_data(*state).price,
        o.size == state_data(*state).quantity,
        o.filled_size == state_data(*state).filled_quantity,
{
    order_data_to_legacy(state.data(), state.status())
}

/// State after acknowledging: a pending order opens; any other state is refused.
pub open spec fn spec_acknowledge(s: OrderState) -> Option<OrderState> {
    match s {
        OrderState::Pending(d) => Some(OrderState::Open(d)),
        _ => None,
    }
}

/// State after cancelling: an open or partially filled order is cancelled; any other
/// state is refused.
pub open spec fn spec_cancel(s: OrderState) -> Option<OrderState> {
    match s {
        OrderState::Open(d) => Some(OrderState::Cancelled(d)),
        OrderState::PartiallyFilled(d) => Some(OrderState::Cancelled(d)),
        _ => None,
    }
}

/// Order state machine presented through the execution layer's order type.
pub struct OrderStateWrapper {
    state: OrderState,
}

impl View for OrderStateWrapper {
    type V = OrderState;

    closed spec fn view(&self) -> OrderState {
        self.state
    }
}

impl OrderStateWrapper {
    #[verifier::type_invariant]
    spec fn filled_within_quantity(&self) -> bool {
        data_wf(state_data(self.state))
    }

    /// A pending state machine for an execution-layer order (see
    /// [`legacy_order_to_pending`]).
    pub fn from_legacy(order: &Order) -> (r: Result<Self, String>)
        ensures
            match spec_legacy_to_core(order.id@) {
                Err(msg) => r matches Err(m) && m@ == msg,
                Ok(id) => r matches Ok(w) && w@ matches OrderState::Pending(d) && {
                    &&& d.id == id
                    &&& d.side == core_side(order.side)
                    &&& d.order_type == order.order_type
                    &&& d.price == order.price
                    &&& d.quantity == order.size
                    &&& d.filled_quantity == 0
                },
            },
    {
        match legacy_order_to_pending(order) {
            Ok(p) => Ok(OrderStateWrapper { state: OrderState::Pending(p.data) }),
            Err(e) => Err(e),
        }
    }

    /// The current state.
    pub fn state(&self) -> (r: &OrderState)
        ensures
            *r == self@,
    {
        &self.state
    }

    /// The order as the execution layer sees it.
    pub fn to_legacy(&self) -> (o: Order)
        ensures
            o.id@ == spec_hex_32(state_data(self@).id.0),
            o.status == state_status(self@),
            o.side == legacy_side(state_data(self@).side),
            o.price == state_data(self@).price,
            o.size == state_data(self@).quantity,
            o.filled_size == state_data(self@).filled_quantity,
    {
        order_state_to_legacy(&self.state)
    }

    /// Pending → Open; refused in any other state, which is then kept.
    pub fn acknowledge(&mut self) -> (r: Result<(), String>)
        ensures
            match spec_acknowledge(old(self)@) {
                Some(s) => r is Ok && final(self)@ == s,
                None => final(self)@ == old(self)@ && (r matches Err(m) && m@ == "Can only acknowledge pending orders"@),
            },
    {
        proof {
            use_type_invariant(&*self);
            reveal_strlit("Can only acknowledge pending orders");
        }
        match &self.state {
            OrderState::Pending(d) => {
                let d = *d;
                self.state = OrderState::Open(d);
                Ok(())
            },
            _ => Err(String::from_str("Can only acknowledge pending orders")),
        }
    }

    /// Applies a fill of `fill_quantity` at `fill_price` to an open or partially filled
    /// order (see [`spec_fill`]); a refused fill, or a fill in any other state, keeps
    /// the state.
    pub fn apply_fill(&mut self, fill_quantity: u64, fill_price: u64) -> (r: Result<(), String>)
        ensures
            match old(self)@ {
                OrderState::Open(d) | OrderState::PartiallyFilled(d) => match spec_fill(d, fill_quantity, fill_price) {
                    Ok(s) => r is Ok && final(self)@ == s,
                    Err(e) => final(self)@ == old(self)@ && (r matches Err(m)
                        && m@ == "Fill validation failed: "@ + crate::order_fsm::spec_fill_error_text(e)),
                },
                _ => final(self)@ == old(self)@ && (r matches Err(m) && m@ == "Can only fill Open or PartiallyFilled orders"@),
            },
    {
        proof {
            use_type_invariant(&*self);
            reveal_strlit("Fill validation failed: ");
            reveal_strlit("Can only fill Open or PartiallyFilled orders");
        }
        let d = match &self.state {
            OrderState::Open(d) => *d,
            OrderState::PartiallyFilled(d) => *d,
            _ => return Err(String::from_str("Can only fill Open or PartiallyFilled orders")),
        };
        match fill(d, fill_quantity, fill_price) {
            Ok(next) => {
                self.state = next;
                Ok(())
            },
            Err(e) => {
                let mut msg = String::from_str("Fill validation failed: ");
                let text = e.to_string();
                msg.append(text.as_str());
                Err(msg)
            },
        }
    }

    /// Open or PartiallyFilled → Cancelled; refused in any other state, which is then kept.
    pub fn cancel(&mut self) -> (r: Result<(), String>)
        ensures
            match spec_cancel(old(self)@) {
                Some(s) => r is Ok && final(self)@ == s,
                None => final(self)@ == old(self)@ && (r matches Err(m) && m@ == "Can only cancel Open or PartiallyFilled orders"@),
            },
    {
        proof {
            use_type_invariant(&*self);
            reveal_strlit("Can only cancel Open or PartiallyFilled orders");
        }
        let d = match &self.state {
            OrderState::Open(d) => *d,
            OrderState::PartiallyFilled(d) => *d,
            _ => return Err(String::from_str("Can only cancel Open or PartiallyFilled orders")),
        };
        self.state = OrderState::Cancelled(d);
        Ok(())
    }

    /// Pending → Rejected with a reason; refused in any other state, which is then kept.
    pub fn reject(&mut self, reason: String) -> (r: Result<(), String>)
        ensures
            match old(self)@ {
                OrderState::Pending(d) => r is Ok && final(self)@ == OrderState::Rejected(d, reason),
                _ => final(self)@ == old(self)@ && (r matches Err(m) && m@ == "Can only reject pending orders"@),
            },
    {
        proof {
            use_type_invariant(&*self);
            reveal_strlit("Can only reject pending orders");
        }
        let d = match &self.state {
            OrderState::Pending(d) => *d,
            _ => return Err(String::from_str("Can only reject pending orders")),
        };
        self.state = OrderState::Rejected(d, reason);
        Ok(())
    }

    /// Whether the order can still trade.
    pub fn is_active(&self) -> (r: bool)
        ensures
            r == status_is_active(state_status(self@)),
    {
        self.state.is_active()
    }

    /// Whether the order has reached the end of its lifecycle.
    pub fn is_terminal(&self) -> (r: bool)
        ensures
            r == status_is_terminal(state_status(self@)),
    {
        self.state.is_terminal()
    }

    /// The order's core identifier.
    pub fn id(&self) -> (r: &CoreOrderId)
        ensures
            *r == state_data(self@).id,
    {
        self.state.id()
    }

    /// The order's status.
    pub fn status(&self) -> (r: OrderStatus)
        ensures
            r == state_status(self@),
    {
        self.state.status()
    }
}

/// A terminal order refuses every transition and every fill: it stays as it is.
pub proof fn lemma_terminal_orders_are_final(s: OrderState)
    requires
        status_is_terminal(state_status(s)),
    ensures
        spec_acknowledge(s) is None,
        spec_cancel(s) is None,
        !(s is Open || s is PartiallyFilled),
        !(s is Pending),
{
}

/// `16^k`.
pub open spec fn pow16(k: nat) -> nat
    decreases k,
{
    if k == 0 { 1 } else { 16 * pow16((k - 1) as nat) }
}

/// `16^32 = 2^128`.
proof fn lemma_pow16_32()
    ensures
        pow16(32) == 0x1_0000_0000_0000_0000_0000_0000_0000_0000,
{
    reveal_with_fuel(pow16, 33);
}

/// Powers of 16 grow with the exponent.
proof fn lemma_pow16_mono(a: nat, b: nat)
    requires
        a <= b,
    ensures
        1 <= pow16(a) <= pow16(b),
    decreases b,
{
    if b > 0 {
        if a == b {
            lemma_pow16_mono(0, (b - 1) as nat);
        } else {
            lemma_pow16_mono(a, (b - 1) as nat);
        }
    }
}

/// The lowercase digit character of `d` reads back as `d`.
proof fn lemma_hex_digit_char_val(d: int)
    requires
        0 <= d < 16,
    ensures
        hex_val(hex_digit_char(d)) == Some(d as nat),
{
}

/// Removing the last hex digit: `n mod 16^k` from `n / 16 mod 16^(k-1)` and `n mod 16`.
proof fn lemma_mod_pow16_step(n: nat, k: nat)
    requires
        k >= 1,
    ensures
        (n / 16) % pow16((k - 1) as nat) * 16 + n % 16 == n % pow16(k),
{
    let m = pow16((k - 1) as nat);
    lemma_pow16_mono(0, (k - 1) as nat);
    assert(pow16(k) == 16 * m);
    let q = n / 16;
    let r = n % 16;
    let a = q / m;
    let b = q % m;
    assert(n == 16 * q + r) by (nonlinear_arith)
        requires q == n / 16, r == n % 16;
    assert(q == m * a + b) by (nonlinear_arith)
        requires m >= 1, a == q / m, b == q % m;
    assert(0 <= b < m) by (nonlinear_arith)
        requires m >= 1, b == q % m;
    assert(n == (16 * m) * a + (16 * b + r)) by (nonlinear_arith)
        requires n == 16 * q + r, q == m * a + b;
    assert(0 <= 16 * b + r < 16 * m) by (nonlinear_arith)
        requires 0 <= b < m, 0 <= r < 16;
    vstd::arithmetic::div_mod::lemma_fundamental_div_mod_converse(n as int, (16 * m) as int, a as int, (16 * b + r) as int);
}

/// The last `k` hex digits of `n` read back as `n mod 16^k`.
proof fn lemma_parse_hex_digits(n: nat, k: nat)
    requires
        k <= 32,
    ensures
        parse_hex_digits(spec_hex_digits(n, k)) == Ok::<nat, HexParseError>(n % pow16(k)),
        forall|i: int| 0 <= i < spec_hex_digits(n, k).len() ==> (#[trigger] hex_val(spec_hex_digits(n, k)[i])) is Some,
        spec_hex_digits(n, k).len() == k,
    decreases k,
{
    if k == 0 {
        assert(n % 1 == 0);
    } else {
        let prev = spec_hex_digits(n / 16, (k - 1) as nat);
        lemma_parse_hex_digits(n / 16, (k - 1) as nat);
        let s = spec_hex_digits(n, k);
        let c = hex_digit_char((n % 16) as int);
        assert(s == prev.push(c));
        assert(s.drop_last() =~= prev);
        lemma_hex_digit_char_val((n % 16) as int);
        lemma_mod_pow16_step(n, k);
        let v = (n / 16) % pow16((k - 1) as nat);
        lemma_pow16_mono((k - 1) as nat, 31);
        lemma_pow16_mono(k, 32);
        assert(v < pow16((k - 1) as nat)) by (nonlinear_arith)
            requires pow16((k - 1) as nat) >= 1, v == (n / 16) % pow16((k - 1) as nat);
        assert(v * 16 + n % 16 < pow16(k)) by (nonlinear_arith)
            requires v < pow16((k - 1) as nat), pow16(k) == 16 * pow16((k - 1) as nat), n % 16 < 16;
        lemma_pow16_32();
        assert forall|i: int| 0 <= i < s.len() implies (#[trigger] hex_val(s[i])) is Some by {
            if i < prev.len() {
                assert(s[i] == prev[i]);
            }
        }
    }
}

/// Writing a non-zero core identifier as text and reading it back gives the identifier.
pub proof fn lemma_order_id_round_trip(id: CoreOrderId)
    requires
        id.0 != 0,
    ensures
        spec_legacy_to_core(spec_hex_32(id.0)) == Ok::<CoreOrderId, Seq<char>>(id),
{
    let s = spec_hex_32(id.0);
    lemma_parse_hex_digits(id.0 as nat, 32);
    assert(hex_val(s[1]) is Some);
    assert(hex_val(s[0]) is Some);
    assert(strip_0x(s) == s);
    lemma_pow16_32();
    assert(id.0 as nat % pow16(32) == id.0 as nat);
}

} // verus!

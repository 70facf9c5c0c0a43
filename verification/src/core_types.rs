//! Core trading types: order side, trading signals, the position record and
//! fixed-point helpers (nine decimals).
use vstd::prelude::*;

verus! {

/// Fixed-point scale: one unit is `1_000_000_000`.
pub const SCALE: u64 = 1_000_000_000;

/// `a + b` clamped to the `i64` range.
pub open spec fn spec_sat_add_i64(a: int, b: int) -> i64 {
    if a + b > i64::MAX { i64::MAX } else if a + b < i64::MIN { i64::MIN } else { (a + b) as i64 }
}

/// `a + b` saturating at the `i64` bounds.
pub fn saturating_add_i64(a: i64, b: i64) -> (r: i64)
    ensures
        r == spec_sat_add_i64(a as int, b as int),
{
    let s: i128 = a as i128 + b as i128;
    if s > i64::MAX as i128 {
        i64::MAX
    } else if s < i64::MIN as i128 {
        i64::MIN
    } else {
        s as i64
    }
}

/// `a - b` saturating at the `i64` bounds.
pub fn saturating_sub_i64(a: i64, b: i64) -> (r: i64)
    ensures
        r == spec_sat_add_i64(a as int, -(b as int)),
{
    let s: i128 = a as i128 - b as i128;
    if s > i64::MAX as i128 {
        i64::MAX
    } else if s < i64::MIN as i128 {
        i64::MIN
    } else {
        s as i64
    }
}

/// Side of an order or fill.
#[derive(Clone, Copy, PartialEq, Eq, Structural, Debug)]
pub enum Side {
    Buy,
    Sell,
}

/// What a signal asks the executor to do.
#[derive(Clone, Copy, PartialEq, Eq, Structural, Debug)]
pub enum SignalAction {
    NoAction,
    QuoteBoth,
    QuoteBid,
    QuoteAsk,
    TakePosition,
    CancelAll,
}

/// A trading signal with fixed-point prices and size.
#[derive(Clone, Copy, PartialEq, Eq, Structural, Debug)]
pub struct Signal {
    pub action: SignalAction,
    pub side: Side,
    pub bid_price: u64,
    pub ask_price: u64,
    pub size: u64,
}

impl Signal {
    /// Whether the signal asks for any action at all.
    pub open spec fn spec_requires_action(self) -> bool {
        self.action != SignalAction::NoAction
    }

    /// Whether the signal asks for any action at all.
    pub fn requires_action(&self) -> (r: bool)
        ensures
            r == self.spec_requires_action(),
    {
        !matches!(self.action, SignalAction::NoAction)
    }

    /// A signal that does nothing.
    pub fn no_action() -> (s: Self)
        ensures
            s == (Signal { action: SignalAction::NoAction, side: Side::Buy, bid_price: 0, ask_price: 0, size: 0 }),
    {
        Signal { action: SignalAction::NoAction, side: Side::Buy, bid_price: 0, ask_price: 0, size: 0 }
    }

    /// A signal to cancel every open order.
    pub fn cancel_all() -> (s: Self)
        ensures
            s == (Signal { action: SignalAction::CancelAll, side: Side::Buy, bid_price: 0, ask_price: 0, size: 0 }),
    {
        Signal { action: SignalAction::CancelAll, side: Side::Buy, bid_price: 0, ask_price: 0, size: 0 }
    }

    /// Quote both sides at the given prices and size.
    pub fn quote_both(bid_price: u64, ask_price: u64, size: u64) -> (s: Self)
        ensures
            s == (Signal { action: SignalAction::QuoteBoth, side: Side::Buy, bid_price, ask_price, size }),
    {
        Signal { action: SignalAction::QuoteBoth, side: Side::Buy, bid_price, ask_price, size }
    }

    /// Quote the bid side only.
    pub fn quote_bid(bid_price: u64, size: u64) -> (s: Self)
        ensures
            s == (Signal { action: SignalAction::QuoteBid, side: Side::Buy, bid_price, ask_price: 0, size }),
    {
        Signal { action: SignalAction::QuoteBid, side: Side::Buy, bid_price, ask_price: 0, size }
    }

    /// Quote the ask side only.
    pub fn quote_ask(ask_price: u64, size: u64) -> (s: Self)
        ensures
            s == (Signal { action: SignalAction::QuoteAsk, side: Side::Sell, bid_price: 0, ask_price, size }),
    {
        Signal { action: SignalAction::QuoteAsk, side: Side::Sell, bid_price: 0, ask_price, size }
    }

    /// Take a position of `size` on one side, at no stated price (the price checks are
    /// skipped for zero prices).
    pub fn take_position(side: Side, size: u64) -> (s: Self)
        ensures
            s == (Signal { action: SignalAction::TakePosition, side, bid_price: 0, ask_price: 0, size }),
    {
        Signal { action: SignalAction::TakePosition, side, bid_price: 0, ask_price: 0, size }
    }
}

/// Position record in fixed point: quantity (+long / -short), average entry price,
/// realized and daily PnL, the daily high-water mark of PnL and the number of fills.
#[derive(Clone, Copy, PartialEq, Eq, Structural, Debug)]
pub struct Position {
    pub quantity: i64,
    pub entry_price: u64,
    pub realized_pnl: i64,
    pub daily_pnl: i64,
    pub daily_high_water_mark: i64,
    pub trade_count: u32,
}

/// Why a fill could not be applied to a position.
#[derive(Clone, Copy, PartialEq, Eq, Structural, Debug)]
pub enum PositionError {
    /// The side code is neither 0 (buy) nor 1 (sell).
    InvalidSide,
    /// A quantity or money amount would leave the `i64` range.
    Overflow,
}

/// `a / b` rounded toward zero, for `b > 0`.
pub open spec fn trunc_div(a: int, b: int) -> int {
    if a >= 0 { a / b } else { -((-a) / b) }
}

/// Absolute value.
pub open spec fn abs(a: int) -> int {
    if a >= 0 { a } else { -a }
}

/// Whether an integer fits in `i64`.
pub open spec fn fits_i64(a: int) -> bool {
    i64::MIN <= a <= i64::MAX
}

/// Signed size of a fill: plus for a buy (side 0), minus for a sell.
pub open spec fn signed_size(side: u8, size: u64) -> int {
    if side == 0 { size as int } else { -(size as int) }
}

/// Whether a fill reduces the position (it trades against the current side).
pub open spec fn fill_reduces(q: int, side: u8) -> bool {
    (q > 0 && side != 0) || (q < 0 && side == 0)
}

/// Value of `size` at `price`, in fixed point.
pub open spec fn fill_notional(price: u64, size: u64) -> int {
    (price as int * size as int) / (SCALE as int)
}

/// Fee of a fill: the notional times `fee_sub_bps` hundredths of a basis point.
pub open spec fn fill_fee(price: u64, size: u64, fee_sub_bps: i32) -> int {
    trunc_div(fill_notional(price, size) * fee_sub_bps, 1_000_000)
}

/// PnL realized by a fill: the closed quantity times the move from the entry price,
/// in the direction of the position.
pub open spec fn fill_pnl(p: Position, side: u8, price: u64, size: u64) -> int {
    let q = p.quantity as int;
    if fill_reduces(q, side) {
        let closed = if abs(q) < size { abs(q) } else { size as int };
        let dir = if q > 0 { 1int } else { -1int };
        trunc_div((price as int - p.entry_price as int) * closed * dir, SCALE as int)
    } else {
        0
    }
}

/// Entry price after a fill: a volume-weighted average when the position grows, the
/// fill price when it flips side, unchanged when it shrinks, zero when flat.
pub open spec fn fill_entry_price(p: Position, side: u8, price: u64, size: u64) -> int {
    let q = p.quantity as int;
    let nq = q + signed_size(side, size);
    if nq == 0 {
        0
    } else if !fill_reduces(q, side) {
        (abs(q) * p.entry_price as int + size as int * price as int) / abs(nq)
    } else if size as int > abs(q) {
        price as int
    } else {
        p.entry_price as int
    }
}

/// Position after a fill of `size` at `price` on side `side` (0 buy, 1 sell), paying a fee
/// of `fee_sub_bps` hundredths of a basis point of the notional: the quantity moves by
/// the size, the realized and daily PnL gain the realized PnL less the fee, and one more
/// trade is counted. Fails on another side code, or when the new quantity, the
/// notional, the fee or either PnL would leave the `i64` range.
pub open spec fn spec_apply_fill(p: Position, side: u8, price: u64, size: u64, fee_sub_bps: i32) -> Result<Position, PositionError> {
    let nq = p.quantity as int + signed_size(side, size);
    let pnl = fill_pnl(p, side, price, size);
    let fee = fill_fee(price, size, fee_sub_bps);
    let realized = p.realized_pnl as int + pnl - fee;
    let daily = p.daily_pnl as int + pnl - fee;
    if side > 1 {
        Err(PositionError::InvalidSide)
    } else if !fits_i64(nq) || !fits_i64(fill_notional(price, size)) || !fits_i64(realized) || !fits_i64(daily) {
        Err(PositionError::Overflow)
    } else {
        Ok(Position {
            quantity: nq as i64,
            entry_price: fill_entry_price(p, side, price, size) as u64,
            realized_pnl: realized as i64,
            daily_pnl: daily as i64,
            trade_count: p.trade_count.wrapping_add(1),
            ..p
        })
    }
}

/// `a` clamped to the `i64` range.
pub open spec fn clamp_i64(a: int) -> i64 {
    if a > i64::MAX { i64::MAX } else if a < i64::MIN { i64::MIN } else { a as i64 }
}

/// Unrealized PnL of a position marked at `mark_price` (clamped to the `i64` range).
pub open spec fn spec_unrealized_pnl(p: Position, mark_price: u64) -> i64 {
    if p.quantity == 0 {
        0
    } else {
        clamp_i64(trunc_div((mark_price as int - p.entry_price as int) * p.quantity as int, SCALE as int))
    }
}

/// Truncating division of an `i128` by a positive divisor, as Rust computes it.
fn div_i128(a: i128, b: i128) -> (r: i128)
    requires
        b > 0,
        a > i128::MIN,
    ensures
        r == trunc_div(a as int, b as int),
{
    if a >= 0 {
        a / b
    } else {
        -((-a) / b)
    }
}

/// A product of two bounded integers is bounded by the product of the bounds.
proof fn lemma_mul_bounded(a: int, b: int, x: int, y: int)
    requires
        -x <= a <= x,
        -y <= b <= y,
    ensures
        -(x * y) <= a * b <= x * y,
{
    assert(-(x * y) <= a * b <= x * y) by (nonlinear_arith)
        requires -x <= a <= x, -y <= b <= y;
}

impl Position {
    /// Flat position with no PnL and no trades.
    pub open spec fn spec_new() -> Position {
        Position { quantity: 0, entry_price: 0, realized_pnl: 0, daily_pnl: 0, daily_high_water_mark: 0, trade_count: 0 }
    }

    /// Flat position with no PnL and no trades.
    pub fn new() -> (p: Self)
        ensures
            p == Position::spec_new(),
    {
        Position { quantity: 0, entry_price: 0, realized_pnl: 0, daily_pnl: 0, daily_high_water_mark: 0, trade_count: 0 }
    }

    /// Position with the given quantity and PnL figures.
    pub fn from_parts(quantity: i64, realized_pnl: i64, daily_pnl: i64) -> (p: Self)
        ensures
            p == (Position { quantity, entry_price: 0, realized_pnl, daily_pnl, daily_high_water_mark: 0, trade_count: 0 }),
    {
        Position { quantity, entry_price: 0, realized_pnl, daily_pnl, daily_high_water_mark: 0, trade_count: 0 }
    }

    /// Current quantity.
    pub fn get_quantity(&self) -> (r: i64)
        ensures
            r == self.quantity,
    {
        self.quantity
    }

    /// Average entry price of the open quantity.
    pub fn get_entry_price(&self) -> (r: u64)
        ensures
            r == self.entry_price,
    {
        self.entry_price
    }

    /// Realized PnL since start.
    pub fn get_realized_pnl(&self) -> (r: i64)
        ensures
            r == self.realized_pnl,
    {
        self.realized_pnl
    }

    /// Realized PnL of the current day.
    pub fn get_daily_pnl(&self) -> (r: i64)
        ensures
            r == self.daily_pnl,
    {
        self.daily_pnl
    }

    /// Number of fills applied.
    pub fn get_trade_count(&self) -> (r: u32)
        ensures
            r == self.trade_count,
    {
        self.trade_count
    }

    /// Adds `delta` to the quantity (wrapping at the `i64` bounds).
    pub fn update_quantity(&mut self, delta: i64)
        ensures
            *final(self) == (Position { quantity: old(self).quantity.wrapping_add(delta), ..*old(self) }),
    {
        self.quantity = self.quantity.wrapping_add(delta);
    }

    /// Adds `delta` to the realized PnL (wrapping at the `i64` bounds).
    pub fn update_realized_pnl(&mut self, delta: i64)
        ensures
            *final(self) == (Position { realized_pnl: old(self).realized_pnl.wrapping_add(delta), ..*old(self) }),
    {
        self.realized_pnl = self.realized_pnl.wrapping_add(delta);
    }

    /// Adds `delta` to the daily PnL (wrapping at the `i64` bounds).
    pub fn update_daily_pnl(&mut self, delta: i64)
        ensures
            *final(self) == (Position { daily_pnl: old(self).daily_pnl.wrapping_add(delta), ..*old(self) }),
    {
        self.daily_pnl = self.daily_pnl.wrapping_add(delta);
    }

    /// Start a new day: daily PnL back to zero.
    pub fn reset_daily_pnl(&mut self)
        ensures
            *final(self) == (Position { daily_pnl: 0, ..*old(self) }),
    {
        self.daily_pnl = 0;
    }

    /// Raise the daily high-water mark to `pnl` if it is higher.
    pub fn update_daily_high_water_mark(&mut self, pnl: i64)
        ensures
            *final(self) == (Position {
                daily_high_water_mark: if pnl > old(self).daily_high_water_mark { pnl } else { old(self).daily_high_water_mark },
                ..*old(self)
            }),
    {
        if pnl > self.daily_high_water_mark {
            self.daily_high_water_mark = pnl;
        }
    }

    /// Unrealized PnL marked at `mark_price`: the move from the entry price times the
    /// quantity, in fixed point.
    /// Average entry price of the open position; `None` when flat.
    pub fn avg_entry_price(&self) -> (r: Option<u64>)
        ensures
            r == (if self.quantity != 0 { Some(self.entry_price) } else { None::<u64> }),
    {
        if self.quantity != 0 {
            Some(self.entry_price)
        } else {
            None
        }
    }

    /// Unrealized PnL of the open position at `market_price` (0 when flat).
    pub fn unrealized_pnl(&self, market_price: u64) -> (r: i64)
        ensures
            r == spec_unrealized_pnl(*self, market_price),
            self.quantity == 0 ==> r == 0,
    {
        self.get_unrealized_pnl(market_price)
    }

    /// Total PnL: the realized PnL.
    pub fn total_pnl(&self) -> (r: i64)
        ensures
            r == self.realized_pnl,
    {
        self.realized_pnl
    }

    /// Whether the position is flat.
    pub fn is_flat(&self) -> (r: bool)
        ensures
            r == (self.quantity == 0),
    {
        self.quantity == 0
    }

    /// Whether the position is long.
    pub fn is_long(&self) -> (r: bool)
        ensures
            r == (self.quantity > 0),
    {
        self.quantity > 0
    }

    /// Whether the position is short.
    pub fn is_short(&self) -> (r: bool)
        ensures
            r == (self.quantity < 0),
    {
        self.quantity < 0
    }

    pub fn get_unrealized_pnl(&self, mark_price: u64) -> (r: i64)
        ensures
            r == spec_unrealized_pnl(*self, mark_price),
    {
        if self.quantity == 0 {
            return 0;
        }
        let diff: i128 = mark_price as i128 - self.entry_price as i128;
        let q: i128 = self.quantity as i128;
        proof {
            lemma_mul_bounded(diff as int, q as int, 0xffff_ffff_ffff_ffffint, 0x8000_0000_0000_0000int);
        }
        let v = div_i128(diff * q, SCALE as i128);
        if v > i64::MAX as i128 {
            i64::MAX
        } else if v < i64::MIN as i128 {
            i64::MIN
        } else {
            v as i64
        }
    }

    /// Applies a fill of `size` at `price` on side `side` (0 buy, 1 sell) with a fee of
    /// `fee_sub_bps` hundredths of a basis point; the position is unchanged on failure.
    pub fn process_fill_fixed_with_fee(&mut self, side: u8, price: u64, size: u64, fee_sub_bps: i32) -> (r: Result<(), PositionError>)
        ensures
            match spec_apply_fill(*old(self), side, price, size, fee_sub_bps) {
                Ok(np) => r is Ok && *final(self) == np,
                Err(e) => r == Err::<(), PositionError>(e) && *final(self) == *old(self),
            },
    {
        if side > 1 {
            return Err(PositionError::InvalidSide);
        }
        let q: i128 = self.quantity as i128;
        let s: i128 = size as i128;
        let nq: i128 = if side == 0 { q + s } else { q - s };
        if nq > i64::MAX as i128 || nq < i64::MIN as i128 {
            return Err(PositionError::Overflow);
        }
        let p128: u128 = price as u128;
        let s128: u128 = size as u128;
        assert(p128 * s128 <= u64::MAX as int * u64::MAX as int) by (nonlinear_arith)
            requires p128 <= u64::MAX, s128 <= u64::MAX;
        let notional_u: u128 = (p128 * s128) / (SCALE as u128);
        if notional_u > i64::MAX as u128 {
            return Err(PositionError::Overflow);
        }
        let notional: i128 = notional_u as i128;
        let fsb: i128 = fee_sub_bps as i128;
        proof {
            lemma_mul_bounded(notional as int, fsb as int, 0x8000_0000_0000_0000int, 0x8000_0000int);
        }
        let fee: i128 = div_i128(notional * fsb, 1_000_000);
        let reduces = (q > 0 && side != 0) || (q < 0 && side == 0);
        let absq: i128 = if q >= 0 { q } else { -q };
        let pnl: i128 = if reduces {
            let closed: i128 = if absq < s { absq } else { s };
            let dir: i128 = if q > 0 { 1 } else { -1 };
            let move_: i128 = price as i128 - self.entry_price as i128;
            proof {
                lemma_mul_bounded(move_ as int, closed as int, 0xffff_ffff_ffff_ffffint, 0x8000_0000_0000_0000int);
            }
            let m: i128 = move_ * closed;
            let signed: i128 = if dir > 0 { m } else { -m };
            assert(signed == move_ * closed * dir) by (nonlinear_arith)
                requires m == move_ * closed, dir == 1 || dir == -1, dir > 0 ==> signed == m, dir <= 0 ==> signed == -m;
            div_i128(signed, SCALE as i128)
        } else {
            0
        };
        let realized: i128 = self.realized_pnl as i128 + pnl - fee;
        let daily: i128 = self.daily_pnl as i128 + pnl - fee;
        if realized > i64::MAX as i128 || realized < i64::MIN as i128 || daily > i64::MAX as i128 || daily < i64::MIN as i128 {
            return Err(PositionError::Overflow);
        }
        let absnq: i128 = if nq >= 0 { nq } else { -nq };
        let entry: u64 = if nq == 0 {
            0
        } else if !reduces {
            let e128: u128 = self.entry_price as u128;
            let aq: u128 = absq as u128;
            assert(aq + s128 == absnq);
            assert(aq * e128 + s128 * p128 <= absnq * u64::MAX as int) by (nonlinear_arith)
                requires e128 <= u64::MAX, p128 <= u64::MAX, aq + s128 == absnq, aq >= 0, s128 >= 0;
            assert(absnq * u64::MAX as int <= 0x8000_0000_0000_0000int * u64::MAX as int) by (nonlinear_arith)
                requires 0 < absnq <= 0x8000_0000_0000_0000int;
            let weighted: u128 = aq * e128 + s128 * p128;
            let avg: u128 = weighted / (absnq as u128);
            assert(avg <= u64::MAX) by (nonlinear_arith)
                requires weighted <= absnq * u64::MAX as int, absnq > 0, avg as int == weighted as int / absnq as int;
            avg as u64
        } else if s > absq {
            price
        } else {
            self.entry_price
        };
        self.quantity = nq as i64;
        self.entry_price = entry;
        self.realized_pnl = realized as i64;
        self.daily_pnl = daily as i64;
        self.trade_count = self.trade_count.wrapping_add(1);
        Ok(())
    }
}

/// Identifier of an order, unique with overwhelming probability.
#[derive(Clone, Copy, PartialEq, Eq, Structural, Debug)]
pub struct OrderId(pub u128);

/// `rand::random::<u128>()`: a uniformly random 128-bit number from the thread-local
/// generator. Depends on chance: no value is promised.
#[verifier::external_body]
pub(crate) fn random_u128() -> u128 {
    rand::random::<u128>()
}

impl OrderId {
    /// A fresh random order id.
    pub fn generate() -> OrderId {
        OrderId(random_u128())
    }
}

/// Buying and then selling the same size at the same price, without fees, brings a flat
/// position back to flat with its PnL unchanged and two more trades counted.
pub proof fn lemma_round_trip_at_one_price(p: Position, price: u64, size: u64)
    requires
        p.quantity == 0,
        0 < size <= i64::MAX,
        fill_notional(price, size) <= i64::MAX,
        p.trade_count < u32::MAX - 1,
    ensures
        spec_apply_fill(p, 0, price, size, 0) is Ok,
        ({
            let p1 = spec_apply_fill(p, 0, price, size, 0)->Ok_0;
            &&& p1.quantity == size
            &&& p1.entry_price == price
            &&& spec_apply_fill(p1, 1, price, size, 0) is Ok
            &&& ({
                let p2 = spec_apply_fill(p1, 1, price, size, 0)->Ok_0;
                &&& p2.quantity == 0
                &&& p2.entry_price == 0
                &&& p2.realized_pnl == p.realized_pnl
                &&& p2.daily_pnl == p.daily_pnl
                &&& p2.trade_count == p.trade_count + 2
            })
        }),
{
    assert(fill_notional(price, size) >= 0) by (nonlinear_arith)
        requires fill_notional(price, size) == (price as int * size as int) / (SCALE as int);
    assert(fill_fee(price, size, 0) == 0) by (nonlinear_arith)
        requires fill_fee(price, size, 0) == trunc_div(fill_notional(price, size) * 0, 1_000_000);
    assert((0 * p.entry_price as int + size as int * price as int) / size as int == price as int) by (nonlinear_arith)
        requires size > 0;
    let p1 = spec_apply_fill(p, 0, price, size, 0)->Ok_0;
    assert(fill_pnl(p1, 1, price, size) == 0) by (nonlinear_arith)
        requires
            p1.entry_price == price,
            fill_pnl(p1, 1, price, size) == trunc_div((price as int - p1.entry_price as int) * size as int * 1, SCALE as int);
}

} // verus!

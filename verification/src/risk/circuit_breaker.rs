//! Circuit breaker for flash crashes and market anomalies.
//!
//! Each snapshot is checked, in order, for an excessive spread, an excessive move of
//! the mid price since the last accepted tick, thin liquidity and stale data. Spread
//! and price anomalies count as violations; the third consecutive violation halts
//! trading until a manual reset. Thin or stale ticks are skipped without a violation.
use vstd::prelude::*;
use vstd::string::StringExecFns;
use crate::clock::unix_now_ns;
use crate::data::MarketSnapshot;
use crate::text::{dec_digits, dec_signed, push_i64, push_u64};

verus! {

/// Maximum spread in basis points before a violation (1%).
pub const MAX_SPREAD_BPS: u64 = 100;

/// Maximum change of the mid price between accepted ticks, in percent.
pub const MAX_PRICE_CHANGE_PCT: u64 = 10;

/// Minimum best bid and best ask size (0.01 in nine-decimal fixed point).
pub const MIN_LIQUIDITY: u64 = 10_000_000;

/// Maximum data age in nanoseconds (5 seconds).
pub const MAX_DATA_AGE_NS: i64 = 5_000_000_000;

/// Consecutive violations that halt trading.
pub const CONSECUTIVE_VIOLATIONS_THRESHOLD: u32 = 3;

/// Reason for a halt.
#[derive(Clone, Copy, PartialEq, Eq, Structural, Debug)]
pub enum HaltReason {
    /// Spread exceeded the maximum.
    ExcessiveSpread { spread_bps: u64, max_bps: u64 },
    /// Mid price moved more than the maximum in one tick.
    ExcessivePriceMove { change_pct: u64, max_pct: u64 },
    /// Best bid or best ask size below the minimum.
    InsufficientLiquidity { min_size: u64, actual_bid: u64, actual_ask: u64 },
    /// Market data older than the maximum age.
    StaleData { age_ms: i64, max_age_ms: i64 },
    /// Operator command.
    Manual,
}

/// Circuit breaker state.
#[derive(Clone, Copy, PartialEq, Eq, Structural, Debug)]
pub enum BreakerState {
    /// Safe to trade.
    Normal,
    /// Trading halted.
    Halted(HaltReason),
}

/// Text of a halt reason.
pub open spec fn spec_halt_text(r: HaltReason) -> Seq<char> {
    match r {
        HaltReason::ExcessiveSpread { spread_bps, max_bps } =>
            "Excessive spread: "@ + dec_digits(spread_bps as nat) + "bps (max: "@ + dec_digits(max_bps as nat) + "bps)"@,
        HaltReason::ExcessivePriceMove { change_pct, max_pct } =>
            "Excessive price move: "@ + dec_digits(change_pct as nat) + "% (max: "@ + dec_digits(max_pct as nat) + "%)"@,
        HaltReason::InsufficientLiquidity { min_size, actual_bid, actual_ask } =>
            "Insufficient liquidity: bid="@ + dec_digits(actual_bid as nat) + ", ask="@ + dec_digits(actual_ask as nat)
                + " (min: "@ + dec_digits(min_size as nat) + ")"@,
        HaltReason::StaleData { age_ms, max_age_ms } =>
            "Stale data: "@ + dec_signed(age_ms as int) + "ms old (max: "@ + dec_signed(max_age_ms as int) + "ms)"@,
        HaltReason::Manual => "Manual halt"@,
    }
}

impl HaltReason {
    /// Human-readable description of the reason.
    pub fn to_string(&self) -> (s: String)
        ensures
            s@ == spec_halt_text(*self),
    {
        let mut s = String::new();
        match *self {
            HaltReason::ExcessiveSpread { spread_bps, max_bps } => {
                s.append("Excessive spread: ");
                push_u64(&mut s, spread_bps);
                s.append("bps (max: ");
                push_u64(&mut s, max_bps);
                s.append("bps)");
            },
            HaltReason::ExcessivePriceMove { change_pct, max_pct } => {
                s.append("Excessive price move: ");
                push_u64(&mut s, change_pct);
                s.append("% (max: ");
                push_u64(&mut s, max_pct);
                s.append("%)");
            },
            HaltReason::InsufficientLiquidity { min_size, actual_bid, actual_ask } => {
                s.append("Insufficient liquidity: bid=");
                push_u64(&mut s, actual_bid);
                s.append(", ask=");
                push_u64(&mut s, actual_ask);
                s.append(" (min: ");
                push_u64(&mut s, min_size);
                s.append(")");
            },
            HaltReason::StaleData { age_ms, max_age_ms } => {
                s.append("Stale data: ");
                push_i64(&mut s, age_ms);
                s.append("ms old (max: ");
                push_i64(&mut s, max_age_ms);
                s.append("ms)");
            },
            HaltReason::Manual => {
                s.append("Manual halt");
            },
        }
        s
    }
}

/// Abstract state of a [`CircuitBreaker`].
pub struct BreakerModel {
    pub state: BreakerState,
    pub last_mid_price: Option<u64>,
    pub last_check_ns: u64,
    pub consecutive_violations: u32,
    pub total_trips: u64,
    pub last_trip_reason: Option<HaltReason>,
}

/// A fresh breaker: normal, nothing recorded.
pub open spec fn initial_breaker() -> BreakerModel {
    BreakerModel {
        state: BreakerState::Normal,
        last_mid_price: None,
        last_check_ns: 0,
        consecutive_violations: 0,
        total_trips: 0,
        last_trip_reason: None,
    }
}

/// Mid price as the breaker computes it: the floor of the mean, without overflow.
pub open spec fn spec_breaker_mid(bid: int, ask: int) -> int {
    bid / 2 + ask / 2 + (bid % 2 + ask % 2) / 2
}

/// Absolute difference.
pub open spec fn abs_diff(a: int, b: int) -> int {
    if a > b { a - b } else { b - a }
}

/// Spread violation of a valid quote (`0 < bid < ask`), if any.
pub open spec fn spec_spread_violation(bid: int, ask: int) -> Option<HaltReason> {
    let bps = (ask - bid) * 10_000 / bid;
    if bps > MAX_SPREAD_BPS {
        Some(HaltReason::ExcessiveSpread { spread_bps: bps as u64, max_bps: MAX_SPREAD_BPS })
    } else {
        None
    }
}

/// Price-move violation of a new mid against the last accepted mid, if any.
pub open spec fn spec_price_violation(last: Option<u64>, mid: int) -> Option<HaltReason> {
    match last {
        Some(l) => {
            if l == 0 {
                None
            } else {
                let pct = abs_diff(mid, l as int) * 100 / (l as int);
                if pct > MAX_PRICE_CHANGE_PCT {
                    Some(HaltReason::ExcessivePriceMove { change_pct: pct as u64, max_pct: MAX_PRICE_CHANGE_PCT })
                } else {
                    None
                }
            }
        },
        None => None,
    }
}

/// The violation a valid quote raises: the spread is checked first, then the price move.
pub open spec fn spec_violation(m: BreakerModel, bid: int, ask: int) -> Option<HaltReason> {
    match spec_spread_violation(bid, ask) {
        Some(r) => Some(r),
        None => spec_price_violation(m.last_mid_price, spec_breaker_mid(bid, ask)),
    }
}

/// Whether the quote of a snapshot is usable: both prices positive and not crossed or locked.
pub open spec fn quote_valid(snap: MarketSnapshot) -> bool {
    snap.best_bid_price > 0 && snap.best_ask_price > 0 && snap.best_ask_price > snap.best_bid_price
}

/// Whether the data is older than the maximum age at wall-clock time `now_ns`
/// (a timestamp in the future is never stale).
pub open spec fn spec_is_stale(snap: MarketSnapshot, now_ns: u64) -> bool {
    now_ns >= snap.exchange_timestamp_ns && now_ns - snap.exchange_timestamp_ns > MAX_DATA_AGE_NS
}

/// Whether both best sizes reach the minimum liquidity.
pub open spec fn liquidity_ok(snap: MarketSnapshot) -> bool {
    snap.best_bid_size >= MIN_LIQUIDITY && snap.best_ask_size >= MIN_LIQUIDITY
}

/// State and answer after a violation.
pub open spec fn spec_trip(m: BreakerModel, reason: HaltReason) -> (BreakerModel, BreakerState) {
    let c = m.consecutive_violations + 1;
    if c >= CONSECUTIVE_VIOLATIONS_THRESHOLD {
        (BreakerModel {
            state: BreakerState::Halted(reason),
            consecutive_violations: c as u32,
            total_trips: (m.total_trips + 1) as u64,
            last_trip_reason: Some(reason),
            ..m
        }, BreakerState::Halted(reason))
    } else {
        (BreakerModel { consecutive_violations: c as u32, ..m }, BreakerState::Normal)
    }
}

/// State and answer after checking a snapshot at wall-clock time `now_ns`.
pub open spec fn spec_check(m: BreakerModel, snap: MarketSnapshot, now_ns: u64) -> (BreakerModel, BreakerState) {
    let bid = snap.best_bid_price as int;
    let ask = snap.best_ask_price as int;
    if m.state is Halted {
        (m, m.state)
    } else if !quote_valid(snap) {
        (m, BreakerState::Normal)
    } else if spec_violation(m, bid, ask) is Some {
        spec_trip(m, spec_violation(m, bid, ask)->0)
    } else if !liquidity_ok(snap) || spec_is_stale(snap, now_ns) {
        (m, BreakerState::Normal)
    } else {
        (BreakerModel {
            last_mid_price: Some(spec_breaker_mid(bid, ask) as u64),
            last_check_ns: snap.exchange_timestamp_ns,
            consecutive_violations: 0,
            ..m
        }, BreakerState::Normal)
    }
}

/// Whether checking `snap` stays within `u64` arithmetic: the spread in basis points,
/// the price move in percent and the trip count all fit.
pub open spec fn check_in_range(m: BreakerModel, snap: MarketSnapshot) -> bool {
    let bid = snap.best_bid_price as int;
    let ask = snap.best_ask_price as int;
    (m.state is Normal && quote_valid(snap)) ==> {
        &&& (ask - bid) * 10_000 <= u64::MAX
        &&& (spec_spread_violation(bid, ask) is None && m.last_mid_price is Some)
                ==> abs_diff(spec_breaker_mid(bid, ask), m.last_mid_price->0 as int) * 100 <= u64::MAX
        &&& (spec_violation(m, bid, ask) is Some && m.consecutive_violations + 1 >= CONSECUTIVE_VIOLATIONS_THRESHOLD)
                ==> m.total_trips < u64::MAX
    }
}

/// Flash-crash circuit breaker. Once halted it stays halted until [`CircuitBreaker::reset`].
pub struct CircuitBreaker {
    state: BreakerState,
    last_mid_price: Option<u64>,
    last_check_ns: u64,
    consecutive_violations: u32,
    total_trips: u64,
    last_trip_reason: Option<HaltReason>,
}

impl View for CircuitBreaker {
    type V = BreakerModel;

    closed spec fn view(&self) -> BreakerModel {
        BreakerModel {
            state: self.state,
            last_mid_price: self.last_mid_price,
            last_check_ns: self.last_check_ns,
            consecutive_violations: self.consecutive_violations,
            total_trips: self.total_trips,
            last_trip_reason: self.last_trip_reason,
        }
    }
}

impl CircuitBreaker {
    /// While trading is allowed, fewer violations than the threshold have been counted.
    #[verifier::type_invariant]
    spec fn wf(self) -> bool {
        self.state is Normal ==> self.consecutive_violations < CONSECUTIVE_VIOLATIONS_THRESHOLD
    }

    /// A breaker in the normal state with nothing recorded.
    pub fn new() -> (b: Self)
        ensures
            b@ == initial_breaker(),
    {
        CircuitBreaker {
            state: BreakerState::Normal,
            last_mid_price: None,
            last_check_ns: 0,
            consecutive_violations: 0,
            total_trips: 0,
            last_trip_reason: None,
        }
    }

    /// Whether checking `snapshot` stays within `u64` arithmetic (see [`check_in_range`]).
    pub fn in_range(&self, snapshot: &MarketSnapshot) -> (r: bool)
        ensures
            r == check_in_range(self@, *snapshot),
    {
        let bid = snapshot.best_bid_price;
        let ask = snapshot.best_ask_price;
        if !matches!(self.state, BreakerState::Normal) || bid == 0 || ask == 0 || ask <= bid {
            return true;
        }
        let max: u128 = 0xffff_ffff_ffff_ffff;
        if ((ask - bid) as u128) * 10_000 > max {
            return false;
        }
        let spread_bps = (((ask - bid) as u128) * 10_000) / (bid as u128);
        let spread_violation = spread_bps > MAX_SPREAD_BPS as u128;
        let mid = bid / 2 + ask / 2 + (bid % 2 + ask % 2) / 2;
        let mut price_violation = false;
        if !spread_violation {
            if let Some(l) = self.last_mid_price {
                let change = if mid > l { mid - l } else { l - mid };
                if (change as u128) * 100 > max {
                    return false;
                }
                if l != 0 && ((change as u128) * 100) / (l as u128) > MAX_PRICE_CHANGE_PCT as u128 {
                    price_violation = true;
                }
            }
        }
        if (spread_violation || price_violation) && self.consecutive_violations as u64 + 1 >= CONSECUTIVE_VIOLATIONS_THRESHOLD as u64 {
            return self.total_trips < u64::MAX;
        }
        true
    }

    /// Checks a snapshot against the wall clock and returns the resulting state.
    pub fn check(&mut self, snapshot: &MarketSnapshot) -> (r: BreakerState)
        requires
            check_in_range(old(self)@, *snapshot),
        ensures
            exists|now_ns: u64| (final(self)@, r) == spec_check(old(self)@, *snapshot, now_ns),
    {
        let now_ns = unix_now_ns();
        self.check_at(snapshot, now_ns)
    }

    /// Checks a snapshot at wall-clock time `now_ns` (nanoseconds since the Unix epoch):
    /// a halted breaker stays halted; an unusable quote is skipped; a spread or price
    /// anomaly counts a violation and halts at the threshold; a thin or stale tick is
    /// skipped; otherwise the tick is accepted and the violation count cleared.
    pub fn check_at(&mut self, snapshot: &MarketSnapshot, now_ns: u64) -> (r: BreakerState)
        requires
            check_in_range(old(self)@, *snapshot),
        ensures
            (final(self)@, r) == spec_check(old(self)@, *snapshot, now_ns),
    {
        proof {
            use_type_invariant(&*self);
        }
        if let BreakerState::Halted(reason) = self.state {
            return BreakerState::Halted(reason);
        }
        let bid = snapshot.best_bid_price;
        let ask = snapshot.best_ask_price;
        if bid == 0 || ask == 0 || ask <= bid {
            return BreakerState::Normal;
        }
        if let Some(reason) = self.check_spread(bid, ask) {
            return self.trip(reason);
        }
        let mid = bid / 2 + ask / 2 + (bid % 2 + ask % 2) / 2;
        if let Some(reason) = self.check_price_movement(mid) {
            return self.trip(reason);
        }
        if self.check_liquidity(snapshot).is_some() {
            return BreakerState::Normal;
        }
        if self.check_staleness(snapshot, now_ns).is_some() {
            return BreakerState::Normal;
        }
        self.last_mid_price = Some(mid);
        self.last_check_ns = snapshot.exchange_timestamp_ns;
        self.consecutive_violations = 0;
        BreakerState::Normal
    }

    /// Spread violation of a valid quote.
    fn check_spread(&self, bid: u64, ask: u64) -> (r: Option<HaltReason>)
        requires
            0 < bid < ask,
            (ask - bid) * 10_000 <= u64::MAX,
        ensures
            r == spec_spread_violation(bid as int, ask as int),
    {
        let spread = ask - bid;
        let spread_bps = (spread * 10_000) / bid;
        if spread_bps > MAX_SPREAD_BPS {
            Some(HaltReason::ExcessiveSpread { spread_bps, max_bps: MAX_SPREAD_BPS })
        } else {
            None
        }
    }

    /// Price-move violation of a new mid against the last accepted one.
    fn check_price_movement(&self, current_mid: u64) -> (r: Option<HaltReason>)
        requires
            self@.last_mid_price is Some ==> abs_diff(current_mid as int, self@.last_mid_price->0 as int) * 100 <= u64::MAX,
        ensures
            r == spec_price_violation(self@.last_mid_price, current_mid as int),
    {
        if let Some(last_mid) = self.last_mid_price {
            if last_mid == 0 {
                return None;
            }
            let change = if current_mid > last_mid { current_mid - last_mid } else { last_mid - current_mid };
            let change_pct = (change * 100) / last_mid;
            if change_pct > MAX_PRICE_CHANGE_PCT {
                return Some(HaltReason::ExcessivePriceMove { change_pct, max_pct: MAX_PRICE_CHANGE_PCT });
            }
        }
        None
    }

    /// Thin-book reason, if either best size is below the minimum.
    fn check_liquidity(&self, snapshot: &MarketSnapshot) -> (r: Option<HaltReason>)
        ensures
            r is Some <==> !liquidity_ok(*snapshot),
    {
        let bid_size = snapshot.best_bid_size;
        let ask_size = snapshot.best_ask_size;
        if bid_size < MIN_LIQUIDITY || ask_size < MIN_LIQUIDITY {
            Some(HaltReason::InsufficientLiquidity { min_size: MIN_LIQUIDITY, actual_bid: bid_size, actual_ask: ask_size })
        } else {
            None
        }
    }

    /// Staleness reason at wall-clock time `now_ns`, if the data is too old.
    fn check_staleness(&self, snapshot: &MarketSnapshot, now_ns: u64) -> (r: Option<HaltReason>)
        ensures
            r is Some <==> spec_is_stale(*snapshot, now_ns),
    {
        if now_ns < snapshot.exchange_timestamp_ns {
            return None;
        }
        let age_ns = now_ns - snapshot.exchange_timestamp_ns;
        if age_ns > 5_000_000_000u64 {
            Some(HaltReason::StaleData { age_ms: (age_ns / 1_000_000) as i64, max_age_ms: MAX_DATA_AGE_NS / 1_000_000 })
        } else {
            None
        }
    }

    /// Counts a violation and halts at the threshold.
    fn trip(&mut self, reason: HaltReason) -> (r: BreakerState)
        requires
            old(self)@.state is Normal,
            old(self)@.consecutive_violations + 1 >= CONSECUTIVE_VIOLATIONS_THRESHOLD ==> old(self)@.total_trips < u64::MAX,
        ensures
            (final(self)@, r) == spec_trip(old(self)@, reason),
    {
        proof {
            use_type_invariant(&*self);
        }
        let count = self.consecutive_violations + 1;
        if count >= CONSECUTIVE_VIOLATIONS_THRESHOLD {
            self.state = BreakerState::Halted(reason);
            self.consecutive_violations = count;
            self.last_trip_reason = Some(reason);
            self.total_trips = self.total_trips + 1;
            BreakerState::Halted(reason)
        } else {
            self.consecutive_violations = count;
            BreakerState::Normal
        }
    }

    /// Manual reset: a halted breaker returns to normal with no violations counted.
    pub fn reset(&mut self)
        ensures
            old(self)@.state is Halted ==> final(self)@ == (BreakerModel {
                state: BreakerState::Normal,
                consecutive_violations: 0,
                ..old(self)@
            }),
            old(self)@.state is Normal ==> final(self)@ == old(self)@,
    {
        if let BreakerState::Halted(_) = self.state {
            self.consecutive_violations = 0;
            self.state = BreakerState::Normal;
        }
    }

    /// Manual halt by the operator.
    pub fn manual_halt(&mut self)
        requires
            old(self)@.total_trips < u64::MAX,
        ensures
            final(self)@ == (BreakerModel {
                state: BreakerState::Halted(HaltReason::Manual),
                total_trips: (old(self)@.total_trips + 1) as u64,
                ..old(self)@
            }),
    {
        self.state = BreakerState::Halted(HaltReason::Manual);
        self.total_trips = self.total_trips + 1;
    }

    /// Current state.
    pub fn state(&self) -> (r: BreakerState)
        ensures
            r == self@.state,
    {
        self.state
    }

    /// Number of halts so far.
    pub fn total_trips(&self) -> (r: u64)
        ensures
            r == self@.total_trips,
    {
        self.total_trips
    }

    /// Reason of the last threshold halt.
    pub fn last_trip_reason(&self) -> (r: Option<HaltReason>)
        ensures
            r == self@.last_trip_reason,
    {
        self.last_trip_reason
    }

    /// Violations counted since the last accepted tick.
    pub fn consecutive_violations(&self) -> (r: u32)
        ensures
            r == self@.consecutive_violations,
    {
        self.consecutive_violations
    }

    /// Whether trading is halted.
    pub fn is_halted(&self) -> (r: bool)
        ensures
            r == (self@.state is Halted),
    {
        matches!(self.state, BreakerState::Halted(_))
    }
}

impl Default for CircuitBreaker {
    fn default() -> (b: Self)
        ensures
            b@ == initial_breaker(),
    {
        CircuitBreaker::new()
    }
}

/// A spurious tick does not halt trading: from a state with no violations counted, the
/// same anomalous snapshot checked twice answers `Normal` both times, and the third
/// check halts with that anomaly as the reason.
pub proof fn lemma_third_consecutive_violation_halts(m: BreakerModel, snap: MarketSnapshot, now_ns: u64)
    requires
        m.state is Normal,
        m.consecutive_violations == 0,
        m.total_trips < u64::MAX,
        quote_valid(snap),
        spec_violation(m, snap.best_bid_price as int, snap.best_ask_price as int) is Some,
    ensures
        ({
            let reason = spec_violation(m, snap.best_bid_price as int, snap.best_ask_price as int)->0;
            let (m1, r1) = spec_check(m, snap, now_ns);
            let (m2, r2) = spec_check(m1, snap, now_ns);
            let (m3, r3) = spec_check(m2, snap, now_ns);
            &&& r1 == BreakerState::Normal
            &&& r2 == BreakerState::Normal
            &&& r3 == BreakerState::Halted(reason)
            &&& m3.state == BreakerState::Halted(reason)
            &&& m3.total_trips == m.total_trips + 1
        }),
{
    let bid = snap.best_bid_price as int;
    let ask = snap.best_ask_price as int;
    let (m1, r1) = spec_check(m, snap, now_ns);
    assert(spec_violation(m1, bid, ask) == spec_violation(m, bid, ask));
    let (m2, r2) = spec_check(m1, snap, now_ns);
    assert(spec_violation(m2, bid, ask) == spec_violation(m, bid, ask));
}

/// A halt persists: while halted, every check answers with the halt and leaves the
/// breaker unchanged, whatever the snapshot and the time.
pub proof fn lemma_halt_persists_until_reset(m: BreakerModel, snap: MarketSnapshot, now_ns: u64)
    requires
        m.state is Halted,
    ensures
        spec_check(m, snap, now_ns) == (m, m.state),
{
}

/// An accepted tick clears the violation count: whenever a check of a valid quote
/// answers `Normal` without counting a violation and the book is liquid and fresh, the
/// breaker records the new mid and starts counting again from zero.
pub proof fn lemma_accepted_tick_clears_violations(m: BreakerModel, snap: MarketSnapshot, now_ns: u64)
    requires
        m.state is Normal,
        quote_valid(snap),
        spec_violation(m, snap.best_bid_price as int, snap.best_ask_price as int) is None,
        liquidity_ok(snap),
        !spec_is_stale(snap, now_ns),
    ensures
        spec_check(m, snap, now_ns).0.consecutive_violations == 0,
        spec_check(m, snap, now_ns).0.last_mid_price
            == Some(spec_breaker_mid(snap.best_bid_price as int, snap.best_ask_price as int) as u64),
        spec_check(m, snap, now_ns).1 == BreakerState::Normal,
{
}

} // verus!

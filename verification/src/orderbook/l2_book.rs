//! Level-2 order book: ten levels of depth per side, in `u64` fixed point.
use vstd::prelude::*;
use crate::data::MarketSnapshot;
use crate::orderbook::depth::{
    self, lead_len, live_len, min_int, nonzero, seq_sum, spec_ratio, spec_spread_bps, spec_vwap,
    u64_max, vwap_fits,
};

verus! {

/// Number of price levels stored per side.
pub const DEPTH_LEVELS: usize = 10;

/// Predicate "price at or above `t`".
pub open spec fn at_least(t: u64) -> spec_fn(u64) -> bool {
    |x: u64| x >= t
}

/// Predicate "non-zero price at or below `t`".
pub open spec fn positive_at_most(t: u64) -> spec_fn(u64) -> bool {
    |x: u64| x > 0 && x <= t
}

/// `min(total, u64::MAX)`.
pub open spec fn saturate(total: int) -> int {
    if total > u64_max() { u64_max() } else { total }
}

/// Mid price rounded down, or 0 when either side is empty.
pub open spec fn spec_mid(bid: u64, ask: u64) -> u64 {
    if bid == 0 || ask == 0 { 0 } else { ((bid + ask) / 2) as u64 }
}

/// Estimated place of an order in the FIFO queue of one price level, the order
/// having joined at the back (its position ratio, in `[0, 1]` from front to back, is 1).
#[derive(Clone, Copy, PartialEq, Eq, Structural, Debug)]
pub struct QueuePosition {
    /// Level index, 0 being the best visible level.
    pub level: usize,
    /// Size queued ahead of the order.
    pub size_ahead: u64,
    /// Total size resting at the level.
    pub total_size: u64,
}

/// Liquidity within `bps` basis points of the mid price (see
/// [`L2OrderBook::liquidity_within_bps`]): bid levels summed from the best while at or
/// above `mid - distance`, ask levels while positive and at or below `mid + distance`,
/// sums saturating; `(0, 0)` without a mid price.
pub open spec fn liquidity_within_bps_spec(b: L2OrderBook, bps: u32, r: (u64, u64)) -> bool {
    let mid = spec_mid(b.bid_prices@[0], b.ask_prices@[0]);
    let distance = mid * bps / 10_000;
    let bid_thr = if mid >= distance { mid - distance } else { 0 };
    let ask_thr = if mid + distance <= u64_max() { mid + distance } else { u64_max() };
    if mid == 0 {
        r == (0u64, 0u64)
    } else {
        &&& r.0 == saturate(seq_sum(b.bid_sizes@, lead_len(b.bid_prices@, 10, at_least(bid_thr as u64))))
        &&& r.1 == saturate(seq_sum(b.ask_sizes@, lead_len(b.ask_prices@, 10, positive_at_most(ask_thr as u64))))
    }
}

/// Whether `r` is the queue position of an order joining the back of the queue at
/// `our_price`: the first visible level of the side with that price, its whole size
/// ahead; `None` when no visible level has that price.
pub open spec fn queue_position_spec(b: L2OrderBook, is_bid: bool, our_price: u64, r: Option<QueuePosition>) -> bool {
    let prices = if is_bid { b.bid_prices@ } else { b.ask_prices@ };
    let sizes = if is_bid { b.bid_sizes@ } else { b.ask_sizes@ };
    match r {
        Some(q) => {
            &&& q.level < 10
            &&& prices[q.level as int] == our_price
            &&& forall|j: int| 0 <= j < q.level ==> prices[j] != our_price
            &&& q.size_ahead == sizes[q.level as int]
            &&& q.total_size == sizes[q.level as int]
        },
        None => forall|j: int| 0 <= j < 10 ==> prices[j] != our_price,
    }
}

/// Valid book: both best levels have a positive price and size, and the book is not crossed.
pub open spec fn book_valid(b: L2OrderBook) -> bool {
    &&& b.bid_prices@[0] > 0
    &&& b.ask_prices@[0] > 0
    &&& b.bid_sizes@[0] > 0
    &&& b.ask_sizes@[0] > 0
    &&& b.bid_prices@[0] < b.ask_prices@[0]
}

/// Level-2 order book. Bids are stored best first (descending), asks best first (ascending).
#[derive(Clone, Copy)]
pub struct L2OrderBook {
    pub market_id: u64,
    pub bid_prices: [u64; 10],
    pub bid_sizes: [u64; 10],
    pub ask_prices: [u64; 10],
    pub ask_sizes: [u64; 10],
    pub last_sequence: u64,
    pub last_update_ns: u64,
}

impl L2OrderBook {
    /// Empty book for a market.
    pub fn new(market_id: u64) -> (b: Self)
        ensures
            b.market_id == market_id,
            b.last_sequence == 0,
            b.last_update_ns == 0,
            forall|i: int| 0 <= i < 10 ==> b.bid_prices@[i] == 0 && b.bid_sizes@[i] == 0
                && b.ask_prices@[i] == 0 && b.ask_sizes@[i] == 0,
    {
        L2OrderBook {
            market_id,
            bid_prices: [0u64; 10],
            bid_sizes: [0u64; 10],
            ask_prices: [0u64; 10],
            ask_sizes: [0u64; 10],
            last_sequence: 0,
            last_update_ns: 0,
        }
    }

    /// Copy all levels, the sequence and the exchange timestamp from a snapshot.
    /// The market id is left as it is.
    pub fn sync_from_snapshot(&mut self, snapshot: &MarketSnapshot)
        ensures
            final(self).market_id == old(self).market_id,
            final(self).bid_prices@ == snapshot.bid_prices@,
            final(self).bid_sizes@ == snapshot.bid_sizes@,
            final(self).ask_prices@ == snapshot.ask_prices@,
            final(self).ask_sizes@ == snapshot.ask_sizes@,
            final(self).last_sequence == snapshot.sequence,
            final(self).last_update_ns == snapshot.exchange_timestamp_ns,
    {
        self.bid_prices = snapshot.bid_prices;
        self.bid_sizes = snapshot.bid_sizes;
        self.ask_prices = snapshot.ask_prices;
        self.ask_sizes = snapshot.ask_sizes;
        self.last_sequence = snapshot.sequence;
        self.last_update_ns = snapshot.exchange_timestamp_ns;
    }

    /// Best bid price (level 0).
    pub fn best_bid_price(&self) -> (r: u64)
        ensures
            r == self.bid_prices@[0],
    {
        self.bid_prices[0]
    }

    /// Best ask price (level 0).
    pub fn best_ask_price(&self) -> (r: u64)
        ensures
            r == self.ask_prices@[0],
    {
        self.ask_prices[0]
    }

    /// Best bid size (level 0).
    pub fn best_bid_size(&self) -> (r: u64)
        ensures
            r == self.bid_sizes@[0],
    {
        self.bid_sizes[0]
    }

    /// Best ask size (level 0).
    pub fn best_ask_size(&self) -> (r: u64)
        ensures
            r == self.ask_sizes@[0],
    {
        self.ask_sizes[0]
    }

    /// Mid price of the best levels, rounded down without overflow; 0 if a side is empty.
    pub fn mid_price(&self) -> (r: u64)
        ensures
            r == spec_mid(self.bid_prices@[0], self.ask_prices@[0]),
    {
        let bid = self.best_bid_price();
        let ask = self.best_ask_price();
        if bid == 0 || ask == 0 {
            return 0;
        }
        bid / 2 + ask / 2 + (bid % 2 + ask % 2) / 2
    }

    /// Spread of the best levels in basis points of the bid; 0 for an invalid book.
    pub fn spread_bps(&self) -> (r: u32)
        ensures
            r == if book_valid(*self) { spec_spread_bps(self.bid_prices@[0], self.ask_prices@[0]) } else { 0 },
    {
        if !self.is_valid() {
            return 0;
        }
        depth::spread_bps_from_prices(self.best_bid_price(), self.best_ask_price())
    }

    /// Imbalance over all ten levels of sizes, from -100 (all asks) to +100 (all bids).
    pub fn imbalance(&self) -> (r: i64)
        ensures
            r == spec_ratio(seq_sum(self.bid_sizes@, 10), seq_sum(self.ask_sizes@, 10), 100),
            -100 <= r <= 100,
    {
        proof {
            depth::lemma_seq_sum_bounds(self.bid_sizes@, 10);
            depth::lemma_seq_sum_bounds(self.ask_sizes@, 10);
        }
        depth::calculate_imbalance_i64(&self.bid_prices, &self.bid_sizes, &self.ask_prices, &self.ask_sizes, DEPTH_LEVELS)
    }

    /// VWAP of one side over at most `max_levels` levels (clamped to ten), stopping at the
    /// first empty level; `None` without liquidity and `None` for an invalid book.
    pub fn vwap(&self, is_bid: bool, max_levels: usize) -> (r: Option<u64>)
        requires
            book_valid(*self) && is_bid ==> vwap_fits(self.bid_prices@, self.bid_sizes@, min_int(max_levels as int, 10)),
            book_valid(*self) && !is_bid ==> vwap_fits(self.ask_prices@, self.ask_sizes@, min_int(max_levels as int, 10)),
        ensures
            !book_valid(*self) ==> r is None,
            book_valid(*self) && is_bid ==> r == spec_vwap(self.bid_prices@, self.bid_sizes@, min_int(max_levels as int, 10)),
            book_valid(*self) && !is_bid ==> r == spec_vwap(self.ask_prices@, self.ask_sizes@, min_int(max_levels as int, 10)),
    {
        if !self.is_valid() {
            return None;
        }
        let n = if max_levels < DEPTH_LEVELS { max_levels } else { DEPTH_LEVELS };
        if is_bid {
            depth::calculate_vwap_u64(&self.bid_prices, &self.bid_sizes, n)
        } else {
            depth::calculate_vwap_u64(&self.ask_prices, &self.ask_sizes, n)
        }
    }

    /// Total size of the first `max_levels` levels (clamped to ten) of one side.
    pub fn total_liquidity(&self, is_bid: bool, max_levels: usize) -> (r: u64)
        requires
            is_bid ==> seq_sum(self.bid_sizes@, min_int(max_levels as int, 10)) <= u64::MAX,
            !is_bid ==> seq_sum(self.ask_sizes@, min_int(max_levels as int, 10)) <= u64::MAX,
        ensures
            is_bid ==> r == seq_sum(self.bid_sizes@, min_int(max_levels as int, 10)),
            !is_bid ==> r == seq_sum(self.ask_sizes@, min_int(max_levels as int, 10)),
    {
        let n = if max_levels < DEPTH_LEVELS { max_levels } else { DEPTH_LEVELS };
        let sizes: &[u64; 10] = if is_bid { &self.bid_sizes } else { &self.ask_sizes };
        let ghost s = sizes@;
        let mut total: u64 = 0;
        let mut i: usize = 0;
        while i < n
            invariant
                i <= n <= 10,
                s == sizes@,
                s.len() == 10,
                seq_sum(s, n as int) <= u64::MAX,
                total == seq_sum(s, i as int),
            decreases n - i,
        {
            proof {
                depth::lemma_seq_sum_mono(s, (i + 1) as int, n as int);
            }
            total = total + sizes[i];
            i = i + 1;
        }
        total
    }

    /// Liquidity resting within `bps` basis points of the mid price, per side.
    ///
    /// Bid levels are summed from the best while their price is at or above
    /// `mid - distance`; ask levels while their price is positive and at or below
    /// `mid + distance`. Sums saturate at `u64::MAX`. `(0, 0)` when the mid price is 0.
    pub fn liquidity_within_bps(&self, bps: u32) -> (r: (u64, u64))
        requires
            spec_mid(self.bid_prices@[0], self.ask_prices@[0]) * bps <= u64::MAX,
        ensures
            liquidity_within_bps_spec(*self, bps, r),
    {
        let mid = self.mid_price();
        if mid == 0 {
            return (0, 0);
        }
        let distance = (mid * bps as u64) / 10_000;
        let bid_threshold = mid.saturating_sub(distance);
        let ask_threshold = mid.saturating_add(distance);

        let mut bid_liq: u64 = 0;
        let mut i: usize = 0;
        while i < DEPTH_LEVELS && self.bid_prices[i] >= bid_threshold
            invariant
                i <= 10,
                lead_len(self.bid_prices@, i as int, at_least(bid_threshold)) == i,
                bid_liq == saturate(seq_sum(self.bid_sizes@, i as int)),
            decreases 10 - i,
        {
            bid_liq = bid_liq.saturating_add(self.bid_sizes[i]);
            i = i + 1;
        }
        proof {
            if i < 10 {
                depth::lemma_lead_len_stop(self.bid_prices@, i as int, 10, at_least(bid_threshold));
            }
        }

        let mut ask_liq: u64 = 0;
        let mut j: usize = 0;
        while j < DEPTH_LEVELS && self.ask_prices[j] <= ask_threshold && self.ask_prices[j] > 0
            invariant
                j <= 10,
                lead_len(self.ask_prices@, j as int, positive_at_most(ask_threshold)) == j,
                ask_liq == saturate(seq_sum(self.ask_sizes@, j as int)),
            decreases 10 - j,
        {
            ask_liq = ask_liq.saturating_add(self.ask_sizes[j]);
            j = j + 1;
        }
        proof {
            if j < 10 {
                depth::lemma_lead_len_stop(self.ask_prices@, j as int, 10, positive_at_most(ask_threshold));
            }
        }
        (bid_liq, ask_liq)
    }

    /// Where an order joining the back of the queue at `our_price` would stand: the
    /// first visible level of the side with that price, with its whole size ahead of
    /// the order. `None` when no visible level has that price.
    pub fn estimate_queue_position(&self, is_bid: bool, our_price: u64) -> (r: Option<QueuePosition>)
        ensures
            queue_position_spec(*self, is_bid, our_price, r),
    {
        let (prices, sizes) = if is_bid { (&self.bid_prices, &self.bid_sizes) } else { (&self.ask_prices, &self.ask_sizes) };
        let mut i: usize = 0;
        while i < DEPTH_LEVELS
            invariant
                i <= 10,
                prices@ == (if is_bid { self.bid_prices@ } else { self.ask_prices@ }),
                sizes@ == (if is_bid { self.bid_sizes@ } else { self.ask_sizes@ }),
                forall|j: int| 0 <= j < i ==> prices@[j] != our_price,
            decreases 10 - i,
        {
            if prices[i] == our_price {
                return Some(QueuePosition { level: i, size_ahead: sizes[i], total_size: sizes[i] });
            }
            i = i + 1;
        }
        None
    }

    /// Crossed book: both sides present and best bid at or above best ask.
    pub fn is_crossed(&self) -> (r: bool)
        ensures
            r == (self.bid_prices@[0] > 0 && self.ask_prices@[0] > 0 && self.bid_prices@[0] >= self.ask_prices@[0]),
    {
        let bid = self.best_bid_price();
        let ask = self.best_ask_price();
        bid > 0 && ask > 0 && bid >= ask
    }

    /// Locked book: best bid positive and equal to best ask.
    pub fn is_locked(&self) -> (r: bool)
        ensures
            r == (self.bid_prices@[0] > 0 && self.bid_prices@[0] == self.ask_prices@[0]),
    {
        let bid = self.best_bid_price();
        let ask = self.best_ask_price();
        bid > 0 && bid == ask
    }

    /// Valid book: both best levels have a positive price and size, and the book is not crossed.
    pub fn is_valid(&self) -> (r: bool)
        ensures
            r == (self.bid_prices@[0] > 0 && self.ask_prices@[0] > 0 && self.bid_sizes@[0] > 0
                && self.ask_sizes@[0] > 0 && self.bid_prices@[0] < self.ask_prices@[0]),
    {
        let bid = self.best_bid_price();
        let ask = self.best_ask_price();
        bid > 0 && ask > 0 && self.best_bid_size() > 0 && self.best_ask_size() > 0 && !self.is_crossed()
    }

    /// `(price, size)` of the leading bid levels with a non-zero price.
    pub fn bid_levels(&self) -> (r: Vec<(u64, u64)>)
        ensures
            r@.len() == live_len(self.bid_prices@, 10),
            forall|j: int| 0 <= j < r@.len() ==> r@[j] == (self.bid_prices@[j], self.bid_sizes@[j]),
    {
        levels_of(&self.bid_prices, &self.bid_sizes)
    }

    /// `(price, size)` of the leading ask levels with a non-zero price.
    pub fn ask_levels(&self) -> (r: Vec<(u64, u64)>)
        ensures
            r@.len() == live_len(self.ask_prices@, 10),
            forall|j: int| 0 <= j < r@.len() ==> r@[j] == (self.ask_prices@[j], self.ask_sizes@[j]),
    {
        levels_of(&self.ask_prices, &self.ask_sizes)
    }

    /// Number of leading bid levels with a non-zero price.
    pub fn bid_depth(&self) -> (r: usize)
        ensures
            r == live_len(self.bid_prices@, 10),
    {
        leading_depth(&self.bid_prices)
    }

    /// Number of leading ask levels with a non-zero price.
    pub fn ask_depth(&self) -> (r: usize)
        ensures
            r == live_len(self.ask_prices@, 10),
    {
        leading_depth(&self.ask_prices)
    }

    /// Gap after the last processed sequence: `Some(new - (last + 1))` when the new
    /// sequence is beyond the next expected one; `None` before the first update.
    pub fn check_sequence_gap(&self, new_sequence: u64) -> (r: Option<u64>)
        requires
            self.last_sequence < u64::MAX,
        ensures
            r == if self.last_sequence != 0 && new_sequence > self.last_sequence + 1 {
                Some((new_sequence - (self.last_sequence + 1)) as u64)
            } else {
                None::<u64>
            },
    {
        if self.last_sequence == 0 {
            return None;
        }
        let expected = self.last_sequence + 1;
        if new_sequence > expected {
            Some(new_sequence - expected)
        } else {
            None
        }
    }

    /// Age of the book at `current_time_ns`; 0 when the clock is behind the last update.
    pub fn age_ns(&self, current_time_ns: u64) -> (r: u64)
        ensures
            r == if current_time_ns >= self.last_update_ns { (current_time_ns - self.last_update_ns) as u64 } else { 0 },
    {
        if current_time_ns >= self.last_update_ns {
            current_time_ns - self.last_update_ns
        } else {
            0
        }
    }
}

/// Number of leading non-zero prices.
fn leading_depth(prices: &[u64; 10]) -> (r: usize)
    ensures
        r == live_len(prices@, 10),
{
    let mut i: usize = 0;
    while i < 10 && prices[i] > 0
        invariant
            i <= 10,
            lead_len(prices@, i as int, nonzero()) == i,
        decreases 10 - i,
    {
        i = i + 1;
    }
    proof {
        if i < 10 {
            depth::lemma_lead_len_stop(prices@, i as int, 10, nonzero());
        }
    }
    i
}

/// `(price, size)` pairs of the leading levels with a non-zero price.
fn levels_of(prices: &[u64; 10], sizes: &[u64; 10]) -> (r: Vec<(u64, u64)>)
    ensures
        r@.len() == live_len(prices@, 10),
        forall|j: int| 0 <= j < r@.len() ==> r@[j] == (prices@[j], sizes@[j]),
{
    let mut out: Vec<(u64, u64)> = Vec::new();
    let mut i: usize = 0;
    while i < 10 && prices[i] > 0
        invariant
            i <= 10,
            out@.len() == i,
            lead_len(prices@, i as int, nonzero()) == i,
            forall|j: int| 0 <= j < i ==> out@[j] == (prices@[j], sizes@[j]),
        decreases 10 - i,
    {
        out.push((prices[i], sizes[i]));
        i = i + 1;
    }
    proof {
        if i < 10 {
            depth::lemma_lead_len_stop(prices@, i as int, 10, nonzero());
        }
    }
    out
}

} // verus!

//! Depth analytics on fixed-point price and size levels: VWAP, imbalance,
//! liquidity, mid price and spread.
use vstd::prelude::*;
use crate::data::{MarketSnapshot, ORDERBOOK_DEPTH};

verus! {

/// Largest `u64`, as an integer.
pub open spec fn u64_max() -> int {
    0xffff_ffff_ffff_ffff
}

/// Sum of the first `k` elements.
pub open spec fn seq_sum(s: Seq<u64>, k: int) -> int
    decreases k,
{
    if k <= 0 {
        0
    } else {
        seq_sum(s, k - 1) + s[k - 1]
    }
}

/// Sum of `prices[i] * sizes[i]` over the first `k` levels.
pub open spec fn weighted_sum(prices: Seq<u64>, sizes: Seq<u64>, k: int) -> int
    decreases k,
{
    if k <= 0 {
        0
    } else {
        weighted_sum(prices, sizes, k - 1) + prices[k - 1] * sizes[k - 1]
    }
}

/// Length of the longest prefix, within the first `n` elements, whose elements all satisfy `p`.
pub open spec fn lead_len(s: Seq<u64>, n: int, p: spec_fn(u64) -> bool) -> int
    decreases n,
{
    if n <= 0 {
        0
    } else {
        let m = lead_len(s, n - 1, p);
        if m == n - 1 && p(s[n - 1]) {
            n
        } else {
            m
        }
    }
}

/// Predicate "level is non-empty".
pub open spec fn nonzero() -> spec_fn(u64) -> bool {
    |x: u64| x != 0
}

/// Number of leading non-empty levels among the first `n`.
pub open spec fn live_len(s: Seq<u64>, n: int) -> int {
    lead_len(s, n, nonzero())
}

/// VWAP over the leading non-empty levels among the first `n`; `None` without liquidity.
pub open spec fn spec_vwap(prices: Seq<u64>, sizes: Seq<u64>, n: int) -> Option<u64> {
    let k = live_len(sizes, n);
    if seq_sum(sizes, k) == 0 {
        None
    } else {
        Some((weighted_sum(prices, sizes, k) / seq_sum(sizes, k)) as u64)
    }
}

/// The accumulated price*size over the levels a VWAP reads fits in `u128`.
pub open spec fn vwap_fits(prices: Seq<u64>, sizes: Seq<u64>, n: int) -> bool {
    weighted_sum(prices, sizes, live_len(sizes, n)) <= u128::MAX
}

/// `(b - a) * scale / (b + a)` with division truncating toward zero; 0 when both are 0.
pub open spec fn spec_ratio(b: int, a: int, scale: int) -> int {
    if b + a == 0 {
        0
    } else if b >= a {
        (b - a) * scale / (b + a)
    } else {
        -((a - b) * scale / (b + a))
    }
}

/// Spread in basis points of the bid price, truncated to `u32`; 0 when the bid is 0.
pub open spec fn spec_spread_bps(bid: u64, ask: u64) -> u32 {
    if bid == 0 {
        0
    } else {
        let spread: int = if ask > bid { ask - bid } else { 0 };
        ((spread * 10_000) / (bid as int)) as u32
    }
}

pub open spec fn min_int(a: int, b: int) -> int {
    if a <= b { a } else { b }
}

// ---------------------------------------------------------------------------
// Lemmas on the spec functions
// ---------------------------------------------------------------------------

pub proof fn lemma_lead_len_bounds(s: Seq<u64>, n: int, p: spec_fn(u64) -> bool)
    ensures
        n >= 0 ==> 0 <= lead_len(s, n, p) <= n,
        n < 0 ==> lead_len(s, n, p) == 0,
    decreases n,
{
    if n > 0 {
        lemma_lead_len_bounds(s, n - 1, p);
    }
}

/// Once the prefix stops at `i`, it stays stopped at `i` for every longer window.
pub proof fn lemma_lead_len_stop(s: Seq<u64>, i: int, n: int, p: spec_fn(u64) -> bool)
    requires
        0 <= i < n,
        lead_len(s, i, p) == i,
        !p(s[i]),
    ensures
        lead_len(s, n, p) == i,
    decreases n,
{
    if n > i + 1 {
        lemma_lead_len_stop(s, i, n - 1, p);
        lemma_lead_len_bounds(s, n - 1, p);
    }
}

/// The prefix length can only grow with the window.
pub proof fn lemma_lead_len_mono(s: Seq<u64>, i: int, n: int, p: spec_fn(u64) -> bool)
    requires
        0 <= i <= n,
    ensures
        lead_len(s, i, p) <= lead_len(s, n, p),
    decreases n,
{
    if n > i {
        lemma_lead_len_mono(s, i, n - 1, p);
        lemma_lead_len_bounds(s, n - 1, p);
    }
}

/// Every element of the prefix satisfies the predicate.
pub proof fn lemma_lead_len_elems(s: Seq<u64>, n: int, p: spec_fn(u64) -> bool, j: int)
    requires
        0 <= j < lead_len(s, n, p),
    ensures
        p(s[j]),
    decreases n,
{
    lemma_lead_len_bounds(s, n - 1, p);
    if lead_len(s, n - 1, p) > j {
        lemma_lead_len_elems(s, n - 1, p, j);
    }
}

pub proof fn lemma_seq_sum_bounds(s: Seq<u64>, k: int)
    requires
        0 <= k <= s.len(),
    ensures
        0 <= seq_sum(s, k) <= k * u64_max(),
    decreases k,
{
    if k > 0 {
        lemma_seq_sum_bounds(s, k - 1);
    }
}

pub proof fn lemma_seq_sum_mono(s: Seq<u64>, i: int, k: int)
    requires
        0 <= i <= k <= s.len(),
    ensures
        seq_sum(s, i) <= seq_sum(s, k),
    decreases k,
{
    if k > i {
        lemma_seq_sum_mono(s, i, k - 1);
    }
}

pub proof fn lemma_weighted_sum_mono(p: Seq<u64>, s: Seq<u64>, i: int, k: int)
    requires
        0 <= i <= k <= s.len(),
        k <= p.len(),
    ensures
        0 <= weighted_sum(p, s, i) <= weighted_sum(p, s, k),
    decreases k,
{
    if k > 0 {
        if k > i {
            lemma_weighted_sum_mono(p, s, i, k - 1);
        } else {
            lemma_weighted_sum_mono(p, s, 0, k - 1);
        }
        let pi = p[k - 1] as int;
        let si = s[k - 1] as int;
        assert(pi * si >= 0) by (nonlinear_arith)
            requires
                pi >= 0,
                si >= 0,
        ;
    }
}

/// The weighted sum never exceeds the largest price times the total size.
pub proof fn lemma_weighted_le_max_price(p: Seq<u64>, s: Seq<u64>, k: int)
    requires
        0 <= k <= s.len(),
        k <= p.len(),
    ensures
        weighted_sum(p, s, k) <= u64_max() * seq_sum(s, k),
    decreases k,
{
    if k > 0 {
        lemma_weighted_le_max_price(p, s, k - 1);
        let pi = p[k - 1] as int;
        let si = s[k - 1] as int;
        assert(pi * si <= u64_max() * si) by (nonlinear_arith)
            requires
                0 <= pi <= u64_max(),
                0 <= si,
        ;
        assert(u64_max() * seq_sum(s, k - 1) + u64_max() * si == u64_max() * (seq_sum(s, k - 1) + si))
            by (nonlinear_arith);
    }
}

proof fn lemma_quotient_le(a: int, b: int, m: int)
    requires
        0 <= a <= m * b,
        b > 0,
        m >= 0,
    ensures
        0 <= a / b <= m,
{
    assert(a / b <= m) by (nonlinear_arith)
        requires
            0 <= a <= m * b,
            b > 0,
    ;
    assert(a / b >= 0) by (nonlinear_arith)
        requires
            0 <= a,
            b > 0,
    ;
}

proof fn lemma_ratio_bounded(b: int, a: int, scale: int)
    requires
        b >= 0,
        a >= 0,
        scale >= 0,
    ensures
        -scale <= spec_ratio(b, a, scale) <= scale,
{
    if b + a != 0 {
        if b >= a {
            assert((b - a) * scale <= scale * (b + a)) by (nonlinear_arith)
                requires
                    0 <= b - a <= b + a,
                    scale >= 0,
            ;
            assert(0 <= (b - a) * scale) by (nonlinear_arith)
                requires
                    b - a >= 0,
                    scale >= 0,
            ;
            lemma_quotient_le((b - a) * scale, b + a, scale);
        } else {
            assert((a - b) * scale <= scale * (b + a)) by (nonlinear_arith)
                requires
                    0 <= a - b <= b + a,
                    scale >= 0,
            ;
            assert(0 <= (a - b) * scale) by (nonlinear_arith)
                requires
                    a - b >= 0,
                    scale >= 0,
            ;
            lemma_quotient_le((a - b) * scale, b + a, scale);
        }
    }
}

// ---------------------------------------------------------------------------
// Executable analytics
// ---------------------------------------------------------------------------

/// Sum of the leading non-empty sizes among the first `n` levels, in `u128`.
fn live_volume(sizes: &[u64], n: usize) -> (total: u128)
    requires
        n <= sizes@.len(),
    ensures
        total == seq_sum(sizes@, live_len(sizes@, n as int)),
{
    let mut total: u128 = 0;
    let mut i: usize = 0;
    proof {
        lemma_lead_len_bounds(sizes@, n as int, nonzero());
    }
    while i < n && sizes[i] != 0
        invariant
            i <= n <= sizes@.len(),
            lead_len(sizes@, i as int, nonzero()) == i,
            total == seq_sum(sizes@, i as int),
        decreases n - i,
    {
        proof {
            lemma_seq_sum_bounds(sizes@, (i + 1) as int);
            assert((i + 1) * u64_max() <= u128::MAX) by (nonlinear_arith)
                requires
                    i + 1 <= 0x1_0000_0000_0000_0000,
            ;
        }
        total = total + sizes[i] as u128;
        i = i + 1;
    }
    proof {
        if i < n {
            lemma_lead_len_stop(sizes@, i as int, n as int, nonzero());
        }
    }
    total
}

/// Volume-weighted average price over the leading non-empty levels among the
/// first `min(max_levels, prices.len(), sizes.len())`; `None` without liquidity.
pub fn calculate_vwap_u64(prices: &[u64], sizes: &[u64], max_levels: usize) -> (r: Option<u64>)
    requires
        vwap_fits(prices@, sizes@, min_int(max_levels as int, min_int(prices@.len() as int, sizes@.len() as int))),
    ensures
        r == spec_vwap(prices@, sizes@, min_int(max_levels as int, min_int(prices@.len() as int, sizes@.len() as int))),
{
    let lim = if prices.len() < sizes.len() { prices.len() } else { sizes.len() };
    let n = if max_levels < lim { max_levels } else { lim };
    let ghost k = live_len(sizes@, n as int);
    proof {
        lemma_lead_len_bounds(sizes@, n as int, nonzero());
    }
    let mut total_value: u128 = 0;
    let mut total_size: u128 = 0;
    let mut i: usize = 0;
    while i < n && sizes[i] != 0
        invariant
            i <= n <= sizes@.len(),
            n <= prices@.len(),
            k == live_len(sizes@, n as int),
            0 <= k <= n,
            weighted_sum(prices@, sizes@, k) <= u128::MAX,
            lead_len(sizes@, i as int, nonzero()) == i,
            total_value == weighted_sum(prices@, sizes@, i as int),
            total_size == seq_sum(sizes@, i as int),
        decreases n - i,
    {
        let size = sizes[i];
        let price = prices[i];
        proof {
            assert(lead_len(sizes@, (i + 1) as int, nonzero()) == i + 1);
            lemma_lead_len_mono(sizes@, (i + 1) as int, n as int, nonzero());
            lemma_weighted_sum_mono(prices@, sizes@, (i + 1) as int, k);
            lemma_seq_sum_bounds(sizes@, (i + 1) as int);
            assert((i + 1) * u64_max() <= u128::MAX) by (nonlinear_arith)
                requires
                    i + 1 <= 0x1_0000_0000_0000_0000,
            ;
            assert((price as int) * (size as int) <= u128::MAX) by (nonlinear_arith)
                requires
                    0 <= price <= u64_max(),
                    0 <= size <= u64_max(),
            ;
        }
        total_value = total_value + (price as u128) * (size as u128);
        total_size = total_size + size as u128;
        i = i + 1;
    }
    proof {
        if i < n {
            lemma_lead_len_stop(sizes@, i as int, n as int, nonzero());
        }
        assert(i == k);
    }
    if total_size == 0 {
        return None;
    }
    proof {
        lemma_weighted_le_max_price(prices@, sizes@, i as int);
        lemma_quotient_le(total_value as int, total_size as int, u64_max());
    }
    Some((total_value / total_size) as u64)
}

/// VWAP of one side of a snapshot over at most `max_levels` levels (clamped to the depth).
pub fn calculate_vwap(snapshot: &MarketSnapshot, is_bid: bool, max_levels: usize) -> (r: Option<u64>)
    requires
        is_bid ==> vwap_fits(snapshot.bid_prices@, snapshot.bid_sizes@, min_int(max_levels as int, 10)),
        !is_bid ==> vwap_fits(snapshot.ask_prices@, snapshot.ask_sizes@, min_int(max_levels as int, 10)),
    ensures
        is_bid ==> r == spec_vwap(snapshot.bid_prices@, snapshot.bid_sizes@, min_int(max_levels as int, 10)),
        !is_bid ==> r == spec_vwap(snapshot.ask_prices@, snapshot.ask_sizes@, min_int(max_levels as int, 10)),
{
    let n = if max_levels < ORDERBOOK_DEPTH { max_levels } else { ORDERBOOK_DEPTH };
    if is_bid {
        calculate_vwap_u64(&snapshot.bid_prices, &snapshot.bid_sizes, n)
    } else {
        calculate_vwap_u64(&snapshot.ask_prices, &snapshot.ask_sizes, n)
    }
}

/// Order book imbalance over the leading non-empty levels among the first
/// `min(max_levels, depth)` levels of each side, in fixed point with nine decimals:
/// `(bid - ask) / (bid + ask)`, truncated toward zero, 0 without liquidity.
pub fn calculate_imbalance(snapshot: &MarketSnapshot, max_levels: usize) -> (r: i64)
    ensures
        r == spec_ratio(
            seq_sum(snapshot.bid_sizes@, live_len(snapshot.bid_sizes@, min_int(max_levels as int, 10))),
            seq_sum(snapshot.ask_sizes@, live_len(snapshot.ask_sizes@, min_int(max_levels as int, 10))),
            1_000_000_000,
        ),
        -1_000_000_000 <= r <= 1_000_000_000,
{
    let n = if max_levels < ORDERBOOK_DEPTH { max_levels } else { ORDERBOOK_DEPTH };
    let bid_volume = live_volume(&snapshot.bid_sizes, n);
    let ask_volume = live_volume(&snapshot.ask_sizes, n);
    proof {
        lemma_lead_len_bounds(snapshot.bid_sizes@, n as int, nonzero());
        lemma_lead_len_bounds(snapshot.ask_sizes@, n as int, nonzero());
        lemma_seq_sum_bounds(snapshot.bid_sizes@, live_len(snapshot.bid_sizes@, n as int));
        lemma_seq_sum_bounds(snapshot.ask_sizes@, live_len(snapshot.ask_sizes@, n as int));
        assert((bid_volume + ask_volume) * 1_000_000_000 <= u128::MAX) by (nonlinear_arith)
            requires
                0 <= bid_volume <= 10 * u64_max(),
                0 <= ask_volume <= 10 * u64_max(),
        ;
    }
    signed_ratio(bid_volume, ask_volume, 1_000_000_000)
}

/// `(b - a) * scale / (b + a)` truncated toward zero, 0 when both are zero.
fn signed_ratio(b: u128, a: u128, scale: u128) -> (r: i64)
    requires
        b + a <= u128::MAX,
        (b + a) * scale <= u128::MAX,
        scale <= 1_000_000_000,
    ensures
        r == spec_ratio(b as int, a as int, scale as int),
        -(scale as int) <= r <= scale,
{
    proof {
        lemma_ratio_bounded(b as int, a as int, scale as int);
    }
    let total = b + a;
    if total == 0 {
        return 0;
    }
    if b >= a {
        assert((b - a) * scale <= u128::MAX) by (nonlinear_arith)
            requires
                0 <= b - a <= b + a,
                (b + a) * scale <= u128::MAX,
                scale >= 0,
        ;
        let q = ((b - a) * scale) / total;
        q as i64
    } else {
        assert((a - b) * scale <= u128::MAX) by (nonlinear_arith)
            requires
                0 <= a - b <= b + a,
                (b + a) * scale <= u128::MAX,
                scale >= 0,
        ;
        let q = ((a - b) * scale) / total;
        -(q as i64)
    }
}

/// Total size over the leading non-empty levels among the first `min(max_levels, depth)`,
/// clamped to `u64::MAX`.
pub fn calculate_liquidity(snapshot: &MarketSnapshot, is_bid: bool, max_levels: usize) -> (r: u64)
    ensures
        ({
            let sizes = if is_bid { snapshot.bid_sizes@ } else { snapshot.ask_sizes@ };
            let total = seq_sum(sizes, live_len(sizes, min_int(max_levels as int, 10)));
            r == if total > u64_max() { u64_max() } else { total }
        }),
{
    let n = if max_levels < ORDERBOOK_DEPTH { max_levels } else { ORDERBOOK_DEPTH };
    let total = if is_bid { live_volume(&snapshot.bid_sizes, n) } else { live_volume(&snapshot.ask_sizes, n) };
    if total > u64::MAX as u128 {
        u64::MAX
    } else {
        total as u64
    }
}

/// Mid price of the best bid and ask, rounded down.
pub fn mid_price(snapshot: &MarketSnapshot) -> (r: u64)
    requires
        snapshot.best_bid_price + snapshot.best_ask_price <= u64::MAX,
    ensures
        r == (snapshot.best_bid_price + snapshot.best_ask_price) / 2,
{
    (snapshot.best_bid_price + snapshot.best_ask_price) / 2
}

/// Spread of the best prices of a snapshot, in basis points of the bid.
pub fn spread_bps(snapshot: &MarketSnapshot) -> (r: u32)
    ensures
        r == spec_spread_bps(snapshot.best_bid_price, snapshot.best_ask_price),
{
    spread_bps_from_prices(snapshot.best_bid_price, snapshot.best_ask_price)
}

/// Spread in basis points of the bid price (ask below bid counts as 0), truncated to `u32`.
pub fn spread_bps_from_prices(bid_price: u64, ask_price: u64) -> (r: u32)
    ensures
        r == spec_spread_bps(bid_price, ask_price),
        bid_price > 0 && ask_price >= bid_price && (ask_price - bid_price) * 10_000 / (bid_price as int) <= u32::MAX
            ==> r == (ask_price - bid_price) * 10_000 / (bid_price as int),
{
    if bid_price == 0 {
        return 0;
    }
    let spread = ask_price.saturating_sub(bid_price);
    assert(spread as u128 * 10_000 <= u128::MAX) by (nonlinear_arith)
        requires
            spread <= u64_max(),
    ;
    let q = (spread as u128 * 10_000) / bid_price as u128;
    q as u32
}

/// Imbalance over the first `min(max_levels, bid_prices.len(), ask_prices.len())` levels of
/// raw arrays, counting every level, scaled to the range -100..=100 (truncated toward zero).
pub fn calculate_imbalance_i64(
    bid_prices: &[u64],
    bid_sizes: &[u64],
    ask_prices: &[u64],
    ask_sizes: &[u64],
    max_levels: usize,
) -> (r: i64)
    requires
        min_int(max_levels as int, min_int(bid_prices@.len() as int, ask_prices@.len() as int)) <= bid_sizes@.len(),
        min_int(max_levels as int, min_int(bid_prices@.len() as int, ask_prices@.len() as int)) <= ask_sizes@.len(),
        ({
            let n = min_int(max_levels as int, min_int(bid_prices@.len() as int, ask_prices@.len() as int));
            (seq_sum(bid_sizes@, n) + seq_sum(ask_sizes@, n)) * 100 <= i128::MAX
        }),
    ensures
        ({
            let n = min_int(max_levels as int, min_int(bid_prices@.len() as int, ask_prices@.len() as int));
            r == spec_ratio(seq_sum(bid_sizes@, n), seq_sum(ask_sizes@, n), 100)
        }),
        -100 <= r <= 100,
{
    let lim = if bid_prices.len() < ask_prices.len() { bid_prices.len() } else { ask_prices.len() };
    let n = if max_levels < lim { max_levels } else { lim };
    let mut bid_volume: u128 = 0;
    let mut ask_volume: u128 = 0;
    let mut i: usize = 0;
    proof {
        lemma_seq_sum_bounds(bid_sizes@, n as int);
        lemma_seq_sum_bounds(ask_sizes@, n as int);
    }
    while i < n
        invariant
            i <= n,
            n <= bid_sizes@.len(),
            n <= ask_sizes@.len(),
            (seq_sum(bid_sizes@, n as int) + seq_sum(ask_sizes@, n as int)) * 100 <= i128::MAX,
            bid_volume == seq_sum(bid_sizes@, i as int),
            ask_volume == seq_sum(ask_sizes@, i as int),
        decreases n - i,
    {
        proof {
            lemma_seq_sum_mono(bid_sizes@, (i + 1) as int, n as int);
            lemma_seq_sum_mono(ask_sizes@, (i + 1) as int, n as int);
            lemma_seq_sum_bounds(bid_sizes@, (i + 1) as int);
            lemma_seq_sum_bounds(ask_sizes@, (i + 1) as int);
        }
        if bid_sizes[i] > 0 {
            bid_volume = bid_volume + bid_sizes[i] as u128;
        }
        if ask_sizes[i] > 0 {
            ask_volume = ask_volume + ask_sizes[i] as u128;
        }
        i = i + 1;
    }
    if bid_volume == 0 && ask_volume == 0 {
        return 0;
    }
    signed_ratio(bid_volume, ask_volume, 100)
}

} // verus!

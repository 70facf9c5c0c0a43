//! Order book representation and depth analytics, and a manager that keeps the
//! level-2 book of a market together with our own resting orders.
pub mod depth;
pub mod l2_book;
pub mod stub;

use vstd::prelude::*;
use crate::data::MarketSnapshot;
use crate::orderbook::depth::{min_int, seq_sum, spec_ratio, spec_spread_bps, spec_vwap, vwap_fits, live_len};
use crate::orderbook::l2_book::{book_valid, liquidity_within_bps_spec, queue_position_spec, spec_mid, L2OrderBook, QueuePosition};
use crate::orderbook::stub::{OrderInfo, OrderSide, OurOrders};
use crate::keyed::{key_index, remove_kv, upsert_kv};

verus! {

/// Level-2 book of a market with our resting orders and a count of book updates.
/// Prices and sizes are in nine-decimal fixed point.
pub struct OrderBookManager {
    orderbook: L2OrderBook,
    our_orders: OurOrders,
    market_id: u64,
    update_count: u64,
}

impl OrderBookManager {
    /// The level-2 book.
    pub closed spec fn book(&self) -> L2OrderBook {
        self.orderbook
    }

    /// Our resting orders, by identifier.
    pub closed spec fn our_entries(&self) -> Seq<(Seq<char>, OrderInfo)> {
        self.our_orders.entries()
    }

    /// Market of the manager.
    pub closed spec fn market(&self) -> u64 {
        self.market_id
    }

    /// Book updates applied so far (wrapping around).
    pub closed spec fn updates(&self) -> u64 {
        self.update_count
    }

    /// An empty book for a market, no orders, no updates.
    pub fn new(market_id: u64) -> (m: Self)
        ensures
            m.market() == market_id,
            m.book().market_id == market_id,
            m.book().last_sequence == 0,
            forall|i: int| 0 <= i < 10 ==> m.book().bid_prices@[i] == 0 && m.book().bid_sizes@[i] == 0
                && m.book().ask_prices@[i] == 0 && m.book().ask_sizes@[i] == 0,
            m.our_entries().len() == 0,
            m.updates() == 0,
    {
        OrderBookManager {
            orderbook: L2OrderBook::new(market_id),
            our_orders: OurOrders::new(),
            market_id,
            update_count: 0,
        }
    }

    /// Applies a snapshot to the book (all levels, sequence and timestamp) and counts
    /// the update.
    pub fn sync_from_snapshot(&mut self, snapshot: &MarketSnapshot)
        ensures
            final(self).book().market_id == old(self).book().market_id,
            final(self).book().bid_prices@ == snapshot.bid_prices@,
            final(self).book().bid_sizes@ == snapshot.bid_sizes@,
            final(self).book().ask_prices@ == snapshot.ask_prices@,
            final(self).book().ask_sizes@ == snapshot.ask_sizes@,
            final(self).book().last_sequence == snapshot.sequence,
            final(self).book().last_update_ns == snapshot.exchange_timestamp_ns,
            final(self).updates() == old(self).updates().wrapping_add(1),
            final(self).our_entries() == old(self).our_entries(),
            final(self).market() == old(self).market(),
    {
        self.orderbook.sync_from_snapshot(snapshot);
        self.update_count = self.update_count.wrapping_add(1);
    }

    /// The level-2 book.
    pub fn orderbook(&self) -> (r: &L2OrderBook)
        ensures
            *r == self.book(),
    {
        &self.orderbook
    }

    /// Our resting orders.
    pub fn our_orders(&self) -> (r: &OurOrders)
        ensures
            r.entries() == self.our_entries(),
    {
        &self.our_orders
    }

    /// Records one of our orders, placed now.
    pub fn add_our_order(&mut self, order_id: String, side: OrderSide, price: u64, size: u64)
        ensures
            exists|t: std::time::SystemTime| final(self).our_entries() == upsert_kv(
                old(self).our_entries(),
                order_id@,
                OrderInfo { side, price, size, timestamp: t },
            ),
            final(self).book() == old(self).book(),
            final(self).updates() == old(self).updates(),
    {
        let ghost key = order_id@;
        let ghost before = self.our_entries();
        self.our_orders.add(order_id, side, price, size);
        proof {
            let t = choose|t: std::time::SystemTime| self.our_orders.entries() == upsert_kv(
                before,
                key,
                OrderInfo { side, price, size, timestamp: t },
            );
            assert(self.our_entries() == upsert_kv(before, key, OrderInfo { side, price, size, timestamp: t }));
        }
    }

    /// Removes one of our orders and hands it back, if it is recorded.
    pub fn remove_our_order(&mut self, order_id: &str) -> (r: Option<OrderInfo>)
        ensures
            final(self).our_entries() == remove_kv(old(self).our_entries(), order_id@),
            r == (match key_index(old(self).our_entries(), order_id@) {
                Some(i) => Some(old(self).our_entries()[i].1),
                None => None::<OrderInfo>,
            }),
            final(self).book() == old(self).book(),
            final(self).updates() == old(self).updates(),
    {
        self.our_orders.remove(order_id)
    }

    /// Where an order of ours at `price` would stand in the queue (see
    /// [`queue_position_spec`]).
    pub fn queue_position(&self, is_bid: bool, price: u64) -> (r: Option<QueuePosition>)
        ensures
            queue_position_spec(self.book(), is_bid, price, r),
    {
        self.orderbook.estimate_queue_position(is_bid, price)
    }

    /// Imbalance of the book, from -100 (all asks) to +100 (all bids).
    pub fn imbalance(&self) -> (r: i64)
        ensures
            r == spec_ratio(seq_sum(self.book().bid_sizes@, 10), seq_sum(self.book().ask_sizes@, 10), 100),
    {
        self.orderbook.imbalance()
    }

    /// VWAP of one side over at most `max_levels` levels.
    pub fn vwap(&self, is_bid: bool, max_levels: usize) -> (r: Option<u64>)
        requires
            book_valid(self.book()) && is_bid ==> vwap_fits(self.book().bid_prices@, self.book().bid_sizes@, min_int(max_levels as int, 10)),
            book_valid(self.book()) && !is_bid ==> vwap_fits(self.book().ask_prices@, self.book().ask_sizes@, min_int(max_levels as int, 10)),
        ensures
            !book_valid(self.book()) ==> r is None,
            book_valid(self.book()) && is_bid ==> r == spec_vwap(self.book().bid_prices@, self.book().bid_sizes@, min_int(max_levels as int, 10)),
            book_valid(self.book()) && !is_bid ==> r == spec_vwap(self.book().ask_prices@, self.book().ask_sizes@, min_int(max_levels as int, 10)),
    {
        self.orderbook.vwap(is_bid, max_levels)
    }

    /// Mid price, 0 when a side is empty.
    pub fn mid_price(&self) -> (r: u64)
        ensures
            r == spec_mid(self.book().bid_prices@[0], self.book().ask_prices@[0]),
    {
        self.orderbook.mid_price()
    }

    /// Spread in basis points.
    pub fn spread_bps(&self) -> (r: u32)
        ensures
            r == if book_valid(self.book()) { spec_spread_bps(self.book().bid_prices@[0], self.book().ask_prices@[0]) } else { 0 },
    {
        self.orderbook.spread_bps()
    }

    /// Best bid price.
    pub fn best_bid(&self) -> (r: u64)
        ensures
            r == self.book().bid_prices@[0],
    {
        self.orderbook.best_bid_price()
    }

    /// Best ask price.
    pub fn best_ask(&self) -> (r: u64)
        ensures
            r == self.book().ask_prices@[0],
    {
        self.orderbook.best_ask_price()
    }

    /// Total size of the first `max_levels` levels of one side.
    pub fn total_liquidity(&self, is_bid: bool, max_levels: usize) -> (r: u64)
        requires
            is_bid ==> seq_sum(self.book().bid_sizes@, min_int(max_levels as int, 10)) <= u64::MAX,
            !is_bid ==> seq_sum(self.book().ask_sizes@, min_int(max_levels as int, 10)) <= u64::MAX,
        ensures
            is_bid ==> r == seq_sum(self.book().bid_sizes@, min_int(max_levels as int, 10)),
            !is_bid ==> r == seq_sum(self.book().ask_sizes@, min_int(max_levels as int, 10)),
    {
        self.orderbook.total_liquidity(is_bid, max_levels)
    }

    /// Liquidity within `bps` basis points of the mid price, per side (see
    /// [`liquidity_within_bps_spec`]).
    pub fn liquidity_within_bps(&self, bps: u32) -> (r: (u64, u64))
        requires
            spec_mid(self.book().bid_prices@[0], self.book().ask_prices@[0]) * bps <= u64::MAX,
        ensures
            liquidity_within_bps_spec(self.book(), bps, r),
    {
        self.orderbook.liquidity_within_bps(bps)
    }

    /// `(price, size)` of the leading bid levels with a price.
    pub fn bid_levels(&self) -> (r: Vec<(u64, u64)>)
        ensures
            r@.len() == live_len(self.book().bid_prices@, 10),
            forall|j: int| 0 <= j < r@.len() ==> r@[j] == (self.book().bid_prices@[j], self.book().bid_sizes@[j]),
    {
        self.orderbook.bid_levels()
    }

    /// `(price, size)` of the leading ask levels with a price.
    pub fn ask_levels(&self) -> (r: Vec<(u64, u64)>)
        ensures
            r@.len() == live_len(self.book().ask_prices@, 10),
            forall|j: int| 0 <= j < r@.len() ==> r@[j] == (self.book().ask_prices@[j], self.book().ask_sizes@[j]),
    {
        self.orderbook.ask_levels()
    }

    /// Whether the best levels have prices and sizes and are not crossed.
    pub fn is_valid(&self) -> (r: bool)
        ensures
            r == (self.book().bid_prices@[0] > 0 && self.book().ask_prices@[0] > 0 && self.book().bid_sizes@[0] > 0
                && self.book().ask_sizes@[0] > 0 && self.book().bid_prices@[0] < self.book().ask_prices@[0]),
    {
        self.orderbook.is_valid()
    }

    /// Market of the manager.
    pub fn market_id(&self) -> (r: u64)
        ensures
            r == self.market(),
    {
        self.market_id
    }

    /// Book updates applied so far.
    pub fn update_count(&self) -> (r: u64)
        ensures
            r == self.updates(),
    {
        self.update_count
    }
}

} // verus!

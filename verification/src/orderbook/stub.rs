//! Top-of-book order book and the tracking of our own resting orders.
//!
//! Prices and sizes are in nine-decimal fixed point.
use vstd::prelude::*;
use vstd::string::StrSliceExecFns;
use crate::clock::system_time_now;
use crate::data::MarketSnapshot;
use crate::keyed::{key_index, keys_distinct, lemma_key_index_unique, lemma_remove_kv, lemma_upsert_kv, remove_kv, upsert_kv};
use crate::text::str_eq;

verus! {

/// Book side of one of our orders.
#[derive(Clone, Copy, PartialEq, Eq, Structural, Debug)]
pub enum OrderSide {
    Bid,
    Ask,
}

/// Order book keeping only the best bid and ask.
#[derive(Debug, Clone, Copy)]
pub struct StubOrderBook {
    pub market_id: u64,
    pub bid_price: u64,
    pub ask_price: u64,
    pub bid_size: u64,
    pub ask_size: u64,
    pub last_sequence: u64,
}

/// Whether a top of book is crossed: a bid at or above the ask.
pub open spec fn stub_crossed(b: StubOrderBook) -> bool {
    b.bid_price >= b.ask_price && b.bid_price > 0
}

/// Mid price of a top of book rounded down, or 0 when either price is missing.
pub open spec fn stub_mid(b: StubOrderBook) -> u64 {
    if b.bid_price > 0 && b.ask_price > 0 { ((b.bid_price + b.ask_price) / 2) as u64 } else { 0 }
}

impl StubOrderBook {
    /// An empty book.
    pub fn new(market_id: u64) -> (b: Self)
        ensures
            b.market_id == market_id,
            b.bid_price == 0 && b.ask_price == 0 && b.bid_size == 0 && b.ask_size == 0,
            b.last_sequence == 0,
    {
        StubOrderBook { market_id, bid_price: 0, ask_price: 0, bid_size: 0, ask_size: 0, last_sequence: 0 }
    }

    /// Takes the best prices and sizes and the sequence of a snapshot.
    pub fn sync_from_snapshot(&mut self, snapshot: &MarketSnapshot)
        ensures
            *final(self) == (StubOrderBook {
                market_id: old(self).market_id,
                bid_price: snapshot.best_bid_price,
                ask_price: snapshot.best_ask_price,
                bid_size: snapshot.best_bid_size,
                ask_size: snapshot.best_ask_size,
                last_sequence: snapshot.sequence,
            }),
    {
        self.bid_price = snapshot.best_bid_price;
        self.ask_price = snapshot.best_ask_price;
        self.bid_size = snapshot.best_bid_size;
        self.ask_size = snapshot.best_ask_size;
        self.last_sequence = snapshot.sequence;
    }

    /// Best bid price.
    pub fn best_bid(&self) -> (r: u64)
        ensures
            r == self.bid_price,
    {
        self.bid_price
    }

    /// Best ask price.
    pub fn best_ask(&self) -> (r: u64)
        ensures
            r == self.ask_price,
    {
        self.ask_price
    }

    /// Size at the best bid.
    pub fn best_bid_size(&self) -> (r: u64)
        ensures
            r == self.bid_size,
    {
        self.bid_size
    }

    /// Size at the best ask.
    pub fn best_ask_size(&self) -> (r: u64)
        ensures
            r == self.ask_size,
    {
        self.ask_size
    }

    /// Mid price (see [`stub_mid`]).
    pub fn mid_price(&self) -> (r: u64)
        ensures
            r == stub_mid(*self),
    {
        if self.bid_price > 0 && self.ask_price > 0 {
            ((self.bid_price as u128 + self.ask_price as u128) / 2) as u64
        } else {
            0
        }
    }

    /// Volume-weighted price for a size: the mid price when there is one.
    pub fn vwap(&self, depth: u64) -> (r: Option<u64>)
        ensures
            r == (if stub_mid(*self) > 0 { Some(stub_mid(*self)) } else { None::<u64> }),
    {
        let mid = self.mid_price();
        if mid > 0 {
            Some(mid)
        } else {
            None
        }
    }

    /// Place of an order in its queue: this book does not know it and answers 5.
    pub fn queue_position(&self, order_id: &str) -> (r: Option<usize>)
        ensures
            r == Some(5usize),
    {
        Some(5)
    }

    /// Whether the bid is at or above the ask.
    pub fn is_crossed(&self) -> (r: bool)
        ensures
            r == stub_crossed(*self),
    {
        self.bid_price >= self.ask_price && self.bid_price > 0
    }

    /// Whether the bid equals the ask.
    pub fn is_locked(&self) -> (r: bool)
        ensures
            r == (self.bid_price == self.ask_price && self.bid_price > 0),
    {
        self.bid_price == self.ask_price && self.bid_price > 0
    }

    /// Whether both sides have a price and a size and the book is not crossed.
    pub fn is_valid(&self) -> (r: bool)
        ensures
            r == (self.bid_price > 0 && self.ask_price > 0 && self.bid_size > 0 && self.ask_size > 0
                && !stub_crossed(*self)),
    {
        self.bid_price > 0 && self.ask_price > 0 && self.bid_size > 0 && self.ask_size > 0 && !self.is_crossed()
    }
}

/// One of our resting orders.
#[derive(Debug, Clone, Copy)]
pub struct OrderInfo {
    pub side: OrderSide,
    pub price: u64,
    pub size: u64,
    pub timestamp: std::time::SystemTime,
}

/// Total size of our orders on a side.
pub open spec fn side_total(s: Seq<(Seq<char>, OrderInfo)>, side: OrderSide) -> int
    decreases s.len(),
{
    if s.len() == 0 {
        0
    } else {
        side_total(s.drop_last(), side) + if s.last().1.side == side { s.last().1.size as int } else { 0 }
    }
}

/// Entries of recorded orders, by identifier text.
pub open spec fn entries_of(v: Seq<(String, OrderInfo)>) -> Seq<(Seq<char>, OrderInfo)> {
    v.map_values(|e: (String, OrderInfo)| (e.0@, e.1))
}

/// Recording one more order adds its entry last.
proof fn lemma_entries_push(v: Seq<(String, OrderInfo)>, x: (String, OrderInfo))
    ensures
        entries_of(v.push(x)) == entries_of(v).push((x.0@, x.1)),
{
    assert(entries_of(v.push(x)) =~= entries_of(v).push((x.0@, x.1)));
}

/// Our resting orders, by identifier.
#[derive(Debug)]
pub struct OurOrders {
    orders: Vec<(String, OrderInfo)>,
}

impl OurOrders {
    #[verifier::type_invariant]
    spec fn distinct(&self) -> bool {
        keys_distinct(entries_of(self.orders@))
    }

    /// Orders by identifier.
    pub closed spec fn entries(&self) -> Seq<(Seq<char>, OrderInfo)> {
        entries_of(self.orders@)
    }

    /// No orders.
    pub fn new() -> (o: Self)
        ensures
            o.entries().len() == 0,
    {
        let o = OurOrders { orders: Vec::new() };
        assert(o.entries() =~= Seq::<(Seq<char>, OrderInfo)>::empty());
        o
    }

    /// Position of the order with the given identifier.
    fn find(&self, order_id: &str) -> (r: Option<usize>)
        ensures
            r matches Some(i) ==> i < self.entries().len() && key_index(self.entries(), order_id@) == Some(i as int),
            r is None ==> key_index(self.entries(), order_id@) is None,
    {
        proof {
            use_type_invariant(self);
        }
        let ghost s = self.entries();
        let mut i: usize = 0;
        while i < self.orders.len()
            invariant
                0 <= i <= self.orders@.len(),
                s == entries_of(self.orders@),
                keys_distinct(s),
                forall|j: int| 0 <= j < i ==> s[j].0 != order_id@,
            decreases self.orders.len() - i,
        {
            if str_eq(self.orders[i].0.as_str(), order_id) {
                proof {
                    lemma_key_index_unique(s, order_id@, i as int);
                }
                return Some(i);
            }
            i = i + 1;
        }
        None
    }

    /// Records an order placed now, in place of one with the same identifier.
    pub fn add(&mut self, order_id: String, side: OrderSide, price: u64, size: u64)
        ensures
            exists|t: std::time::SystemTime| final(self).entries() == upsert_kv(
                old(self).entries(),
                order_id@,
                OrderInfo { side, price, size, timestamp: t },
            ),
    {
        proof {
            use_type_invariant(&*self);
        }
        let ghost s0 = self.entries();
        let info = OrderInfo { side, price, size, timestamp: system_time_now() };
        proof {
            lemma_upsert_kv(s0, order_id@, info);
        }
        let found = self.find(order_id.as_str());
        let ghost key = order_id@;
        let mut orders: Vec<(String, OrderInfo)> = Vec::new();
        std::mem::swap(&mut orders, &mut self.orders);
        match found {
            Some(i) => {
                orders.set(i, (order_id, info));
            },
            None => {
                orders.push((order_id, info));
            },
        }
        assert(entries_of(orders@) =~= upsert_kv(s0, key, info));
        self.orders = orders;
    }

    /// Removes an order and hands it back, if it is recorded.
    pub fn remove(&mut self, order_id: &str) -> (r: Option<OrderInfo>)
        ensures
            final(self).entries() == remove_kv(old(self).entries(), order_id@),
            r == (match key_index(old(self).entries(), order_id@) {
                Some(i) => Some(old(self).entries()[i].1),
                None => None::<OrderInfo>,
            }),
    {
        proof {
            use_type_invariant(&*self);
        }
        let ghost s0 = self.entries();
        proof {
            lemma_remove_kv(s0, order_id@);
        }
        match self.find(order_id) {
            Some(i) => {
                let mut orders: Vec<(String, OrderInfo)> = Vec::new();
                std::mem::swap(&mut orders, &mut self.orders);
                let (_id, info) = orders.remove(i);
                assert(entries_of(orders@) =~= s0.remove(i as int));
                self.orders = orders;
                Some(info)
            },
            None => None,
        }
    }

    /// The order with the given identifier, if it is recorded.
    pub fn get(&self, order_id: &str) -> (r: Option<&OrderInfo>)
        ensures
            r == (match key_index(self.entries(), order_id@) {
                Some(i) => Some(&self.entries()[i].1),
                None => None::<&OrderInfo>,
            }),
    {
        match self.find(order_id) {
            Some(i) => Some(&self.orders[i].1),
            None => None,
        }
    }

    /// Number of recorded orders.
    pub fn count(&self) -> (r: usize)
        ensures
            r == self.entries().len(),
    {
        self.orders.len()
    }

    /// Total size of our orders on a side.
    fn total_size(&self, side: OrderSide) -> (r: u128)
        ensures
            r == side_total(self.entries(), side),
    {
        let ghost s = self.entries();
        let mut total: u128 = 0;
        let mut i: usize = 0;
        while i < self.orders.len()
            invariant
                0 <= i <= s.len(),
                s == entries_of(self.orders@),
                total == side_total(s.take(i as int), side),
                total <= i * (u64::MAX as int),
            decreases s.len() - i,
        {
            assert(s.take(i + 1).drop_last() =~= s.take(i as int));
            assert(s.take(i + 1).last() == s[i as int]);
            assert((i + 1) * (u64::MAX as int) <= u128::MAX) by (nonlinear_arith)
                requires i < s.len(), s.len() <= usize::MAX, usize::MAX <= u64::MAX;
            assert((i + 1) * (u64::MAX as int) == i * (u64::MAX as int) + u64::MAX) by (nonlinear_arith);
            if self.orders[i].1.side == side {
                total = total + self.orders[i].1.size as u128;
            }
            i = i + 1;
        }
        assert(s.take(i as int) =~= s);
        total
    }

    /// Total size of our bids.
    pub fn total_bid_size(&self) -> (r: u128)
        ensures
            r == side_total(self.entries(), OrderSide::Bid),
    {
        self.total_size(OrderSide::Bid)
    }

    /// Total size of our asks.
    pub fn total_ask_size(&self) -> (r: u128)
        ensures
            r == side_total(self.entries(), OrderSide::Ask),
    {
        self.total_size(OrderSide::Ask)
    }
}

impl Clone for OurOrders {
    fn clone(&self) -> (r: Self)
        ensures
            r.entries() == self.entries(),
    {
        proof {
            use_type_invariant(self);
        }
        let ghost s = self.entries();
        let mut orders: Vec<(String, OrderInfo)> = Vec::new();
        let mut i: usize = 0;
        while i < self.orders.len()
            invariant
                0 <= i <= s.len(),
                s == entries_of(self.orders@),
                keys_distinct(s),
                entries_of(orders@) == s.take(i as int),
            decreases s.len() - i,
        {
            let id = self.orders[i].0.clone();
            let info = self.orders[i].1;
            assert(id@ == s[i as int].0 && info == s[i as int].1);
            let ghost before = orders@;
            orders.push((id, info));
            proof {
                lemma_entries_push(before, (id, info));
                assert(s.take(i + 1) =~= s.take(i as int).push(s[i as int]));
            }
            assert(entries_of(orders@) =~= s.take(i + 1));
            i = i + 1;
        }
        assert(s.take(i as int) =~= s);
        OurOrders { orders }
    }
}

impl Default for OurOrders {
    fn default() -> (o: Self)
        ensures
            o.entries().len() == 0,
    {
        Self::new()
    }
}

} // verus!

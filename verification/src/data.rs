//! Market data as published by the feed process: best prices and ten levels of depth,
//! all in `u64` fixed point with nine decimals.
use vstd::prelude::*;

verus! {

/// Number of depth levels carried by a snapshot.
pub const ORDERBOOK_DEPTH: usize = 10;

/// One market-data snapshot.
#[derive(Clone, Copy)]
pub struct MarketSnapshot {
    pub market_id: u64,
    pub sequence: u64,
    pub exchange_timestamp_ns: u64,
    pub local_recv_ns: u64,
    pub local_publish_ns: u64,
    pub best_bid_price: u64,
    pub best_bid_size: u64,
    pub best_ask_price: u64,
    pub best_ask_size: u64,
    pub bid_prices: [u64; 10],
    pub bid_sizes: [u64; 10],
    pub ask_prices: [u64; 10],
    pub ask_sizes: [u64; 10],
    pub dex_type: u8,
}

impl MarketSnapshot {
    /// A snapshot with every field zero.
    pub fn zeroed() -> (s: Self)
        ensures
            s.market_id == 0 && s.sequence == 0 && s.exchange_timestamp_ns == 0,
            s.local_recv_ns == 0 && s.local_publish_ns == 0 && s.dex_type == 0,
            s.best_bid_price == 0 && s.best_bid_size == 0,
            s.best_ask_price == 0 && s.best_ask_size == 0,
            forall|i: int| 0 <= i < 10 ==> s.bid_prices@[i] == 0 && s.bid_sizes@[i] == 0
                && s.ask_prices@[i] == 0 && s.ask_sizes@[i] == 0,
    {
        MarketSnapshot {
            market_id: 0,
            sequence: 0,
            exchange_timestamp_ns: 0,
            local_recv_ns: 0,
            local_publish_ns: 0,
            best_bid_price: 0,
            best_bid_size: 0,
            best_ask_price: 0,
            best_ask_size: 0,
            bid_prices: [0u64; 10],
            bid_sizes: [0u64; 10],
            ask_prices: [0u64; 10],
            ask_sizes: [0u64; 10],
            dex_type: 0,
        }
    }
}

/// Whether a snapshot can be traded on: both best prices and sizes positive and the
/// book not crossed or locked.
pub open spec fn spec_is_valid_snapshot(s: MarketSnapshot) -> bool {
    &&& s.best_bid_price > 0
    &&& s.best_ask_price > 0
    &&& s.best_bid_price < s.best_ask_price
    &&& s.best_bid_size > 0
    &&& s.best_ask_size > 0
}

/// Whether a snapshot can be traded on.
pub fn is_valid_snapshot(s: &MarketSnapshot) -> (r: bool)
    ensures
        r == spec_is_valid_snapshot(*s),
{
    s.best_bid_price > 0 && s.best_ask_price > 0 && s.best_bid_price < s.best_ask_price && s.best_bid_size > 0
        && s.best_ask_size > 0
}

} // verus!

use bog_core::data::MarketSnapshot;
use bog_core::orderbook::stub::{OrderSide, OurOrders, StubOrderBook};
use bog_core::orderbook::OrderBookManager;

const ONE: u64 = 1_000_000_000;

/// A snapshot whose best levels (and level 0 of the depth) hold the given prices and sizes.
fn top_of_book_snapshot(bid: u64, ask: u64, bid_size: u64, ask_size: u64) -> MarketSnapshot {
    let mut s = MarketSnapshot::zeroed();
    s.market_id = 1;
    s.sequence = 1;
    s.dex_type = 1;
    s.best_bid_price = bid;
    s.best_bid_size = bid_size;
    s.best_ask_price = ask;
    s.best_ask_size = ask_size;
    s.bid_prices[0] = bid;
    s.bid_sizes[0] = bid_size;
    s.ask_prices[0] = ask;
    s.ask_sizes[0] = ask_size;
    s
}

#[test]
fn test_orderbook_manager_creation() {
    let manager = OrderBookManager::new(1);
    assert_eq!(manager.market_id(), 1);
    assert_eq!(manager.update_count(), 0);
}

#[test]
fn test_orderbook_manager_sync() {
    let mut manager = OrderBookManager::new(1);
    let snapshot = top_of_book_snapshot(50_000 * ONE, 50_005 * ONE, ONE, ONE);
    manager.sync_from_snapshot(&snapshot);
    assert_eq!(manager.update_count(), 1);
    assert!(manager.is_valid());
    assert!(manager.mid_price() > 0);
    assert_eq!(manager.mid_price(), 50_002_500_000_000);
    assert_eq!(manager.best_bid(), 50_000 * ONE);
    assert_eq!(manager.best_ask(), 50_005 * ONE);
    assert_eq!(manager.spread_bps(), 1);
    assert_eq!(manager.imbalance(), 0);
    assert_eq!(manager.vwap(true, 5), Some(50_000 * ONE));
    assert_eq!(manager.total_liquidity(false, 5), ONE);
    assert_eq!(manager.bid_levels(), vec![(50_000 * ONE, ONE)]);
    assert_eq!(manager.ask_levels(), vec![(50_005 * ONE, ONE)]);
    assert_eq!(manager.liquidity_within_bps(10), (ONE, ONE));
    let q = manager.queue_position(true, 50_000 * ONE).unwrap();
    assert_eq!((q.level, q.size_ahead, q.total_size), (0, ONE, ONE));
    assert!(manager.queue_position(true, 49_000 * ONE).is_none());
    assert_eq!(manager.orderbook().last_sequence, 1);
}

#[test]
fn test_our_orders_tracking() {
    let mut manager = OrderBookManager::new(1);
    manager.add_our_order("order1".to_string(), OrderSide::Bid, 50_000 * ONE, ONE / 2);
    assert_eq!(manager.our_orders().count(), 1);
    let removed = manager.remove_our_order("order1");
    assert!(removed.is_some());
    assert_eq!(removed.unwrap().size, ONE / 2);
    assert_eq!(manager.our_orders().count(), 0);
    assert!(manager.remove_our_order("order1").is_none());
}

#[test]
fn test_orderbook_sync() {
    let mut ob = StubOrderBook::new(1);
    let snapshot = top_of_book_snapshot(50_000 * ONE, 50_005 * ONE, ONE, 3 * ONE / 2);
    ob.sync_from_snapshot(&snapshot);
    assert!(ob.best_bid() > 49_999 * ONE && ob.best_bid() < 50_001 * ONE);
    assert!(ob.best_ask() > 50_004 * ONE && ob.best_ask() < 50_006 * ONE);
    assert_eq!(ob.best_bid_size(), ONE);
    assert_eq!(ob.best_ask_size(), 3 * ONE / 2);
    assert_eq!(ob.last_sequence, 1);
}

#[test]
fn stub_test_mid_price() {
    let mut ob = StubOrderBook::new(1);
    let snapshot = top_of_book_snapshot(50_000 * ONE, 50_010 * ONE, ONE, ONE);
    ob.sync_from_snapshot(&snapshot);
    let mid = ob.mid_price();
    assert!(mid > 50_004 * ONE && mid < 50_006 * ONE);
    assert_eq!(mid, 50_005 * ONE);
}

#[test]
fn test_crossed_orderbook() {
    let mut ob = StubOrderBook::new(1);
    ob.sync_from_snapshot(&top_of_book_snapshot(50_000 * ONE, 50_005 * ONE, ONE, ONE));
    assert!(!ob.is_crossed());
    assert!(!ob.is_locked());
    assert!(ob.is_valid());

    ob.sync_from_snapshot(&top_of_book_snapshot(50_005 * ONE, 50_000 * ONE, ONE, ONE));
    assert!(ob.is_crossed());
    assert!(!ob.is_valid());

    ob.sync_from_snapshot(&top_of_book_snapshot(50_000 * ONE, 50_000 * ONE, ONE, ONE));
    assert!(ob.is_locked());
    assert!(!ob.is_valid());
}

#[test]
fn test_our_orders() {
    let mut orders = OurOrders::new();
    orders.add("order1".to_string(), OrderSide::Bid, 50_000 * ONE, ONE / 2);
    orders.add("order2".to_string(), OrderSide::Ask, 50_005 * ONE, 3 * ONE / 10);
    assert_eq!(orders.count(), 2);
    assert_eq!(orders.total_bid_size(), (ONE / 2) as u128);
    assert_eq!(orders.total_ask_size(), (3 * ONE / 10) as u128);
    let removed = orders.remove("order1");
    assert!(removed.is_some());
    assert_eq!(orders.count(), 1);
}

#[test]
fn our_orders_replace_by_identifier() {
    let mut orders = OurOrders::default();
    orders.add("a".to_string(), OrderSide::Bid, 100, 5);
    orders.add("a".to_string(), OrderSide::Ask, 200, 7);
    assert_eq!(orders.count(), 1);
    let a = orders.get("a").unwrap();
    assert_eq!((a.side, a.price, a.size), (OrderSide::Ask, 200, 7));
    assert!(orders.get("b").is_none());
    let copy = orders.clone();
    assert_eq!(copy.count(), 1);
    assert_eq!(copy.total_ask_size(), 7);
    assert_eq!(copy.total_bid_size(), 0);
}

#[test]
fn test_vwap_stub() {
    let mut ob = StubOrderBook::new(1);
    ob.sync_from_snapshot(&top_of_book_snapshot(50_000 * ONE, 50_010 * ONE, ONE, ONE));
    let vwap = ob.vwap(ONE);
    assert!(vwap.is_some());
    assert_eq!(vwap.unwrap(), ob.mid_price());
    assert_eq!(StubOrderBook::new(1).vwap(ONE), None);
}

#[test]
fn test_queue_position_stub() {
    let ob = StubOrderBook::new(1);
    assert_eq!(ob.queue_position("any"), Some(5));
}

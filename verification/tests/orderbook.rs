use bog_core::data::MarketSnapshot;
use bog_core::orderbook::depth::{calculate_imbalance, calculate_liquidity, calculate_vwap, calculate_vwap_u64, mid_price, spread_bps, spread_bps_from_prices};
use bog_core::orderbook::l2_book::L2OrderBook;

fn create_test_snapshot() -> MarketSnapshot {
    let mut snapshot = MarketSnapshot::zeroed();
    snapshot.market_id = 1;
    snapshot.sequence = 100;
    snapshot.exchange_timestamp_ns = 1000000000;
    snapshot.best_bid_price = 50_000_000_000_000;
    snapshot.best_bid_size = 1_000_000_000;
    snapshot.best_ask_price = 50_010_000_000_000;
    snapshot.best_ask_size = 1_500_000_000;
    for i in 0..10 {
        snapshot.bid_prices[i] = 50_000_000_000_000 - (i as u64 * 10_000_000_000);
        snapshot.bid_sizes[i] = 1_000_000_000 + (i as u64 * 100_000_000);
        snapshot.ask_prices[i] = 50_010_000_000_000 + (i as u64 * 10_000_000_000);
        snapshot.ask_sizes[i] = 1_500_000_000 + (i as u64 * 100_000_000);
    }
    snapshot
}

#[test]
fn test_l2_orderbook_creation() {
    let book = L2OrderBook::new(1);
    assert_eq!(book.market_id, 1);
    assert_eq!(book.best_bid_price(), 0);
    assert_eq!(book.best_ask_price(), 0);
    assert_eq!(book.last_sequence, 0);
}

#[test]
fn test_sync_from_snapshot() {
    let mut book = L2OrderBook::new(1);
    let snapshot = create_test_snapshot();
    book.sync_from_snapshot(&snapshot);
    assert_eq!(book.market_id, 1);
    assert_eq!(book.last_sequence, 100);
    assert_eq!(book.best_bid_price(), 50_000_000_000_000);
    assert_eq!(book.best_ask_price(), 50_010_000_000_000);
}

#[test]
fn test_all_levels_synced() {
    let mut book = L2OrderBook::new(1);
    let snapshot = create_test_snapshot();
    book.sync_from_snapshot(&snapshot);
    for i in 0..10 {
        assert_eq!(book.bid_prices[i], snapshot.bid_prices[i]);
        assert_eq!(book.bid_sizes[i], snapshot.bid_sizes[i]);
        assert_eq!(book.ask_prices[i], snapshot.ask_prices[i]);
        assert_eq!(book.ask_sizes[i], snapshot.ask_sizes[i]);
    }
}

#[test]
fn test_mid_price_calculation() {
    let mut book = L2OrderBook::new(1);
    let snapshot = create_test_snapshot();
    book.sync_from_snapshot(&snapshot);
    let mid = book.mid_price();
    assert_eq!(mid, 50_005_000_000_000);
}

#[test]
fn test_spread_bps_calculation() {
    let mut book = L2OrderBook::new(1);
    let snapshot = create_test_snapshot();
    book.sync_from_snapshot(&snapshot);
    let spread = book.spread_bps();
    assert_eq!(spread, 2);
}

#[test]
fn l2_book_test_imbalance_calculation() {
    let mut book = L2OrderBook::new(1);
    let snapshot = create_test_snapshot();
    book.sync_from_snapshot(&snapshot);
    let imbalance = book.imbalance();
    assert!(imbalance < 0, "Imbalance should be negative (ask-heavy)");
}

#[test]
fn l2_book_test_vwap_calculation() {
    let mut book = L2OrderBook::new(1);
    let snapshot = create_test_snapshot();
    book.sync_from_snapshot(&snapshot);
    let vwap_bid = book.vwap(true, 3);
    assert!(vwap_bid.is_some());
    let vwap = vwap_bid.unwrap();
    assert!(vwap < book.best_bid_price());
    assert!(vwap > 0);
    let vwap_ask = book.vwap(false, 3);
    assert!(vwap_ask.is_some());
    let vwap = vwap_ask.unwrap();
    assert!(vwap > book.best_ask_price());
}

#[test]
fn test_total_liquidity() {
    let mut book = L2OrderBook::new(1);
    let snapshot = create_test_snapshot();
    book.sync_from_snapshot(&snapshot);
    let bid_liq = book.total_liquidity(true, 10);
    let ask_liq = book.total_liquidity(false, 10);
    assert!(bid_liq > 0);
    assert!(ask_liq > 0);
    assert!(bid_liq > book.best_bid_size());
}

#[test]
fn test_liquidity_within_bps() {
    let mut book = L2OrderBook::new(1);
    let snapshot = create_test_snapshot();
    book.sync_from_snapshot(&snapshot);
    let (bid_liq, ask_liq) = book.liquidity_within_bps(5);
    assert!(bid_liq >= book.best_bid_size());
    assert!(ask_liq >= book.best_ask_size());
}

#[test]
fn test_is_crossed_detection() {
    let mut book = L2OrderBook::new(1);
    book.bid_prices[0] = 50_000_000_000_000;
    book.ask_prices[0] = 49_990_000_000_000;
    assert!(book.is_crossed());
    assert!(!book.is_valid());
}

#[test]
fn test_sequence_gap_detection() {
    let mut book = L2OrderBook::new(1);
    book.last_sequence = 100;
    assert!(book.check_sequence_gap(101).is_none());
    let gap = book.check_sequence_gap(105);
    assert_eq!(gap, Some(4));
}

#[test]
fn test_bid_and_ask_levels() {
    let mut book = L2OrderBook::new(1);
    let snapshot = create_test_snapshot();
    book.sync_from_snapshot(&snapshot);
    let bid_levels = book.bid_levels();
    let ask_levels = book.ask_levels();
    assert_eq!(bid_levels.len(), 10);
    assert_eq!(ask_levels.len(), 10);
    for i in 1..bid_levels.len() {
        assert!(bid_levels[i].0 < bid_levels[i - 1].0, "Bids should be descending");
    }
    for i in 1..ask_levels.len() {
        assert!(ask_levels[i].0 > ask_levels[i - 1].0, "Asks should be ascending");
    }
}

#[test]
fn test_depth_counting() {
    let mut book = L2OrderBook::new(1);
    let snapshot = create_test_snapshot();
    book.sync_from_snapshot(&snapshot);
    assert_eq!(book.bid_depth(), 10);
    assert_eq!(book.ask_depth(), 10);
    book.bid_prices[5..].fill(0);
    assert_eq!(book.bid_depth(), 5);
}

#[test]
fn locked_book_is_locked_and_not_valid() {
    let mut book = L2OrderBook::new(1);
    book.bid_prices[0] = 50_000_000_000_000;
    book.ask_prices[0] = 50_000_000_000_000;
    book.bid_sizes[0] = 1;
    book.ask_sizes[0] = 1;
    assert!(book.is_locked());
    assert!(book.is_crossed());
    assert!(!book.is_valid());
}

#[test]
fn empty_book_has_no_mid_and_no_vwap() {
    let book = L2OrderBook::new(7);
    assert_eq!(book.mid_price(), 0);
    assert_eq!(book.vwap(true, 10), None);
    assert_eq!(book.total_liquidity(false, 10), 0);
    assert_eq!(book.bid_depth(), 0);
}

#[test]
fn vwap_of_one_level_is_its_price() {
    let mut book = L2OrderBook::new(1);
    book.sync_from_snapshot(&create_test_snapshot());
    assert_eq!(book.vwap(true, 1), Some(50_000_000_000_000));
    assert_eq!(book.vwap(false, 1), Some(50_010_000_000_000));
}

#[test]
fn exact_vwap_over_two_levels() {
    let mut book = L2OrderBook::new(1);
    book.sync_from_snapshot(&create_test_snapshot());
    let expected = ((50_000_000_000_000u128 * 1_000_000_000 + 49_990_000_000_000u128 * 1_100_000_000)
        / 2_100_000_000) as u64;
    assert_eq!(book.vwap(true, 2), Some(expected));
}

#[test]
fn sequence_gap_ignores_duplicates_and_first_message() {
    let mut book = L2OrderBook::new(1);
    assert_eq!(book.check_sequence_gap(500), None);
    book.last_sequence = 100;
    assert_eq!(book.check_sequence_gap(100), None);
    assert_eq!(book.check_sequence_gap(50), None);
}

fn create_depth_snapshot() -> MarketSnapshot {
    let mut s = MarketSnapshot::zeroed();
    s.market_id = 1;
    s.sequence = 100;
    s.best_bid_price = 50_000_000_000_000;
    s.best_bid_size = 1_000_000_000;
    s.best_ask_price = 50_010_000_000_000;
    s.best_ask_size = 1_000_000_000;
    s.bid_prices = [49_990_000_000_000, 49_980_000_000_000, 49_970_000_000_000, 49_960_000_000_000, 49_950_000_000_000, 0, 0, 0, 0, 0];
    s.bid_sizes = [2_000_000_000, 3_000_000_000, 1_000_000_000, 500_000_000, 500_000_000, 0, 0, 0, 0, 0];
    s.ask_prices = [50_020_000_000_000, 50_030_000_000_000, 50_040_000_000_000, 0, 0, 0, 0, 0, 0, 0];
    s.ask_sizes = [1_500_000_000, 1_000_000_000, 500_000_000, 0, 0, 0, 0, 0, 0, 0];
    s.dex_type = 1;
    s
}

#[test]
fn depth_test_vwap_calculation() {
    let snapshot = create_depth_snapshot();
    let bid_vwap = calculate_vwap(&snapshot, true, 3).unwrap();
    assert!((bid_vwap as i64 - 49_981_666_666_666_i64).abs() < 1_000_000);
    let ask_vwap = calculate_vwap(&snapshot, false, 3).unwrap();
    assert!((ask_vwap as i64 - 50_026_666_666_666_i64).abs() < 1_000_000);
}

#[test]
fn depth_test_imbalance_calculation() {
    let snapshot = create_depth_snapshot();
    assert_eq!(calculate_imbalance(&snapshot, 10), 400_000_000);
}

#[test]
fn test_liquidity_calculation() {
    let snapshot = create_depth_snapshot();
    assert_eq!(calculate_liquidity(&snapshot, true, 10), 7_000_000_000);
    assert_eq!(calculate_liquidity(&snapshot, false, 10), 3_000_000_000);
}

#[test]
fn depth_test_mid_price() {
    let snapshot = create_depth_snapshot();
    assert_eq!(mid_price(&snapshot), 50_005_000_000_000);
}

#[test]
fn depth_test_spread_bps() {
    let snapshot = create_depth_snapshot();
    assert_eq!(spread_bps(&snapshot), 2);
}

#[test]
fn test_empty_orderbook() {
    let mut snapshot = create_depth_snapshot();
    snapshot.bid_sizes = [0; 10];
    snapshot.ask_sizes = [0; 10];
    assert_eq!(calculate_vwap(&snapshot, true, 5), None);
    assert_eq!(calculate_vwap(&snapshot, false, 5), None);
    assert_eq!(calculate_imbalance(&snapshot, 5), 0);
    assert_eq!(calculate_liquidity(&snapshot, true, 5), 0);
    assert_eq!(calculate_liquidity(&snapshot, false, 5), 0);
}

#[test]
fn depth_helpers_on_slices() {
    assert_eq!(calculate_vwap_u64(&[100, 200], &[1, 3], 2), Some(175));
    assert_eq!(calculate_vwap_u64(&[100, 200], &[1, 3], 1), Some(100));
    assert_eq!(calculate_vwap_u64(&[100], &[0], 1), None);
    assert_eq!(spread_bps_from_prices(10_000, 10_001), 1);
}

#[test]
fn test_queue_position_estimation() {
    let mut book = L2OrderBook::new(1);
    let snapshot = create_test_snapshot();
    book.sync_from_snapshot(&snapshot);
    let pos = book.estimate_queue_position(true, book.best_bid_price());
    assert!(pos.is_some());
    let pos = pos.unwrap();
    assert_eq!(pos.level, 0);
    assert_eq!(pos.total_size, book.best_bid_size());
    // Joining at the back of the queue: position ratio 1, fill probability interpolated
    // from 80% at the front to 40% at the back.
    let position_ratio = 1.0;
    let prob = 0.8 + (0.4 - 0.8) * position_ratio;
    assert!(prob >= 0.4 && prob <= 0.8);
    assert!(book.estimate_queue_position(true, 1).is_none());
}

#[test]
fn invalid_book_has_zero_spread_and_no_vwap() {
    let mut book = L2OrderBook::new(1);
    book.sync_from_snapshot(&create_test_snapshot());
    book.bid_sizes[0] = 0;
    assert!(!book.is_valid());
    assert_eq!(book.spread_bps(), 0);
    assert_eq!(book.vwap(true, 3), None);
    let mut one_sided = L2OrderBook::new(1);
    one_sided.sync_from_snapshot(&create_test_snapshot());
    one_sided.ask_prices[0] = 0;
    one_sided.ask_sizes[0] = 0;
    assert_eq!(one_sided.vwap(true, 1), None);
    assert_eq!(one_sided.spread_bps(), 0);
}

use bog_core::execution::simulated::{QueueTracker, RealisticFillConfig, SimulatedExecutor, MAX_PENDING_FILLS};
use bog_core::execution::types::{ExecutionMode, Order, OrderId, OrderStatus, Side};

// Prices and sizes in nine-decimal fixed point; notionals and cash flows in eighteen.
const P50000: u64 = 50_000_000_000_000;
const ONE: u64 = 1_000_000_000;
const NOTIONAL_ONE: i128 = 1_000_000_000_000_000_000;

#[test]
fn test_simulated_executor_creation() {
    let executor = SimulatedExecutor::new();
    assert_eq!(executor.execution_mode(), ExecutionMode::Simulated);
    assert_eq!(executor.get_active_orders().len(), 0);
}

#[test]
fn simulated_test_place_and_fill_order() {
    let mut executor = SimulatedExecutor::new();
    let order = Order::limit(Side::Buy, P50000, ONE / 10);
    let order_id = executor.place_order(order).unwrap();
    assert!(executor.get_order_status(&order_id).is_some());

    let fills = executor.get_fills();
    assert_eq!(fills.len(), 1);
    let fill = &fills[0];
    assert_eq!(fill.side, Side::Buy);
    assert_eq!(fill.price, P50000);
    assert_eq!(fill.size, ONE / 10);
    assert_eq!(fill.notional(), 5000 * NOTIONAL_ONE as u128);
}

#[test]
fn simulated_test_cancel_order() {
    let mut executor = SimulatedExecutor::new();
    let order = Order::limit(Side::Buy, P50000, ONE / 10);
    let order_id = executor.place_order(order).unwrap();
    executor.get_fills();
    let result = executor.cancel_order(&order_id);
    assert!(result.is_err());
    assert_eq!(result.unwrap_err(), format!("Order {} is not active", order_id.as_str()));
}

#[test]
fn simulated_test_invalid_order_size() {
    let mut executor = SimulatedExecutor::new();
    let order = Order::limit(Side::Buy, P50000, 0);
    let result = executor.place_order(order);
    assert!(result.is_err());
    assert_eq!(result.unwrap_err(), "Order size must be positive");
}

#[test]
fn execution_simulated_test_fill_calculations() {
    let mut executor = SimulatedExecutor::new();

    let buy_order = Order::limit(Side::Buy, P50000, ONE / 10);
    executor.place_order(buy_order).unwrap();
    let fills = executor.get_fills();
    let fill = &fills[0];
    assert_eq!(fill.position_change(), (ONE / 10) as i128);
    assert_eq!(fill.cash_flow(), -5000 * NOTIONAL_ONE);

    let sell_order = Order::limit(Side::Sell, 50_100 * ONE, ONE / 10);
    executor.place_order(sell_order).unwrap();
    let fills = executor.get_fills();
    let fill = &fills[0];
    assert_eq!(fill.position_change(), -((ONE / 10) as i128));
    assert_eq!(fill.cash_flow(), 5010 * NOTIONAL_ONE);
}

#[test]
fn test_get_active_orders() {
    let mut executor = SimulatedExecutor::new();
    let order = Order::limit(Side::Buy, P50000, ONE / 10);
    executor.place_order(order).unwrap();
    assert_eq!(executor.get_active_orders().len(), 0);
}

#[test]
fn test_instant_fills_config() {
    let mut executor = SimulatedExecutor::new();
    let order = Order::limit(Side::Buy, P50000, ONE);
    executor.place_order(order).unwrap();
    let fills = executor.get_fills();
    assert_eq!(fills.len(), 1);
    assert_eq!(fills[0].size, ONE);
}

#[test]
fn test_realistic_fills_back_of_queue() {
    let mut executor = SimulatedExecutor::new_realistic();
    let order = Order::limit(Side::Buy, P50000, ONE);
    executor.place_order(order).unwrap();
    let fills = executor.get_fills();
    assert_eq!(fills.len(), 1);
    assert_eq!(fills[0].size, 400_000_000);
}

#[test]
fn test_conservative_fills() {
    let mut executor = SimulatedExecutor::new_conservative();
    let order = Order::limit(Side::Buy, P50000, ONE);
    executor.place_order(order).unwrap();
    let fills = executor.get_fills();
    assert_eq!(fills.len(), 1);
    assert_eq!(fills[0].size, 200_000_000);
}

#[test]
fn test_realistic_vs_instant_comparison() {
    let mut instant_executor = SimulatedExecutor::new();
    let mut realistic_executor = SimulatedExecutor::new_realistic();
    let order1 = Order::limit(Side::Buy, P50000, ONE);
    let order2 = Order::limit(Side::Buy, P50000, ONE);
    instant_executor.place_order(order1).unwrap();
    realistic_executor.place_order(order2).unwrap();
    let instant_fills = instant_executor.get_fills();
    let realistic_fills = realistic_executor.get_fills();
    assert!(instant_fills[0].size > realistic_fills[0].size);
    assert_eq!(instant_fills[0].size, ONE);
    assert_eq!(realistic_fills[0].size, 400_000_000);
}

#[test]
fn test_queue_position_tracking() {
    let config = RealisticFillConfig::realistic();
    let mut tracker = QueueTracker::new(config);
    let order = Order::limit(Side::Buy, P50000, ONE / 10);
    tracker.add_order(&order);
    let fill_prob = tracker.calculate_fill_probability(&order.id);
    assert!((fill_prob as f64 / 1e9 - 0.4).abs() < 0.01);
    assert_eq!(fill_prob, 400_000_000);
    tracker.remove_order(&order.id);
    assert_eq!(tracker.calculate_fill_probability(&order.id), 1_000_000_000);
}

#[test]
fn test_realistic_fill_config_presets() {
    let instant = RealisticFillConfig::instant();
    assert!(!instant.enable_queue_modeling);
    assert!(!instant.enable_partial_fills);

    let realistic = RealisticFillConfig::realistic();
    assert!(realistic.enable_queue_modeling);
    assert!(realistic.enable_partial_fills);
    assert_eq!(realistic.front_of_queue_fill_rate, 800_000_000);
    assert_eq!(realistic.back_of_queue_fill_rate, 400_000_000);

    let conservative = RealisticFillConfig::conservative();
    assert!(conservative.enable_queue_modeling);
    assert!(conservative.enable_partial_fills);
    assert_eq!(conservative.front_of_queue_fill_rate, 600_000_000);
    assert_eq!(conservative.back_of_queue_fill_rate, 200_000_000);
    assert_eq!(RealisticFillConfig::default(), realistic);
}

#[test]
fn partial_fills_leave_orders_active_and_cancellable() {
    let mut executor = SimulatedExecutor::new_realistic();
    let order = Order::limit(Side::Sell, P50000, ONE);
    let order_id = executor.place_order(order).unwrap();
    assert_eq!(executor.get_order_status(&order_id), Some(OrderStatus::PartiallyFilled));
    let active = executor.get_active_orders();
    assert_eq!(active.len(), 1);
    assert_eq!(active[0].filled_size, 400_000_000);
    assert_eq!(active[0].size, ONE);
    assert_eq!(active[0].status, OrderStatus::PartiallyFilled);
    executor.cancel_order(&order_id).unwrap();
    assert_eq!(executor.get_order_status(&order_id), Some(OrderStatus::Cancelled));
    assert!(executor.get_active_orders().is_empty());
    let missing = OrderId::from("00000000000000000000000000000001");
    assert_eq!(executor.cancel_order(&missing), Err("Order 00000000000000000000000000000001 not found".to_string()));
}

#[test]
fn simulated_rejections_and_halts() {
    let mut executor = SimulatedExecutor::new();
    let mut bad_id = Order::limit(Side::Buy, P50000, ONE);
    bad_id.id = OrderId::from("not-hex");
    let err = executor.place_order(bad_id).unwrap_err();
    assert!(err.starts_with("Invalid order ID: Invalid OrderId hex string 'not-hex'"));

    let zero_price = Order::limit(Side::Buy, 0, ONE);
    let id_text = zero_price.id.as_str().to_string();
    assert_eq!(
        executor.place_order(zero_price).unwrap_err(),
        format!("HALTING: Fill price converted to ZERO for order {} - would give away money!", id_text)
    );

    // One unit at a 40% rate rounds down to nothing.
    let mut realistic = SimulatedExecutor::new_realistic();
    let tiny = Order::limit(Side::Buy, P50000, 1);
    let id_text = tiny.id.as_str().to_string();
    assert_eq!(
        realistic.place_order(tiny).unwrap_err(),
        format!("HALTING: Fill size converted to zero for order {}: 0.000000000 BTC - cannot update state safely", id_text)
    );

    // A rate above one asks for more than the order holds.
    let mut greedy = SimulatedExecutor::with_config(RealisticFillConfig {
        enable_queue_modeling: true,
        enable_partial_fills: true,
        front_of_queue_fill_rate: 1_000_000_000,
        back_of_queue_fill_rate: 1_500_000_000,
    });
    let big = Order::limit(Side::Buy, P50000, ONE);
    let id_text = big.id.as_str().to_string();
    assert_eq!(
        greedy.place_order(big).unwrap_err(),
        format!(
            "HALTING: Failed to apply fill to order state machine for order {}: Fill validation failed: fill quantity exceeds remaining quantity",
            id_text
        )
    );
    assert_eq!(greedy.pending_fill_count(), 0);
}

#[test]
fn fill_queue_drops_oldest_when_full() {
    let mut executor = SimulatedExecutor::new();
    for i in 0..MAX_PENDING_FILLS {
        executor.place_order(Order::limit(Side::Buy, P50000, ONE + i as u64)).unwrap();
    }
    assert_eq!(executor.pending_fill_count(), MAX_PENDING_FILLS);
    assert!(executor.is_fill_queue_near_capacity());
    assert_eq!(executor.dropped_fill_count(), 0);
    executor.place_order(Order::limit(Side::Buy, P50000, 7 * ONE)).unwrap();
    assert_eq!(executor.pending_fill_count(), MAX_PENDING_FILLS);
    assert_eq!(executor.dropped_fill_count(), 1);
    let fills = executor.get_fills();
    assert_eq!(fills.len(), MAX_PENDING_FILLS);
    assert_eq!(fills[0].size, ONE + 1);
    assert_eq!(fills[MAX_PENDING_FILLS - 1].size, 7 * ONE);
    assert!(!executor.is_fill_queue_near_capacity());
}

use bog_core::execution::production::{
    ExecutionMetrics, JournalEvent, OrderState as TrackedOrder, ProductionExecutor, ProductionExecutorConfig,
};
use bog_core::execution::types::{ExecutionMode, Fill, Order, OrderId, OrderStatus, Side};

// Prices and sizes in nine-decimal fixed point; notionals in eighteen decimals.
const P50000: u64 = 50_000_000_000_000;
const ONE: u64 = 1_000_000_000;
const NOTIONAL_ONE: i128 = 1_000_000_000_000_000_000;

fn config(instant_fills: bool) -> ProductionExecutorConfig {
    ProductionExecutorConfig { enable_journal: false, instant_fills, ..Default::default() }
}

fn fill_rate(m: &ExecutionMetrics) -> f64 {
    if m.orders_submitted == 0 {
        return 0.0;
    }
    m.fills_received as f64 / m.orders_submitted as f64
}

fn ack_rate(m: &ExecutionMetrics) -> f64 {
    if m.orders_submitted == 0 {
        return 0.0;
    }
    m.orders_acknowledged as f64 / m.orders_submitted as f64
}

fn total_volume_usd(m: &ExecutionMetrics) -> f64 {
    m.total_volume as f64 / 100.0
}

#[test]
fn types_test_fill_calculations() {
    let fill = Fill::new(OrderId::new_random(), Side::Buy, P50000, ONE / 10);
    assert_eq!(fill.notional(), 5000 * NOTIONAL_ONE as u128);
    assert_eq!(fill.position_change(), (ONE / 10) as i128);
    assert_eq!(fill.cash_flow(), -5000 * NOTIONAL_ONE);
}

#[test]
fn types_test_fill_sell() {
    let fill = Fill::new(OrderId::new_random(), Side::Sell, P50000, ONE / 10);
    assert_eq!(fill.position_change(), -((ONE / 10) as i128));
    assert_eq!(fill.cash_flow(), 5000 * NOTIONAL_ONE);
}

#[test]
fn fill_cash_flow_includes_fee() {
    let buy = Fill::new_with_fee(OrderId::new_random(), Side::Buy, P50000, ONE / 10, Some(10 * ONE));
    assert_eq!(buy.fee_currency.as_deref(), Some("USD"));
    assert_eq!(buy.cash_flow(), -5010 * NOTIONAL_ONE);
    let sell = Fill::new_with_fee(OrderId::new_random(), Side::Sell, P50000, ONE / 10, Some(10 * ONE));
    assert_eq!(sell.cash_flow(), 4990 * NOTIONAL_ONE);
    let plain = Fill::new(OrderId::new_random(), Side::Sell, P50000, ONE / 10);
    assert_eq!(plain.fee_currency, None);
}

#[test]
fn test_production_executor_creation() {
    let executor = ProductionExecutor::new(ProductionExecutorConfig { enable_journal: false, ..Default::default() });
    assert_eq!(executor.execution_mode(), ExecutionMode::Simulated);
}

#[test]
fn production_executor_default_config() {
    let c = ProductionExecutorConfig::default();
    assert!(c.enable_journal && c.recover_on_startup && c.validate_recovery && c.instant_fills);
    assert_eq!(c.journal_path, "./data/execution_journal.jsonl");
    assert_eq!(c.fill_delay_ms, 0);
}

#[test]
fn production_test_place_and_fill_order() {
    let mut executor = ProductionExecutor::new(config(true));
    let order = Order::limit(Side::Buy, P50000, ONE / 10);
    let order_id = executor.place_order(order).unwrap();

    assert!(executor.get_order_status(&order_id).is_some());
    assert_eq!(executor.get_order_status(&order_id).unwrap(), OrderStatus::Filled);

    assert_eq!(executor.metrics().orders_submitted, 1);
    assert_eq!(executor.metrics().orders_acknowledged, 1);
    assert_eq!(executor.metrics().fills_received, 1);

    let fills = executor.get_fills();
    assert_eq!(fills.len(), 1);
    let fill = &fills[0];
    assert_eq!(fill.side, Side::Buy);
    assert_eq!(fill.price, P50000);
    assert_eq!(fill.size, ONE / 10);
    assert_eq!(fill.order_id, order_id);
    assert!(executor.get_fills().is_empty());
}

#[test]
fn production_test_cancel_order() {
    let mut executor = ProductionExecutor::new(config(false));
    let order = Order::limit(Side::Buy, P50000, ONE / 10);
    let order_id = executor.place_order(order).unwrap();

    assert_eq!(executor.get_order_status(&order_id).unwrap(), OrderStatus::Open);
    executor.cancel_order(&order_id).unwrap();
    assert_eq!(executor.get_order_status(&order_id).unwrap(), OrderStatus::Cancelled);
    assert_eq!(executor.metrics().orders_cancelled, 1);
}

#[test]
fn production_cancel_errors() {
    let mut executor = ProductionExecutor::new(config(true));
    let missing = OrderId::from("nope");
    assert_eq!(executor.cancel_order(&missing), Err("Order nope not found".to_string()));

    let order = Order::limit(Side::Buy, P50000, ONE / 10);
    let id_text = order.id.as_str().to_string();
    let order_id = executor.place_order(order).unwrap();
    // A filled order is no longer active.
    assert_eq!(executor.cancel_order(&order_id), Err(format!("Order {} is not active", id_text)));
    assert_eq!(executor.metrics().orders_cancelled, 0);
    assert_eq!(executor.get_order_status(&order_id), Some(OrderStatus::Filled));
}

#[test]
fn production_test_invalid_order_size() {
    let mut executor = ProductionExecutor::new(ProductionExecutorConfig { enable_journal: false, ..Default::default() });
    let order = Order::limit(Side::Buy, P50000, 0);
    let result = executor.place_order(order);
    assert!(result.is_err());
    assert_eq!(result.unwrap_err(), "Order size must be positive");
    assert_eq!(executor.metrics().orders_rejected, 1);
    assert_eq!(executor.metrics().orders_submitted, 0);
}

#[test]
fn test_execution_metrics() {
    let mut executor = ProductionExecutor::new(config(true));
    for _ in 0..5 {
        let order = Order::limit(Side::Buy, P50000, ONE / 10);
        executor.place_order(order).unwrap();
    }
    let metrics = executor.metrics();
    assert_eq!(metrics.orders_submitted, 5);
    assert_eq!(metrics.fills_received, 5);
    assert_eq!(fill_rate(metrics), 1.0);
    assert_eq!(ack_rate(metrics), 1.0);
    // 5 * 50000 * 0.1 = 25000 dollars.
    assert!((total_volume_usd(metrics) - 25000.0).abs() < 1.0);
    assert_eq!(metrics.total_volume, 2_500_000);
}

#[test]
fn test_order_stats_string() {
    let mut executor = ProductionExecutor::new(config(true));
    let order = Order::limit(Side::Buy, P50000, ONE / 10);
    executor.place_order(order).unwrap();
    let stats = executor.order_stats();
    assert!(stats.contains("Orders: 1/1"));
    assert!(stats.contains("Fills: 1"));
    assert_eq!(stats, "Orders: 1/1 submitted/acked, Fills: 1, Cancelled: 0, Volume: $5000.00");
}

#[test]
fn execution_metrics_record_fill_in_cents() {
    let mut m = ExecutionMetrics::new();
    // 12.345 dollars of notional: truncated to 1234 cents.
    m.record_fill(12_345 * 1_000_000_000_000_000);
    assert_eq!(m.fills_received, 1);
    assert_eq!(m.total_volume, 1234);
    // A notional too large for 64-bit cents adds nothing.
    m.record_fill(u128::MAX);
    assert_eq!(m.fills_received, 2);
    assert_eq!(m.total_volume, 1234);
    m.record_order_submitted();
    m.record_order_acknowledged();
    m.record_order_cancelled();
    m.record_order_rejected();
    assert_eq!((m.orders_submitted, m.orders_acknowledged, m.orders_cancelled, m.orders_rejected), (1, 1, 1, 1));
}

#[test]
fn test_order_state_validation() {
    let order = Order::limit(Side::Buy, P50000, ONE / 10);
    let order_id = order.id.clone();
    let mut state = TrackedOrder::new(order);
    assert!(state.is_valid());

    let fill = Fill::new(order_id.clone(), Side::Buy, P50000, ONE / 20);
    state.order.filled_size = ONE / 20;
    state.add_fill(fill);
    assert!(state.is_valid());

    let fill2 = Fill::new(order_id.clone(), Side::Buy, P50000, ONE / 10);
    state.add_fill(fill2);
    assert!(!state.is_valid());
}

#[test]
fn order_state_status_consistency() {
    let order = Order::limit(Side::Buy, P50000, ONE);
    let order_id = order.id.clone();
    let mut state = TrackedOrder::new(order);
    // Filled without any fill: inconsistent.
    state.order.status = OrderStatus::Filled;
    assert!(!state.is_valid());
    // Partially filled with part of the size: consistent, and the volume is its notional.
    state.order.status = OrderStatus::PartiallyFilled;
    state.order.filled_size = ONE / 2;
    state.add_fill(Fill::new(order_id.clone(), Side::Buy, P50000, ONE / 2));
    assert!(state.is_valid());
    assert_eq!(state.total_fill_volume(), 25_000 * NOTIONAL_ONE as u128);
    // Filled size off by more than the tolerance: inconsistent.
    state.order.filled_size = ONE / 2 + 11;
    assert!(!state.is_valid());
    state.order.filled_size = ONE / 2 + 10;
    assert!(state.is_valid());
    assert!(state.acknowledged_at.is_none());
    state.acknowledge();
    assert!(state.acknowledged_at.is_some());
}

fn recovery_config() -> ProductionExecutorConfig {
    ProductionExecutorConfig {
        enable_journal: false,
        recover_on_startup: true,
        validate_recovery: true,
        instant_fills: false,
        ..Default::default()
    }
}

#[test]
fn test_journal_recovery() {
    let order = Order::limit(Side::Buy, P50000, ONE / 10);
    let order_id = order.id.clone();
    let fill = Fill::new(order_id.clone(), Side::Buy, P50000, ONE / 10);
    let entries = vec![
        Some(JournalEvent::OrderSubmit(order)),
        Some(JournalEvent::OrderAck(order_id.clone())),
        Some(JournalEvent::Fill(fill)),
    ];

    let mut executor = ProductionExecutor::new(recovery_config());
    let stats = executor.recover_from_journal(entries);
    assert_eq!(stats.journal_entries, 3);
    assert_eq!(stats.orders_recovered, 1);
    assert_eq!(stats.fills_recovered, 1);
    assert_eq!(stats.errors, 0);

    assert_eq!(executor.metrics().orders_submitted, 1);
    assert_eq!(executor.metrics().fills_received, 1);
    assert!(executor.get_order_status(&order_id).is_some());
    assert_eq!(executor.get_order_status(&order_id).unwrap(), OrderStatus::Filled);
}

#[test]
fn test_recovery_with_cancelled_order() {
    let order = Order::limit(Side::Buy, P50000, ONE / 10);
    let order_id = order.id.clone();
    let entries = vec![
        Some(JournalEvent::OrderSubmit(order)),
        Some(JournalEvent::OrderAck(order_id.clone())),
        Some(JournalEvent::OrderCancel(order_id.clone())),
    ];
    let mut executor = ProductionExecutor::new(recovery_config());
    executor.recover_from_journal(entries);
    assert_eq!(executor.get_order_status(&order_id).unwrap(), OrderStatus::Cancelled);
    assert_eq!(executor.metrics().orders_cancelled, 1);
}

#[test]
fn recovery_counts_unreadable_and_inconsistent_entries() {
    let good = Order::limit(Side::Buy, P50000, ONE);
    let good_id = good.id.clone();
    let mut bad = Order::limit(Side::Sell, P50000, ONE);
    // Claims to be filled but no fill was journaled.
    bad.status = OrderStatus::Filled;
    let bad_id = bad.id.clone();
    let stray = Fill::new(OrderId::from("unknown"), Side::Buy, P50000, ONE);
    let entries = vec![
        None,
        Some(JournalEvent::OrderSubmit(good)),
        Some(JournalEvent::OrderSubmit(bad)),
        Some(JournalEvent::Fill(Fill::new(good_id.clone(), Side::Buy, P50000, ONE / 4))),
        Some(JournalEvent::Fill(stray)),
        None,
    ];
    let mut executor = ProductionExecutor::new(recovery_config());
    let stats = executor.recover_from_journal(entries);
    assert_eq!(stats.journal_entries, 6);
    assert_eq!(stats.orders_recovered, 2);
    assert_eq!(stats.fills_recovered, 1);
    assert_eq!(stats.errors, 3);
    assert_eq!(executor.get_order_status(&good_id), Some(OrderStatus::PartiallyFilled));
    assert_eq!(executor.get_order_status(&bad_id), None);
    // Not acknowledged: counted as submitted only.
    assert_eq!(executor.metrics().orders_submitted, 1);
    assert_eq!(executor.metrics().orders_acknowledged, 0);
    assert_eq!(executor.metrics().fills_received, 1);
    assert_eq!(executor.metrics().total_volume, 1_250_000);

    // Without validation the inconsistent order is loaded too.
    let bad = {
        let mut o = Order::limit(Side::Sell, P50000, ONE);
        o.status = OrderStatus::Filled;
        o
    };
    let bad_id = bad.id.clone();
    let mut lenient = ProductionExecutor::new(ProductionExecutorConfig { validate_recovery: false, ..recovery_config() });
    let stats = lenient.recover_from_journal(vec![Some(JournalEvent::OrderSubmit(bad))]);
    assert_eq!(stats.errors, 0);
    assert_eq!(lenient.get_order_status(&bad_id), Some(OrderStatus::Filled));
}

#[test]
fn journal_replays_an_instant_placement() {
    let mut executor = ProductionExecutor::new(ProductionExecutorConfig { enable_journal: true, instant_fills: true, ..Default::default() });
    let order = Order::limit(Side::Buy, P50000, ONE / 10);
    let order_id = executor.place_order(order).unwrap();
    let journal = executor.take_journal();
    assert_eq!(journal.len(), 3);
    assert!(matches!(journal[0], JournalEvent::OrderSubmit(ref o) if o.status == OrderStatus::Pending));
    assert!(matches!(journal[1], JournalEvent::OrderAck(ref id) if *id == order_id));
    assert!(matches!(journal[2], JournalEvent::Fill(ref f) if f.size == ONE / 10));
    assert!(executor.take_journal().is_empty());

    let mut recovered = ProductionExecutor::new(recovery_config());
    let stats = recovered.recover_from_journal(journal.into_iter().map(Some).collect());
    assert_eq!(stats.errors, 0);
    assert_eq!(recovered.get_order_status(&order_id), Some(OrderStatus::Filled));
    assert_eq!(recovered.metrics().orders_acknowledged, 1);
    assert_eq!(recovered.metrics().total_volume, executor.metrics().total_volume);
}

#[test]
fn cancel_is_journaled_and_replayed() {
    let mut executor = ProductionExecutor::new(ProductionExecutorConfig { enable_journal: true, instant_fills: false, ..Default::default() });
    let order_id = executor.place_order(Order::limit(Side::Sell, P50000, ONE)).unwrap();
    executor.cancel_order(&order_id).unwrap();
    let journal = executor.take_journal();
    assert_eq!(journal.len(), 3);
    assert!(matches!(journal[2], JournalEvent::OrderCancel(ref id) if *id == order_id));
    let mut recovered = ProductionExecutor::new(recovery_config());
    recovered.recover_from_journal(journal.into_iter().map(Some).collect());
    assert_eq!(recovered.get_order_status(&order_id), Some(OrderStatus::Cancelled));
    assert!(recovered.get_active_orders().is_empty());
}

use bog_core::execution::lighter::LighterExecutor;
use bog_core::execution::types::{ExecutionMode, Order, OrderId, OrderStatus, Side};

const P50000: u64 = 50_000_000_000_000;
const ONE: u64 = 1_000_000_000;

fn executor() -> LighterExecutor {
    LighterExecutor::new("https://api.lighter.xyz".to_string(), "wss://ws.lighter.xyz".to_string())
}

#[test]
fn test_lighter_stub_creation() {
    let executor = executor();
    assert_eq!(executor.execution_mode(), ExecutionMode::Live);
    assert_eq!(executor.api_url(), "https://api.lighter.xyz");
}

#[test]
fn test_stub_place_order() {
    let mut executor = executor();
    let order = Order::limit(Side::Buy, P50000, ONE / 10);
    let result = executor.place_order(order);
    assert!(result.is_ok());
    let order_id = result.unwrap();
    assert!(executor.get_order_status(&order_id).is_some());
    assert_eq!(executor.get_order_status(&order_id), Some(OrderStatus::Open));
}

#[test]
fn test_stub_cancel_order() {
    let mut executor = executor();
    let order = Order::limit(Side::Buy, P50000, ONE / 10);
    let order_id = executor.place_order(order).unwrap();
    let result = executor.cancel_order(&order_id);
    assert!(result.is_ok());
    assert_eq!(executor.get_order_status(&order_id), Some(OrderStatus::Cancelled));
    assert_eq!(executor.cancel_order(&order_id), Err(format!("Order {} is not active", order_id.as_str())));
}

#[test]
fn test_stub_no_fills() {
    let mut executor = executor();
    let fills = executor.get_fills();
    assert_eq!(fills.len(), 0);
}

#[test]
fn lighter_open_exposure_counts_active_orders() {
    let mut executor = executor();
    executor.place_order(Order::limit(Side::Buy, P50000, ONE)).unwrap();
    executor.place_order(Order::limit(Side::Buy, P50000, ONE / 2)).unwrap();
    let sell = executor.place_order(Order::limit(Side::Sell, P50000, 2 * ONE)).unwrap();
    assert_eq!(executor.get_open_exposure(), ((3 * ONE / 2) as i64, (2 * ONE) as i64));
    executor.cancel_order(&sell).unwrap();
    assert_eq!(executor.get_open_exposure(), ((3 * ONE / 2) as i64, 0));
}

#[test]
fn lighter_refuses_bad_identifiers_and_unknown_orders() {
    let mut executor = executor();
    let mut order = Order::limit(Side::Buy, P50000, ONE);
    order.id = OrderId::from("xyz");
    assert!(executor.place_order(order).unwrap_err().starts_with("Invalid order ID: "));
    let unknown = OrderId::from("0000000000000000000000000000000a");
    assert_eq!(executor.get_order_status(&unknown), None);
    assert_eq!(executor.cancel_order(&unknown), Err("Order 0000000000000000000000000000000a not found".to_string()));
}

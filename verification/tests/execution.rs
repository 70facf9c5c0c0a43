use bog_core::core_types::OrderId as CoreOrderId;
use bog_core::execution::order_bridge::{
    core_to_legacy_order_id, legacy_order_to_pending, legacy_to_core_order_id, order_state_to_legacy, parse_hex_u128,
    HexParseError, OrderStateWrapper,
};
use bog_core::execution::types::{ExecutionMode, Order, OrderId, OrderStatus, OrderType, Side, TimeInForce};
use bog_core::order_fsm::OrderState;

#[test]
fn test_execution_mode() {
    let mode = ExecutionMode::Simulated;
    assert_eq!(mode.to_string(), "SIMULATED");
    let mode = ExecutionMode::Live;
    assert_eq!(mode.to_string(), "LIVE");
}

#[test]
fn test_execution_mode_from_str() {
    assert_eq!(ExecutionMode::from_str("live"), Some(ExecutionMode::Live));
    assert_eq!(ExecutionMode::from_str("simulated"), Some(ExecutionMode::Simulated));
    assert_eq!(ExecutionMode::from_str("paper"), Some(ExecutionMode::Simulated));
    assert_eq!(ExecutionMode::from_str("invalid"), None);
}

#[test]
fn execution_mode_from_str_ignores_case() {
    assert_eq!(ExecutionMode::from_str("LIVE"), Some(ExecutionMode::Live));
    assert_eq!(ExecutionMode::from_str("Paper"), Some(ExecutionMode::Simulated));
    assert_eq!(ExecutionMode::from_lowercase("Live"), None);
}

#[test]
fn test_order_id() {
    let id1 = OrderId::new("test123".to_string());
    let id2 = OrderId::from("test123");
    assert_eq!(id1.as_str(), "test123");
    assert_eq!(id1, id2);
    assert_eq!(id1.to_string(), "test123");
}

#[test]
fn order_ids_from_string_and_random() {
    let id = OrderId::from(String::from("abc"));
    assert_eq!(id.as_str(), "abc");
    let a = OrderId::new_random();
    let b = OrderId::new_random();
    assert_eq!(a.as_str().len(), 32);
    assert_ne!(a, b);
    assert_eq!(a.clone(), a);
}

#[test]
fn side_text() {
    assert_eq!(Side::Buy.to_string(), "BUY");
    assert_eq!(Side::Sell.to_string(), "SELL");
}

// Prices and sizes in nine-decimal fixed point.
const P50000: u64 = 50_000_000_000_000;
const ONE: u64 = 1_000_000_000;

#[test]
fn types_test_order_creation() {
    let order = Order::limit(Side::Buy, P50000, ONE / 10);
    assert_eq!(order.side, Side::Buy);
    assert_eq!(order.order_type, OrderType::Limit);
    assert_eq!(order.price, P50000);
    assert_eq!(order.size, ONE / 10);
    assert_eq!(order.status, OrderStatus::Pending);
    assert_eq!(order.filled_size, 0);
    assert!(!order.is_filled());
    assert!(order.is_active());
}

#[test]
fn test_order_remaining_size() {
    let mut order = Order::limit(Side::Buy, P50000, ONE);
    assert_eq!(order.remaining_size(), ONE);
    order.filled_size = 300_000_000;
    assert_eq!(order.remaining_size(), 700_000_000);
    order.filled_size = ONE;
    assert_eq!(order.remaining_size(), 0);
    assert!(order.is_filled());
}

#[test]
fn test_market_order() {
    let order = Order::market(Side::Sell, ONE / 2);
    assert_eq!(order.order_type, OrderType::Market);
    assert_eq!(order.price, 0);
    assert_eq!(order.time_in_force, TimeInForce::IOC);
}

#[test]
fn test_post_only_order() {
    let order = Order::post_only(Side::Buy, P50000, ONE / 10);
    assert_eq!(order.order_type, OrderType::PostOnly);
}

#[test]
fn test_order_status_active() {
    let mut order = Order::limit(Side::Buy, P50000, ONE / 10);
    order.status = OrderStatus::Pending;
    assert!(order.is_active());
    order.status = OrderStatus::Open;
    assert!(order.is_active());
    order.status = OrderStatus::PartiallyFilled;
    assert!(order.is_active());
    order.status = OrderStatus::Filled;
    assert!(!order.is_active());
    order.status = OrderStatus::Cancelled;
    assert!(!order.is_active());
}

fn create_test_legacy_order() -> Order {
    Order::limit(Side::Buy, P50000, ONE)
}

#[test]
fn test_legacy_to_pending_conversion() {
    let legacy = create_test_legacy_order();
    let pending = legacy_order_to_pending(&legacy).unwrap();
    assert_eq!(pending.status(), OrderStatus::Pending);
    assert_eq!(pending.data().quantity, 1_000_000_000);
    assert_eq!(pending.data().price, 50_000_000_000_000);
}

#[test]
fn test_order_state_to_legacy_conversion() {
    let legacy = create_test_legacy_order();
    let pending = legacy_order_to_pending(&legacy).unwrap();
    let state = OrderState::Pending(pending.data);
    let converted = order_state_to_legacy(&state);
    assert_eq!(converted.status, OrderStatus::Pending);
    assert_eq!(converted.size, ONE);
    assert_eq!(converted.price, P50000);
}

#[test]
fn test_round_trip_conversion() {
    let original = create_test_legacy_order();
    let pending = legacy_order_to_pending(&original).unwrap();
    let state = OrderState::Pending(pending.data);
    let converted = order_state_to_legacy(&state);
    assert_eq!(converted.size, original.size);
    assert_eq!(converted.price, original.price);
    assert_eq!(converted.status, original.status);
    assert_eq!(converted.id, original.id);
}

#[test]
fn test_wrapper_acknowledge() {
    let legacy = create_test_legacy_order();
    let mut wrapper = OrderStateWrapper::from_legacy(&legacy).unwrap();
    assert_eq!(wrapper.status(), OrderStatus::Pending);
    wrapper.acknowledge().unwrap();
    assert_eq!(wrapper.status(), OrderStatus::Open);
    assert!(wrapper.acknowledge().is_err());
}

#[test]
fn test_wrapper_fill_sequence() {
    let legacy = create_test_legacy_order();
    let mut wrapper = OrderStateWrapper::from_legacy(&legacy).unwrap();
    wrapper.acknowledge().unwrap();
    wrapper.apply_fill(500_000_000, 50_000_000_000_000).unwrap();
    assert_eq!(wrapper.status(), OrderStatus::PartiallyFilled);
    wrapper.apply_fill(500_000_000, 50_000_000_000_000).unwrap();
    assert_eq!(wrapper.status(), OrderStatus::Filled);
    assert!(wrapper.apply_fill(100_000_000, 50_000_000_000_000).is_err());
}

#[test]
fn test_wrapper_cancel() {
    let legacy = create_test_legacy_order();
    let mut wrapper = OrderStateWrapper::from_legacy(&legacy).unwrap();
    wrapper.acknowledge().unwrap();
    wrapper.cancel().unwrap();
    assert_eq!(wrapper.status(), OrderStatus::Cancelled);
    assert!(wrapper.is_terminal());
}

#[test]
fn test_wrapper_reject() {
    let legacy = create_test_legacy_order();
    let mut wrapper = OrderStateWrapper::from_legacy(&legacy).unwrap();
    wrapper.reject("Insufficient funds".to_string()).unwrap();
    assert_eq!(wrapper.status(), OrderStatus::Rejected);
    assert!(wrapper.is_terminal());
}

#[test]
fn wrapper_refuses_bad_fills_and_keeps_state() {
    let mut wrapper = OrderStateWrapper::from_legacy(&create_test_legacy_order()).unwrap();
    assert_eq!(wrapper.apply_fill(1, 1).unwrap_err(), "Can only fill Open or PartiallyFilled orders");
    wrapper.acknowledge().unwrap();
    assert_eq!(wrapper.apply_fill(0, 1).unwrap_err(), "Fill validation failed: fill quantity is zero");
    assert_eq!(wrapper.apply_fill(1, 0).unwrap_err(), "Fill validation failed: fill price is zero");
    assert_eq!(
        wrapper.apply_fill(ONE + 1, 1).unwrap_err(),
        "Fill validation failed: fill quantity exceeds remaining quantity"
    );
    assert_eq!(wrapper.status(), OrderStatus::Open);
    assert_eq!(wrapper.to_legacy().filled_size, 0);
    wrapper.apply_fill(ONE / 4, P50000).unwrap();
    let legacy = wrapper.to_legacy();
    assert_eq!(legacy.filled_size, ONE / 4);
    assert_eq!(legacy.avg_fill_price, Some(P50000));
    assert!(wrapper.is_active());
    assert_eq!(wrapper.reject("late".to_string()).unwrap_err(), "Can only reject pending orders");
}

#[test]
fn order_ids_convert_both_ways() {
    let id = CoreOrderId(0x1f);
    let text = core_to_legacy_order_id(&id);
    assert_eq!(text.as_str(), "0000000000000000000000000000001f");
    assert_eq!(legacy_to_core_order_id(&text), Ok(id));
    assert_eq!(legacy_to_core_order_id(&OrderId::from("0x0xAbC")), Ok(CoreOrderId(0xabc)));
    assert_eq!(legacy_to_core_order_id(&OrderId::from("+10")), Ok(CoreOrderId(16)));
    assert_eq!(
        legacy_to_core_order_id(&OrderId::from("0x")).unwrap_err(),
        "Invalid OrderId hex string '': cannot parse integer from empty string"
    );
    assert_eq!(
        legacy_to_core_order_id(&OrderId::from("test123")).unwrap_err(),
        "Invalid OrderId hex string 'test123': invalid digit found in string"
    );
    assert_eq!(legacy_to_core_order_id(&OrderId::from("000")).unwrap_err(), "OrderId cannot be zero (reserved value)");
    let random = OrderId::new_random();
    let core = legacy_to_core_order_id(&random);
    if let Ok(c) = core {
        assert_eq!(core_to_legacy_order_id(&c), random);
    }
}

#[test]
fn hex_parsing_edges() {
    assert_eq!(parse_hex_u128("ffffffffffffffffffffffffffffffff"), Ok(u128::MAX));
    assert_eq!(parse_hex_u128("100000000000000000000000000000000"), Err(HexParseError::PosOverflow));
    assert_eq!(parse_hex_u128("-1"), Err(HexParseError::InvalidDigit));
    assert_eq!(parse_hex_u128("+"), Err(HexParseError::InvalidDigit));
    assert_eq!(parse_hex_u128(""), Err(HexParseError::Empty));
    assert_eq!(parse_hex_u128("00FF"), Ok(255));
}

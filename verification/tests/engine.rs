use bog_core::core_types::{OrderId, Position, Side, Signal, SignalAction};
use bog_core::data::MarketSnapshot;
use bog_core::engine::alert_manager::{AlertConfig, AlertManager, AlertSeverity, AlertType};
use bog_core::engine::executor_bridge::{plan_signal, BridgeAction, ExecutorBridge};
use bog_core::engine::gap_recovery::{
    snapshot_outcome, GapDecision, GapRecoveryConfig, GapRecoveryError, GapRecoveryManager, RecoveryFeed, RecoveryStep,
};
use bog_core::engine::generic::{apply_drained, startup_step, Engine, EngineError, Executor, FixedFill, HotData, StartupStep, Strategy};
use bog_core::engine::position_reconciliation::{PositionReconciler, ReconciliationConfig};
use bog_core::engine::risk::{order_size_valid, position_within_limits, validate_signal, RiskViolation, MAX_DAILY_LOSS,
    MAX_ORDER_SIZE, MAX_POSITION, MAX_SHORT, MIN_ORDER_SIZE};
use bog_core::engine::simulated::{OrderSide, OrderStatusBits, PooledFill, PooledOrder, SimulatedExecutor};
use bog_core::engine::strategy_wrapper::{StrategyState, StrategyWrapper};
use bog_core::execution::types::{ExecutionMode, OrderId as ExecOrderId, Side as ExecSide};
use bog_core::execution::{ActiveOrder, Executor as OrderExecutor, LimitOrder};
use bog_core::orderbook::l2_book::L2OrderBook;
use std::collections::HashMap;

#[test]
fn test_gap_recovery_config_defaults() {
    let config = GapRecoveryConfig::default();
    assert!(config.auto_recover);
    assert_eq!(config.max_recoverable_gap, 10000);
    assert!(config.pause_trading_during_recovery);
    assert!(config.alert_on_gap);
}

#[test]
fn test_gap_recovery_manager_initialization() {
    let manager = GapRecoveryManager::new(GapRecoveryConfig::default());
    assert!(!manager.is_recovering());
    assert!(!manager.should_pause_trading());
    assert_eq!(manager.stats().total_gaps_detected, 0);
    assert_eq!(manager.stats().total_gaps_recovered, 0);
}

#[test]
fn test_should_abandon_after_failures() {
    let mut manager = GapRecoveryManager::new(GapRecoveryConfig::default());
    assert!(!manager.should_abandon());
    for _ in 0..5 {
        manager.begin_gap(20_000);
    }
    assert_eq!(manager.stats().consecutive_failures, 5);
    assert!(manager.should_abandon());
}

#[test]
fn gap_recovery_counts_and_decisions() {
    let mut manager = GapRecoveryManager::new(GapRecoveryConfig::default());
    assert_eq!(manager.begin_gap(1000), GapDecision::Recover);
    assert!(manager.should_pause_trading());
    assert_eq!(manager.finish_attempt(1000, 1, false), RecoveryStep::Retry { next_attempt: 2 });
    assert_eq!(manager.finish_attempt(1000, 2, true), RecoveryStep::Recovered);
    assert!(!manager.is_recovering());
    let stats = manager.stats();
    assert_eq!(stats.total_gaps_detected, 1);
    assert_eq!(stats.total_gaps_recovered, 1);
    assert_eq!(stats.largest_gap_recovered, 1000);
    assert!(matches!(manager.begin_gap(10_001), GapDecision::Reject(_)));
    assert_eq!(manager.stats().total_gaps_failed, 1);
}

#[test]
fn gap_recovery_snapshot_outcome() {
    let fetched = snapshot(7, 100, 101, 5);
    match snapshot_outcome(Some(fetched)) {
        Ok(s) => {
            assert_eq!(s.sequence, 7);
            assert_eq!(s.best_bid_price, 100);
            assert_eq!(s.best_ask_price, 101);
        },
        Err(e) => panic!("unexpected error {:?}", e),
    }
    assert!(matches!(snapshot_outcome(None), Err(GapRecoveryError::SnapshotTimeout)));
}

#[test]
fn test_reconciliation_success() {
    let mut reconciler = PositionReconciler::new();
    let result = reconciler.reconcile(100_000_000, 100_000_000);
    assert!(result.is_ok());
    assert_eq!(result.unwrap(), 0);
    let stats = reconciler.stats();
    assert_eq!(stats.successful, 1);
    assert_eq!(stats.failed, 0);
}

#[test]
fn test_reconciliation_small_drift() {
    let mut config = ReconciliationConfig::default();
    config.auto_correct_threshold = 1_000_000;
    let mut reconciler = PositionReconciler::with_config(config);
    let result = reconciler.reconcile(100_000_000, 100_500_000);
    assert!(result.is_ok());
    assert_eq!(result.unwrap(), 500_000);
    let stats = reconciler.stats();
    assert_eq!(stats.successful, 1);
    assert_eq!(stats.max_drift, 500_000);
}

#[test]
fn test_reconciliation_large_drift() {
    let mut config = ReconciliationConfig::default();
    config.max_position_mismatch = 1_000_000;
    config.halt_on_mismatch = true;
    let mut reconciler = PositionReconciler::with_config(config);
    let result = reconciler.reconcile(100_000_000, 110_000_000);
    assert!(result.is_err());
    let stats = reconciler.stats();
    assert_eq!(stats.failed, 1);
    assert_eq!(stats.max_drift, 10_000_000);
}

#[test]
fn test_fill_counter() {
    let mut config = ReconciliationConfig::default();
    config.reconcile_every_n_fills = 10;
    let mut reconciler = PositionReconciler::with_config(config);
    assert!(!reconciler.should_reconcile());
    for _ in 0..9 {
        reconciler.on_fill();
        assert!(!reconciler.should_reconcile());
    }
    reconciler.on_fill();
    assert!(reconciler.should_reconcile());
    let _ = reconciler.reconcile(100_000_000, 100_000_000);
    assert!(!reconciler.should_reconcile());
}

#[test]
fn test_const_limits() {
    println!("MAX_POSITION: {}", MAX_POSITION);
    println!("MAX_SHORT: {}", MAX_SHORT);
    println!("MAX_ORDER_SIZE: {}", MAX_ORDER_SIZE);
    println!("MIN_ORDER_SIZE: {}", MIN_ORDER_SIZE);
    println!("MAX_DAILY_LOSS: {}", MAX_DAILY_LOSS);
    assert!(MAX_POSITION > 0);
    assert!(MAX_SHORT > 0);
    assert!(MAX_ORDER_SIZE > 0);
    assert!(MIN_ORDER_SIZE > 0);
    assert!(MAX_ORDER_SIZE as i64 <= MAX_POSITION);
    assert!(MIN_ORDER_SIZE <= MAX_ORDER_SIZE);
}

#[test]
fn test_order_size_valid() {
    assert!(!order_size_valid(MIN_ORDER_SIZE - 1));
    assert!(order_size_valid(MIN_ORDER_SIZE));
    assert!(order_size_valid(MAX_ORDER_SIZE));
    assert!(!order_size_valid(MAX_ORDER_SIZE + 1));
}

#[test]
fn test_position_within_limits() {
    assert!(position_within_limits(0));
    assert!(position_within_limits(MAX_POSITION));
    assert!(position_within_limits(MAX_POSITION / 2));
    assert!(position_within_limits(-MAX_SHORT));
    assert!(position_within_limits(-MAX_SHORT / 2));
    assert!(!position_within_limits(MAX_POSITION + 1));
    assert!(!position_within_limits(-MAX_SHORT - 1));
}

#[test]
fn engine_risk_rejects_breaches() {
    let pos = Position::from_parts(900_000_000, 0, 0);
    let big_buy = Signal::quote_bid(50_000_000_000_000, 200_000_000);
    assert_eq!(validate_signal(&big_buy, &pos), Err(RiskViolation::PositionLimitLong));
    let tiny = Signal::quote_bid(50_000_000_000_000, 1);
    assert_eq!(validate_signal(&tiny, &Position::new()), Err(RiskViolation::OrderTooSmall));
    assert_eq!(validate_signal(&Signal::no_action(), &Position::new()), Ok(()));
}

#[test]
fn test_pooled_order_size() {
    let size = std::mem::size_of::<PooledOrder>();
    println!("PooledOrder size: {} bytes", size);
    assert!(size <= 64);
}

#[test]
fn test_pooled_fill_size() {
    let size = std::mem::size_of::<PooledFill>();
    println!("PooledFill size: {} bytes", size);
    assert!(size <= 48);
}

#[test]
fn simulated_test_order_creation() {
    let order = PooledOrder::new(OrderId::generate(), OrderSide::Buy, 50_000_000_000_000, 100_000_000);
    assert_eq!(order.side, OrderSide::Buy);
    assert_eq!(order.price, 50_000_000_000_000);
    assert_eq!(order.size, 100_000_000);
    assert_eq!(order.filled_size, 0);
    assert!(order.is_active());
    assert!(!order.is_filled());
}

#[test]
fn test_order_filling() {
    let mut order = PooledOrder::new(OrderId::generate(), OrderSide::Buy, 50_000_000_000_000, 100_000_000);
    order.filled_size = 50_000_000;
    assert!(!order.is_filled());
    assert_eq!(order.remaining_size(), 50_000_000);
    order.filled_size = 100_000_000;
    assert!(order.is_filled());
    assert_eq!(order.remaining_size(), 0);
}

#[test]
fn simulated_test_fill_calculations() {
    let fill = PooledFill::new(OrderId::generate(), OrderSide::Buy, 50_000_000_000_000, 100_000_000);
    let notional = fill.notional();
    assert_eq!(notional, 5_000_000_000_000);
    assert_eq!(fill.position_change(), 100_000_000);
}

#[test]
fn simulated_test_fill_sell() {
    let fill = PooledFill::new(OrderId::generate(), OrderSide::Sell, 50_000_000_000_000, 100_000_000);
    assert_eq!(fill.position_change(), -100_000_000);
}

#[test]
fn test_order_side_size() {
    assert_eq!(std::mem::size_of::<OrderSide>(), 1);
}

#[test]
fn test_order_status_size() {
    assert_eq!(std::mem::size_of::<OrderStatusBits>(), 1);
}

#[test]
fn simulated_executor_counts_orders_and_fills() {
    let mut executor = SimulatedExecutor::new_default();
    let stats = executor.stats();
    assert_eq!(stats.total_orders, 0);
    let position = Position::new();
    let signal = Signal::quote_both(49_995_000_000_000, 50_005_000_000_000, 100_000_000);
    executor.execute(signal, &position).unwrap();
    let stats = executor.stats();
    assert_eq!(stats.total_orders, 2);
    assert_eq!(stats.total_fills, 2);
    assert_eq!(stats.total_volume, 200_000_000);
    let mut fills = Vec::new();
    executor.get_fills(&mut fills);
    assert_eq!(fills.len(), 2);
    assert_eq!(fills[0].side, Side::Buy);
    assert_eq!(fills[0].price, 49_995_000_000_000);
    assert_eq!(fills[1].side, Side::Sell);
    assert_eq!(fills[0].fee_sub_bps, Some(200));
    let mut again = Vec::new();
    executor.get_fills(&mut again);
    assert!(again.is_empty());
}

#[test]
fn simulated_executor_reports_overflow() {
    let mut executor = SimulatedExecutor::new(4, 1);
    let position = Position::new();
    let signal = Signal::quote_both(49_995_000_000_000, 50_005_000_000_000, 100_000_000);
    assert!(executor.execute(signal, &position).is_err());
    assert_eq!(executor.dropped_fill_count(), 1);
    assert_eq!(executor.stats().total_orders, 1);
    assert_eq!(executor.stats().total_fills, 2);
}

#[test]
fn simulated_executor_rejects_risky_signal() {
    let mut executor = SimulatedExecutor::new_default();
    let signal = Signal::quote_bid(50_000_000_000_000, 1);
    assert!(executor.execute(signal, &Position::new()).is_err());
    assert_eq!(executor.stats().total_orders, 0);
    assert!(executor.execute(Signal::no_action(), &Position::new()).is_ok());
    assert_eq!(executor.name(), "SimulatedExecutor");
    assert_eq!(executor.get_open_exposure(), (0, 0));
}

#[test]
fn alert_manager_test_alert_severity_ordering() {
    assert!(AlertSeverity::Critical > AlertSeverity::Error);
    assert!(AlertSeverity::Error > AlertSeverity::Warning);
    assert!(AlertSeverity::Warning > AlertSeverity::Info);
}

#[test]
fn alert_manager_raises_and_halts() {
    let config = AlertConfig::default();
    let mut manager = AlertManager::new(config);
    assert!(!manager.is_trading_halted());
    let mut context = HashMap::new();
    context.insert("gap_size".to_string(), "100".to_string());
    manager.raise_alert(AlertType::DataGap, "Sequence gap detected".to_string(), context).unwrap();
    assert_eq!(manager.stats().total_alerts, 1);
    assert_eq!(manager.stats().error_count, 1);
    manager.raise_alert(AlertType::DataInvalid, "Invalid data detected".to_string(), HashMap::new()).unwrap();
    assert!(manager.is_trading_halted());
    manager.reset_halt();
    assert!(!manager.is_trading_halted());
    assert_eq!(manager.recent_alerts(1).len(), 1);
    assert_eq!(manager.recent_alerts(10).len(), 2);
    assert_eq!(AlertType::DataGap.to_string(), "DATA_GAP");
    assert_eq!(AlertType::HighQueueDepth.default_severity(), AlertSeverity::Info);
}

#[test]
fn alert_manager_rate_limits_per_type() {
    let mut config = AlertConfig::default();
    config.rate_limit_by_severity.insert(AlertSeverity::Warning, 2);
    let mut manager = AlertManager::new(config);
    for i in 0..2 {
        manager.raise_alert_at(AlertType::HighLatency, format!("High latency {}", i), HashMap::new(), 0).unwrap();
    }
    assert_eq!(manager.stats().total_alerts, 2);
    manager.raise_alert_at(AlertType::HighLatency, "High latency 3".to_string(), HashMap::new(), 1).unwrap();
    assert_eq!(manager.stats().total_alerts, 2);
    manager.raise_alert_at(AlertType::HighLatency, "later".to_string(), HashMap::new(), 61_000_000_000).unwrap();
    assert_eq!(manager.stats().total_alerts, 3);
}

#[test]
fn test_hot_data_alignment() {
    assert_eq!(std::mem::align_of::<HotData>(), 64);
    assert_eq!(std::mem::size_of::<HotData>(), 64);
}

#[test]
fn test_market_change_detection() {
    let mut hot = HotData::new();
    assert!(hot.market_changed(100, 105));
    assert!(!hot.market_changed(100, 105));
    assert!(hot.market_changed(100, 106));
    assert!(hot.market_changed(101, 106));
}

struct MockStrategy {
    call_count: u64,
}

impl Strategy for MockStrategy {
    fn calculate(&mut self, _book: &L2OrderBook, _position: &Position) -> Option<Signal> {
        self.call_count += 1;
        if self.call_count % 2 == 0 {
            Some(Signal::quote_both(50_000_000_000_000, 50_005_000_000_000, 100_000_000))
        } else {
            None
        }
    }

    fn name(&self) -> &'static str {
        "MockStrategy"
    }
}

struct MockExecutor {
    execute_count: u64,
    pending: Vec<FixedFill>,
    exposure: (i64, i64),
}

impl MockExecutor {
    fn new() -> Self {
        MockExecutor { execute_count: 0, pending: Vec::new(), exposure: (0, 0) }
    }
}

impl Executor for MockExecutor {
    fn execute(&mut self, _signal: Signal, _position: &Position) -> Result<(), String> {
        self.execute_count += 1;
        Ok(())
    }

    fn cancel_all(&mut self) -> Result<(), String> {
        Ok(())
    }

    fn get_fills(&mut self, fills: &mut Vec<FixedFill>) {
        fills.extend(std::mem::take(&mut self.pending));
    }

    fn dropped_fill_count(&self) -> u64 {
        0
    }

    fn name(&self) -> &'static str {
        "MockExecutor"
    }

    fn get_open_exposure(&self) -> (i64, i64) {
        self.exposure
    }
}

fn snapshot(seq: u64, bid: u64, ask: u64, recv_ns: u64) -> MarketSnapshot {
    let mut s = MarketSnapshot::zeroed();
    s.market_id = 1;
    s.sequence = seq;
    s.local_recv_ns = recv_ns;
    s.best_bid_price = bid;
    s.best_bid_size = 1_000_000_000;
    s.best_ask_price = ask;
    s.best_ask_size = 1_000_000_000;
    s.bid_prices[0] = bid;
    s.bid_sizes[0] = 1_000_000_000;
    s.ask_prices[0] = ask;
    s.ask_sizes[0] = 1_000_000_000;
    s
}

#[test]
fn test_process_tick() {
    let mut engine = Engine::new(MockStrategy { call_count: 0 }, MockExecutor::new());
    assert_eq!(engine.position().get_quantity(), 0);
    assert_eq!(engine.stats().ticks_processed, 0);
    let start_time = 1_000_000_000;
    let snapshot1 = snapshot(1, 50_000_000_000_000, 50_005_000_000_000, start_time);
    engine.process_tick(&snapshot1, true).unwrap();
    assert_eq!(engine.stats().ticks_processed, 1);
    assert_eq!(engine.strategy().call_count, 1);
    assert_eq!(engine.executor().execute_count, 0);
    engine.process_tick(&snapshot1, true).unwrap();
    assert_eq!(engine.stats().ticks_processed, 2);
    assert_eq!(engine.strategy().call_count, 1);
    let snapshot2 = snapshot(2, 50_001_000_000_000, 50_006_000_000_000, start_time + 200_000_000);
    engine.process_tick(&snapshot2, true).unwrap();
    assert_eq!(engine.stats().ticks_processed, 3);
    assert_eq!(engine.strategy().call_count, 2);
    assert_eq!(engine.executor().execute_count, 1);
    assert_eq!(engine.stats().signals_generated, 1);
}

#[test]
fn engine_never_trades_on_stale_data() {
    let mut engine = Engine::new(MockStrategy { call_count: 1 }, MockExecutor::new());
    let s = snapshot(1, 50_000_000_000_000, 50_005_000_000_000, 1_000_000_000);
    engine.process_tick(&s, false).unwrap();
    assert_eq!(engine.executor().execute_count, 0);
    assert_eq!(engine.strategy().call_count, 1);
    assert_eq!(engine.stats().signals_generated, 0);
}

#[test]
fn engine_skips_signal_over_open_exposure() {
    let mut executor = MockExecutor::new();
    executor.exposure = (MAX_POSITION, 0);
    let mut engine = Engine::new(MockStrategy { call_count: 1 }, executor);
    let s = snapshot(1, 50_000_000_000_000, 50_005_000_000_000, 1_000_000_000);
    engine.process_tick(&s, true).unwrap();
    assert_eq!(engine.stats().signals_generated, 0);
    assert_eq!(engine.executor().execute_count, 0);
}

#[test]
fn engine_rate_limits_quotes() {
    let mut engine = Engine::new(MockStrategy { call_count: 1 }, MockExecutor::new());
    engine.process_tick(&snapshot(1, 50_000_000_000_000, 50_005_000_000_000, 1_000_000_000), true).unwrap();
    assert_eq!(engine.executor().execute_count, 1);
    engine.process_tick(&snapshot(2, 50_001_000_000_000, 50_006_000_000_000, 1_000_000_001), true).unwrap();
    engine.process_tick(&snapshot(3, 50_000_000_000_000, 50_005_000_000_000, 1_000_000_002), true).unwrap();
    assert_eq!(engine.executor().execute_count, 1);
}

#[test]
fn engine_applies_fills_on_first_tick() {
    struct Noop;
    impl Strategy for Noop {
        fn calculate(&mut self, _book: &L2OrderBook, _position: &Position) -> Option<Signal> {
            None
        }
        fn name(&self) -> &'static str {
            "Noop"
        }
    }
    let mut executor = MockExecutor::new();
    executor.pending.push(FixedFill { side: Side::Buy, price: 50_000_000_000_000, size: 100_000_000, fee_sub_bps: None });
    let mut engine = Engine::new(Noop, executor);
    let s = snapshot(1, 50_000_000_000_000, 50_005_000_000_000, 1_000_000_000);
    engine.process_tick(&s, true).unwrap();
    assert_eq!(engine.position().get_quantity(), 100_000_000);
    assert_eq!(engine.position().get_trade_count(), 1);
}

#[test]
fn engine_halts_on_position_limit_fill() {
    struct Noop;
    impl Strategy for Noop {
        fn calculate(&mut self, _book: &L2OrderBook, _position: &Position) -> Option<Signal> {
            None
        }
        fn name(&self) -> &'static str {
            "Noop"
        }
    }
    let mut executor = MockExecutor::new();
    executor.pending.push(FixedFill { side: Side::Buy, price: 1_000_000_000, size: 2_000_000_000, fee_sub_bps: Some(0) });
    let mut engine = Engine::new(Noop, executor);
    let s = snapshot(1, 50_000_000_000_000, 50_005_000_000_000, 1_000_000_000);
    let r = engine.process_tick(&s, true);
    assert!(matches!(r, Err(EngineError::PositionLimitExceeded { quantity: 2_000_000_000, limit: 1_000_000_000 })));
}

#[test]
fn startup_waits_for_valid_snapshot() {
    let good = snapshot(1, 50_000_000_000_000, 50_005_000_000_000, 0);
    let crossed = snapshot(1, 50_005_000_000_000, 50_000_000_000_000, 0);
    assert_eq!(startup_step(0, Some(good)), StartupStep::Start);
    assert_eq!(startup_step(0, Some(crossed)), StartupStep::Wait { retries: 1 });
    assert_eq!(startup_step(5, None), StartupStep::Wait { retries: 6 });
    assert_eq!(startup_step(99, None), StartupStep::GiveUp { retries: 100 });
}

struct RecordingExecutor {
    active: Vec<(String, ExecSide)>,
    log: Vec<String>,
}

impl OrderExecutor for RecordingExecutor {
    fn place_order(&mut self, order: LimitOrder) -> Result<ExecOrderId, String> {
        self.log.push(format!("place {:?} {}", order.side, order.price));
        Ok(ExecOrderId::new("new".to_string()))
    }

    fn cancel_order(&mut self, order_id: &ExecOrderId) -> Result<(), String> {
        self.log.push(format!("cancel {}", order_id.as_str()));
        Ok(())
    }

    fn get_fills(&mut self, _fills: &mut Vec<FixedFill>) {}

    fn get_active_orders(&self) -> Vec<ActiveOrder> {
        self.active
            .iter()
            .map(|(id, side)| ActiveOrder { id: ExecOrderId::new(id.clone()), side: *side })
            .collect()
    }

    fn execution_mode(&self) -> ExecutionMode {
        ExecutionMode::Simulated
    }

    fn get_open_exposure(&self) -> (i64, i64) {
        (0, 0)
    }
}

#[test]
fn bridge_plan_cancels_extras_and_amends() {
    let active = vec![
        ActiveOrder { id: ExecOrderId::new("b1".to_string()), side: ExecSide::Buy },
        ActiveOrder { id: ExecOrderId::new("b2".to_string()), side: ExecSide::Buy },
        ActiveOrder { id: ExecOrderId::new("s1".to_string()), side: ExecSide::Sell },
    ];
    let plan = plan_signal(&active, &Signal::quote_bid(100, 5));
    assert_eq!(plan.len(), 3);
    assert!(matches!(&plan[0], BridgeAction::Cancel(id) if id.as_str() == "b2"));
    assert!(matches!(&plan[1], BridgeAction::Amend(id, o) if id.as_str() == "b1" && o.price == 100 && o.size == 5));
    assert!(matches!(&plan[2], BridgeAction::Cancel(id) if id.as_str() == "s1"));
    let plan = plan_signal(&active, &Signal::cancel_all());
    assert_eq!(plan.len(), 3);
}

#[test]
fn bridge_executes_plan_in_order() {
    let inner = RecordingExecutor { active: vec![("b1".to_string(), ExecSide::Buy)], log: Vec::new() };
    let mut bridge = ExecutorBridge::new(inner);
    let take = Signal { action: SignalAction::TakePosition, side: Side::Buy, bid_price: 10, ask_price: 20, size: 5 };
    bridge.execute(take, &Position::new()).unwrap();
    assert_eq!(bridge.name(), "BridgedSimulatedExecutor");
}

#[test]
fn test_validate_no_action() {
    let position = Position::new();
    assert!(validate_signal(&Signal::no_action(), &position).is_ok());
}

#[test]
fn test_validate_cancel_all() {
    let position = Position::new();
    assert!(validate_signal(&Signal::cancel_all(), &position).is_ok());
}

#[test]
fn test_validate_order_size() {
    let position = Position::new();
    let signal = Signal::quote_both(50_000_000_000_000, 50_005_000_000_000, MIN_ORDER_SIZE - 1);
    assert!(validate_signal(&signal, &position).is_err());
    let signal = Signal::quote_both(50_000_000_000_000, 50_005_000_000_000, MIN_ORDER_SIZE);
    assert!(validate_signal(&signal, &position).is_ok());
    let signal = Signal::quote_both(50_000_000_000_000, 50_005_000_000_000, MAX_ORDER_SIZE + 1);
    assert!(validate_signal(&signal, &position).is_err());
}

#[test]
fn test_validate_position_limits_long() {
    let position = Position::new();
    let signal = Signal::quote_bid(50_000_000_000_000, MAX_POSITION as u64 + 1);
    assert!(validate_signal(&signal, &position).is_err());
    let signal = Signal::quote_bid(50_000_000_000_000, MAX_ORDER_SIZE);
    assert!(validate_signal(&signal, &position).is_ok());
}

#[test]
fn test_validate_position_limits_short() {
    let position = Position::new();
    let signal = Signal::quote_ask(50_000_000_000_000, MAX_SHORT as u64 + 1);
    assert!(validate_signal(&signal, &position).is_err());
    let signal = Signal::quote_ask(50_000_000_000_000, MAX_ORDER_SIZE);
    assert!(validate_signal(&signal, &position).is_ok());
}

#[test]
fn test_validate_quote_both() {
    let position = Position::new();
    let signal = Signal::quote_both(50_000_000_000_000, 50_005_000_000_000, MAX_ORDER_SIZE);
    assert!(validate_signal(&signal, &position).is_ok());
    let signal = Signal::quote_both(50_000_000_000_000, 50_005_000_000_000, MAX_POSITION as u64 + 1);
    assert!(validate_signal(&signal, &position).is_err());
}

#[test]
fn test_risk_violation_enum() {
    assert_eq!(RiskViolation::OrderTooSmall.as_str(), "Order size below minimum");
    assert_eq!(RiskViolation::NoViolation.as_str(), "No violation");
}

#[test]
fn test_violation_enum_size() {
    assert_eq!(std::mem::size_of::<RiskViolation>(), 1);
}

#[test]
fn engine_risk_reports_each_violation() {
    let signal = Signal::quote_bid(50_000_000_000_000, MIN_ORDER_SIZE - 1);
    assert_eq!(validate_signal(&signal, &Position::new()), Err(RiskViolation::OrderTooSmall));
    let signal = Signal::quote_bid(50_000_000_000_000, MAX_ORDER_SIZE + 1);
    assert_eq!(validate_signal(&signal, &Position::new()), Err(RiskViolation::OrderTooLarge));
    let long = Position::from_parts(MAX_POSITION, 0, 0);
    let signal = Signal::quote_bid(50_000_000_000_000, MIN_ORDER_SIZE);
    assert_eq!(validate_signal(&signal, &long), Err(RiskViolation::PositionLimitLong));
    let short = Position::from_parts(-MAX_SHORT, 0, 0);
    let signal = Signal::quote_ask(50_000_000_000_000, MIN_ORDER_SIZE);
    assert_eq!(validate_signal(&signal, &short), Err(RiskViolation::PositionLimitShort));
    let losing = Position::from_parts(0, -MAX_DAILY_LOSS - 1, 0);
    let signal = Signal::quote_bid(50_000_000_000_000, MIN_ORDER_SIZE);
    assert_eq!(validate_signal(&signal, &losing), Err(RiskViolation::DailyLossLimit));
}

#[test]
fn test_executor_creation() {
    let executor = SimulatedExecutor::new_default();
    let stats = executor.stats();
    assert_eq!(stats.total_orders, 0);
    assert_eq!(stats.total_fills, 0);
    assert_eq!(stats.total_volume, 0);
}

#[test]
fn test_executor_signal_execution() {
    let mut executor = SimulatedExecutor::new_default();
    let position = Position::new();
    let signal = Signal::quote_both(49_995_000_000_000, 50_005_000_000_000, 100_000_000);
    executor.execute(signal, &position).unwrap();
    let stats = executor.stats();
    assert_eq!(stats.total_orders, 2);
    assert_eq!(stats.total_fills, 2);
    assert_eq!(stats.total_volume, 200_000_000);
}

#[test]
fn test_executor_quote_bid_only() {
    let mut executor = SimulatedExecutor::new_default();
    let position = Position::new();
    let signal = Signal::quote_bid(50_000_000_000_000, 100_000_000);
    executor.execute(signal, &position).unwrap();
    let stats = executor.stats();
    assert_eq!(stats.total_orders, 1);
    assert_eq!(stats.total_fills, 1);
}

#[test]
fn test_executor_no_action() {
    let mut executor = SimulatedExecutor::new_default();
    let position = Position::new();
    executor.execute(Signal::no_action(), &position).unwrap();
    let stats = executor.stats();
    assert_eq!(stats.total_orders, 0);
    assert_eq!(stats.total_fills, 0);
}

#[test]
fn test_cancel_all() {
    let mut executor = SimulatedExecutor::new_default();
    executor.cancel_all().unwrap();
}

#[test]
fn test_executor_fee_amount_matches_config_bps() {
    let mut executor = SimulatedExecutor::new_default();
    let position = Position::new();
    let signal = Signal::quote_bid(50_000_000_000_000, 100_000_000);
    executor.execute(signal, &position).unwrap();
    let mut fills = Vec::new();
    executor.get_fills(&mut fills);
    assert_eq!(fills.len(), 1);
    // Fee rate in hundredths of a basis point: DEFAULT_FEE_BPS = 2 bps.
    assert_eq!(fills[0].fee_sub_bps, Some(bog_core::config::DEFAULT_FEE_BPS as i32 * 100));
}

struct NoopStrategy;

impl Strategy for NoopStrategy {
    fn calculate(&mut self, _book: &L2OrderBook, _position: &Position) -> Option<Signal> {
        None
    }
    fn name(&self) -> &'static str {
        "NoopStrategy"
    }
}

struct QuoteStrategy;

impl Strategy for QuoteStrategy {
    fn calculate(&mut self, _book: &L2OrderBook, _position: &Position) -> Option<Signal> {
        Some(Signal::quote_both(50_000_000_000_000, 50_010_000_000_000, 100_000_000))
    }
    fn name(&self) -> &'static str {
        "QuoteStrategy"
    }
}

fn fill(side: Side, price: u64, size: u64) -> FixedFill {
    FixedFill { side, price, size, fee_sub_bps: Some(0) }
}

#[test]
fn test_engine_creation() {
    let engine = Engine::new(MockStrategy { call_count: 0 }, MockExecutor::new());
    assert_eq!(engine.position().get_quantity(), 0);
    assert_eq!(engine.stats().ticks_processed, 0);
}

#[test]
fn test_fills_processed_when_market_static() {
    let mut engine = Engine::new(NoopStrategy, MockExecutor::new());
    let s = snapshot(1, 50_000_000_000_000, 50_005_000_000_000, 0);
    engine.process_tick(&s, true).unwrap();
    engine.executor_mut().pending.push(fill(Side::Buy, 50_000_000_000_000, 100_000_000));
    engine.process_tick(&s, true).unwrap();
    assert_eq!(engine.position().get_quantity(), 100_000_000);
}

#[test]
fn test_fills_processed_when_data_stale() {
    let mut engine = Engine::new(NoopStrategy, MockExecutor::new());
    let s = snapshot(1, 50_000_000_000_000, 50_005_000_000_000, 0);
    engine.process_tick(&s, true).unwrap();
    engine.executor_mut().pending.push(fill(Side::Sell, 50_000_000_000_000, 100_000_000));
    engine.process_tick(&s, false).unwrap();
    assert_eq!(engine.position().get_quantity(), -100_000_000);
}

#[test]
fn test_pre_trade_risk_with_open_exposure() {
    struct AlwaysQuoteStrategy;
    impl Strategy for AlwaysQuoteStrategy {
        fn calculate(&mut self, _book: &L2OrderBook, _position: &Position) -> Option<Signal> {
            Some(Signal::quote_both(50000, 50001, 1_000_000_000))
        }
        fn name(&self) -> &'static str {
            "AlwaysQuote"
        }
    }
    let mut executor = MockExecutor::new();
    executor.exposure = (MAX_POSITION, 0);
    let mut engine = Engine::new(AlwaysQuoteStrategy, executor);
    let s = snapshot(1, 50_000_000_000_000, 50_005_000_000_000, 0);
    engine.process_tick(&s, true).unwrap();
    assert_eq!(engine.stats().signals_generated, 0, "Should skip execution due to risk limits");
}

const TEST_MAX_ORDER: i64 = 500_000_000;

#[test]
fn test_take_position_limit_enforcement() {
    struct TakePositionStrategy;
    impl Strategy for TakePositionStrategy {
        fn calculate(&mut self, _book: &L2OrderBook, _position: &Position) -> Option<Signal> {
            Some(Signal::take_position(Side::Buy, TEST_MAX_ORDER as u64))
        }
        fn name(&self) -> &'static str {
            "TakePositionStrategy"
        }
    }
    let mut engine = Engine::new(TakePositionStrategy, MockExecutor::new());
    // Pre-load the position close to the long limit through a fill.
    let preload = MAX_POSITION - TEST_MAX_ORDER + 1;
    engine.executor_mut().pending.push(fill(Side::Buy, 50_000_000_000_000, preload as u64));
    let s = snapshot(10, 50_000_000_000_000, 50_005_000_000_000, 0);
    engine.process_tick(&s, true).unwrap();
    assert_eq!(engine.position().get_quantity(), preload);
    assert_eq!(engine.executor().execute_count, 0);
    assert_eq!(engine.stats().signals_generated, 0);
}

#[test]
fn test_take_position_short_limit_enforcement() {
    struct ShortTakeStrategy;
    impl Strategy for ShortTakeStrategy {
        fn calculate(&mut self, _book: &L2OrderBook, _position: &Position) -> Option<Signal> {
            Some(Signal::take_position(Side::Sell, TEST_MAX_ORDER as u64))
        }
        fn name(&self) -> &'static str {
            "ShortTakeStrategy"
        }
    }
    let mut engine = Engine::new(ShortTakeStrategy, MockExecutor::new());
    let preload = -MAX_SHORT + TEST_MAX_ORDER - 1;
    engine.executor_mut().pending.push(fill(Side::Sell, 50_000_000_000_000, (-preload) as u64));
    let s = snapshot(11, 50_000_000_000_000, 50_005_000_000_000, 0);
    engine.process_tick(&s, true).unwrap();
    assert_eq!(engine.position().get_quantity(), preload);
    assert_eq!(engine.executor().execute_count, 0);
    assert_eq!(engine.stats().signals_generated, 0);
}

#[test]
fn take_position_within_limits_executes() {
    struct TakeSmall;
    impl Strategy for TakeSmall {
        fn calculate(&mut self, _book: &L2OrderBook, _position: &Position) -> Option<Signal> {
            Some(Signal::take_position(Side::Buy, 100_000_000))
        }
        fn name(&self) -> &'static str {
            "TakeSmall"
        }
    }
    let mut engine = Engine::new(TakeSmall, MockExecutor::new());
    let s = snapshot(1, 50_000_000_000_000, 50_005_000_000_000, 0);
    engine.process_tick(&s, true).unwrap();
    assert_eq!(engine.executor().execute_count, 1);
}

#[test]
fn test_drawdown_guard_prevents_execution() {
    let mut engine = Engine::new(QuoteStrategy, MockExecutor::new());
    // Realize a 10k profit: the peak PnL becomes 10k on the first tick.
    engine.executor_mut().pending.push(fill(Side::Buy, 40_000_000_000_000, 1_000_000_000));
    engine.executor_mut().pending.push(fill(Side::Sell, 50_000_000_000_000, 1_000_000_000));
    let s1 = snapshot(41, 50_000_000_000_000, 50_010_000_000_000, 0);
    engine.process_tick(&s1, true).unwrap();
    assert_eq!(engine.position().get_realized_pnl(), 10_000 * 1_000_000_000);
    let executed_before = engine.executor().execute_count;
    // Long 1 BTC at 50k, then the market drops to 40k: the unrealized loss takes the
    // total PnL far below 95% of the peak.
    engine.executor_mut().pending.push(fill(Side::Buy, 50_000_000_000_000, 1_000_000_000));
    let s2 = snapshot(42, 40_000_000_000_000, 40_010_000_000_000, 0);
    let result = engine.process_tick(&s2, true);
    assert!(matches!(result, Err(EngineError::Drawdown(_))), "drawdown guard should halt processing");
    assert_eq!(engine.executor().execute_count, executed_before);
}

#[test]
fn test_drawdown_guard_allows_within_limit() {
    let mut engine = Engine::new(QuoteStrategy, MockExecutor::new());
    let peak = 10_000 * 1_000_000_000i64;
    engine.executor_mut().pending.push(fill(Side::Buy, 40_000_000_000_000, 1_000_000_000));
    engine.executor_mut().pending.push(fill(Side::Sell, 50_000_000_000_000, 1_000_000_000));
    let s1 = snapshot(42, 50_000_000_000_000, 50_010_000_000_000, 0);
    engine.process_tick(&s1, true).unwrap();
    let allowed = ((peak as i128 * bog_core::config::MAX_DRAWDOWN as i128) / 1_000_000_000i128) as i64;
    // Lose half of the allowed drawdown: buy 1 BTC at 50k and sell it allowed/2 lower.
    engine.executor_mut().pending.push(fill(Side::Buy, 50_000_000_000_000, 1_000_000_000));
    engine.executor_mut().pending.push(fill(Side::Sell, 50_000_000_000_000 - (allowed / 2) as u64, 1_000_000_000));
    let s2 = snapshot(43, 50_001_000_000_000, 50_011_000_000_000, 0);
    let result = engine.process_tick(&s2, true);
    assert!(result.is_ok(), "engine should continue within drawdown limit");
    assert_eq!(engine.position().get_realized_pnl(), peak - allowed / 2);
}

#[test]
fn test_daily_loss_enforcement_in_engine() {
    let mut engine = Engine::new(QuoteStrategy, MockExecutor::new());
    // Realize a loss $1 over the daily limit.
    let loss = MAX_DAILY_LOSS + 1_000_000_000;
    engine.executor_mut().pending.push(fill(Side::Buy, 50_000_000_000_000, 1_000_000_000));
    engine.executor_mut().pending.push(fill(Side::Sell, 50_000_000_000_000 - loss as u64, 1_000_000_000));
    let s = snapshot(100, 50_000_000_000_000, 50_010_000_000_000, 0);
    engine.process_tick(&s, true).unwrap();
    assert_eq!(engine.position().get_daily_pnl(), -loss);
    assert_eq!(engine.executor().execute_count, 0, "Executor should not fire when daily loss limit exceeded");
}

#[test]
fn test_alert_manager_creation() {
    let manager = AlertManager::new(AlertConfig::default());
    assert!(!manager.is_trading_halted());
    assert_eq!(manager.stats().total_alerts, 0);
}

#[test]
fn test_alert_raising() {
    let mut manager = AlertManager::new(AlertConfig::default());
    let mut context = HashMap::new();
    context.insert("gap_size".to_string(), "100".to_string());
    manager.raise_alert(AlertType::DataGap, "Sequence gap detected".to_string(), context).unwrap();
    assert_eq!(manager.stats().total_alerts, 1);
    assert_eq!(manager.stats().error_count, 1);
}

#[test]
fn test_critical_alert_halts_trading() {
    let mut config = AlertConfig::default();
    config.halt_on_critical = true;
    let mut manager = AlertManager::new(config);
    manager.raise_alert(AlertType::DataInvalid, "Invalid data detected".to_string(), HashMap::new()).unwrap();
    assert!(manager.is_trading_halted());
}

#[test]
fn test_rate_limiting() {
    let mut config = AlertConfig::default();
    config.rate_limit_by_severity.insert(AlertSeverity::Warning, 2);
    let mut manager = AlertManager::new(config);
    for i in 0..2 {
        manager.raise_alert(AlertType::HighLatency, format!("High latency {}", i), HashMap::new()).unwrap();
    }
    assert_eq!(manager.stats().total_alerts, 2);
    manager.raise_alert(AlertType::HighLatency, "High latency 3".to_string(), HashMap::new()).unwrap();
    assert_eq!(manager.stats().total_alerts, 2);
}

#[test]
fn gap_recovery_test_stats_calculation() {
    let mut manager = GapRecoveryManager::new(GapRecoveryConfig::default());
    // Eight recovered gaps, the largest of 1000 messages, and two rejected ones.
    for size in [10u64, 20, 1000, 30, 40, 50, 60, 70] {
        assert_eq!(manager.begin_gap(size), GapDecision::Recover);
        assert_eq!(manager.finish_attempt(size, 1, true), RecoveryStep::Recovered);
    }
    for _ in 0..2 {
        assert!(matches!(manager.begin_gap(20_000), GapDecision::Reject(_)));
    }
    let stats = manager.stats();
    assert_eq!(stats.total_gaps_detected, 10);
    assert_eq!(stats.total_gaps_recovered, 8);
    assert_eq!(stats.total_gaps_failed, 2);
    // The success rate is a float, computed from the counts outside the library.
    let recovery_success_rate = stats.total_gaps_recovered as f64 / stats.total_gaps_detected as f64 * 100.0;
    assert_eq!(recovery_success_rate, 80.0);
    assert_eq!(stats.largest_gap_recovered, 1000);
}

#[test]
fn position_reconciliation_test_stats_calculation() {
    let mut reconciler = PositionReconciler::new();
    let _ = reconciler.reconcile(100_000_000, 100_000_000);
    let _ = reconciler.reconcile(100_000_000, 100_100_000);
    let mut config = ReconciliationConfig::default();
    config.halt_on_mismatch = false;
    config.max_position_mismatch = 1_000;
    let mut reconciler2 = PositionReconciler::with_config(config);
    let _ = reconciler2.reconcile(100_000_000, 200_000_000);
    let stats = reconciler.stats();
    // Success rate and average drift are floats, computed from the counts.
    let success_rate = stats.successful as f64 / (stats.successful + stats.failed) as f64 * 100.0;
    assert_eq!(success_rate, 100.0);
    let average_drift = stats.total_drift as f64 / (stats.successful + stats.failed) as f64;
    assert!(average_drift >= 0.0);
    assert_eq!(reconciler2.stats().failed, 1);
}

struct AlwaysQuoteStrategy;

impl Strategy for AlwaysQuoteStrategy {
    fn calculate(&mut self, _book: &L2OrderBook, _position: &Position) -> Option<Signal> {
        Some(Signal::quote_both(50_000_000_000_000, 50_010_000_000_000, 100_000_000))
    }
    fn name(&self) -> &'static str {
        "AlwaysQuote"
    }
}

fn wrapper_book() -> L2OrderBook {
    let mut book = L2OrderBook::new(1);
    book.sync_from_snapshot(&snapshot(100, 50_000_000_000_000, 50_010_000_000_000, 0));
    book
}

#[test]
fn test_wrapper_blocks_paused_strategy() {
    let mut wrapper = StrategyWrapper::new(AlwaysQuoteStrategy);
    wrapper.start();
    wrapper.pause();
    let signal = wrapper.calculate(&wrapper_book(), &Position::new());
    assert!(signal.is_none(), "Should not generate signals when paused");
    assert!(!wrapper.is_operational(), "Should not be operational when paused");
}

#[test]
fn test_wrapper_allows_active_strategy() {
    let mut wrapper = StrategyWrapper::new(AlwaysQuoteStrategy);
    wrapper.start();
    let signal = wrapper.calculate(&wrapper_book(), &Position::new());
    assert!(signal.is_some(), "Should generate signals when active");
    assert!(wrapper.is_operational(), "Should be operational when active");
    if let Some(sig) = signal {
        assert_eq!(sig.action, SignalAction::QuoteBoth);
    }
}

#[test]
fn test_wrapper_blocks_initializing_strategy() {
    let mut wrapper = StrategyWrapper::new(AlwaysQuoteStrategy);
    let signal = wrapper.calculate(&wrapper_book(), &Position::new());
    assert!(signal.is_none(), "Should not generate signals when initializing");
    assert!(!wrapper.is_operational(), "Should not be operational when initializing");
}

#[test]
fn test_wrapper_blocks_stopped_strategy() {
    let mut wrapper = StrategyWrapper::new(AlwaysQuoteStrategy);
    wrapper.start();
    wrapper.stop();
    let signal = wrapper.calculate(&wrapper_book(), &Position::new());
    assert!(signal.is_none(), "Should not generate signals when stopped");
    assert!(!wrapper.is_operational(), "Should not be operational when stopped");
}

#[test]
fn test_wrapper_lifecycle_transitions() {
    let mut wrapper = StrategyWrapper::new(AlwaysQuoteStrategy);
    assert!(!wrapper.is_operational());
    wrapper.start();
    assert!(wrapper.is_operational());
    wrapper.pause();
    assert!(!wrapper.is_operational());
    wrapper.resume();
    assert!(wrapper.is_operational());
    wrapper.stop();
    assert!(!wrapper.is_operational());
}

#[test]
fn test_wrapper_pause_resume_cycle() {
    let mut wrapper = StrategyWrapper::new(AlwaysQuoteStrategy);
    let book = wrapper_book();
    let position = Position::new();
    wrapper.start();
    assert!(wrapper.calculate(&book, &position).is_some());
    wrapper.pause();
    assert!(wrapper.calculate(&book, &position).is_none());
    wrapper.resume();
    assert!(wrapper.calculate(&book, &position).is_some());
    wrapper.pause();
    assert!(wrapper.calculate(&book, &position).is_none());
}

#[test]
fn test_wrapper_name_delegated() {
    let wrapper = StrategyWrapper::new(AlwaysQuoteStrategy);
    assert_eq!(wrapper.name(), "AlwaysQuote");
}

#[test]
fn stopped_wrapper_stays_stopped() {
    let mut wrapper = StrategyWrapper::new(AlwaysQuoteStrategy);
    wrapper.stop();
    wrapper.start();
    wrapper.resume();
    assert_eq!(wrapper.state(), StrategyState::Stopped);
    wrapper.reset();
    assert_eq!(wrapper.state(), StrategyState::Stopped);
}

#[test]
fn apply_drained_applies_fills_or_halts_on_drops() {
    let fill = FixedFill { side: Side::Sell, price: 50_000_000_000_000, size: 100_000_000, fee_sub_bps: None };
    let mut position = Position::new();
    assert!(apply_drained(&mut position, &vec![fill], 0).is_ok());
    assert_eq!(position.get_quantity(), -100_000_000);

    let mut untouched = Position::new();
    let r = apply_drained(&mut untouched, &vec![fill], 3);
    assert!(matches!(r, Err(EngineError::FillQueueOverflow { dropped: 3 })));
    assert_eq!(untouched.get_quantity(), 0);
}

struct LoggingFeed {
    answer: Option<MarketSnapshot>,
    log: Vec<String>,
}

impl RecoveryFeed for LoggingFeed {
    type Checkpoint = u32;

    fn save_position(&mut self) -> u32 {
        self.log.push("save".to_string());
        7
    }

    fn request_snapshot(&mut self) {
        self.log.push("request".to_string());
    }

    fn fetch_snapshot(&mut self, timeout: std::time::Duration) -> Option<MarketSnapshot> {
        self.log.push(format!("fetch {}", timeout.as_millis()));
        self.answer
    }

    fn rewind_to(&mut self, checkpoint: u32) {
        self.log.push(format!("rewind {}", checkpoint));
    }

    fn mark_recovery_complete(&mut self, sequence: u64) {
        self.log.push(format!("complete {}", sequence));
    }
}

#[test]
fn attempt_recovery_drives_the_feed() {
    let manager = GapRecoveryManager::new(GapRecoveryConfig::default());
    let mut feed = LoggingFeed { answer: Some(snapshot(90, 100, 101, 5)), log: Vec::new() };
    let r = manager.attempt_recovery(&mut feed, 120);
    assert_eq!(r.map(|s| s.sequence).ok(), Some(90));
    assert_eq!(feed.log, vec!["save", "request", "fetch 2000", "rewind 7", "complete 119"]);

    let mut silent = LoggingFeed { answer: None, log: Vec::new() };
    assert!(matches!(manager.attempt_recovery(&mut silent, 120), Err(GapRecoveryError::SnapshotTimeout)));
    assert_eq!(silent.log, vec!["save", "request", "fetch 2000"]);
}

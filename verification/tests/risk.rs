use bog_core::config::TICK_SIZE;
use bog_core::core_types::{Position, Signal};
use bog_core::data::MarketSnapshot;
use bog_core::resilience::kill_switch::KillSwitch;
use bog_core::risk::circuit_breaker::{BreakerState, CircuitBreaker, HaltReason};
use bog_core::risk::pre_trade::{ExchangeRules, PreTradeRejection, PreTradeResult, PreTradeValidator};
use bog_core::risk::rate_limiter::TokenBucket;
use bog_core::risk::{RiskLimits, RiskManager, RiskViolation};
use std::time::{SystemTime, UNIX_EPOCH};

fn now_ns() -> u64 {
    SystemTime::now().duration_since(UNIX_EPOCH).unwrap().as_nanos() as u64
}

fn create_normal_snapshot() -> MarketSnapshot {
    let mut s = MarketSnapshot::zeroed();
    s.market_id = 1;
    s.sequence = 1;
    s.exchange_timestamp_ns = now_ns();
    s.best_bid_price = 50_000_000_000_000;
    s.best_bid_size = 1_000_000_000;
    s.best_ask_price = 50_010_000_000_000;
    s.best_ask_size = 1_000_000_000;
    s.dex_type = 1;
    s
}

#[test]
fn test_normal_operation() {
    let mut breaker = CircuitBreaker::new();
    let snapshot = create_normal_snapshot();
    let state = breaker.check(&snapshot);
    assert_eq!(state, BreakerState::Normal);
    assert!(!breaker.is_halted());
    assert_eq!(breaker.total_trips(), 0);
}

#[test]
fn test_excessive_spread_trips_breaker() {
    let mut breaker = CircuitBreaker::new();
    let mut snapshot = create_normal_snapshot();
    snapshot.best_ask_price = 52_500_000_000_000;
    breaker.check(&snapshot);
    assert!(!breaker.is_halted());
    breaker.check(&snapshot);
    assert!(!breaker.is_halted());
    let state = breaker.check(&snapshot);
    assert!(breaker.is_halted());
    assert_eq!(breaker.total_trips(), 1);
    if let BreakerState::Halted(HaltReason::ExcessiveSpread { spread_bps, .. }) = state {
        assert_eq!(spread_bps, 500);
    } else {
        panic!("Expected ExcessiveSpread");
    }
}

#[test]
fn test_excessive_price_move_trips_breaker() {
    let mut breaker = CircuitBreaker::new();
    let snapshot1 = create_normal_snapshot();
    breaker.check(&snapshot1);
    let mut snapshot2 = create_normal_snapshot();
    snapshot2.best_bid_price = 60_000_000_000_000;
    snapshot2.best_ask_price = 60_010_000_000_000;
    breaker.check(&snapshot2);
    breaker.check(&snapshot2);
    let state = breaker.check(&snapshot2);
    assert!(breaker.is_halted());
    if let BreakerState::Halted(HaltReason::ExcessivePriceMove { change_pct, .. }) = state {
        assert_eq!(change_pct, 19);
    } else {
        panic!("Expected ExcessivePriceMove");
    }
}

#[test]
fn test_insufficient_liquidity_skips_tick() {
    let mut breaker = CircuitBreaker::new();
    let mut snapshot = create_normal_snapshot();
    snapshot.best_bid_size = 1_000_000;
    snapshot.best_ask_size = 1_000_000;
    let state = breaker.check(&snapshot);
    assert_eq!(state, BreakerState::Normal);
    assert!(!breaker.is_halted());
}

#[test]
fn test_stale_data_skips_tick() {
    let mut breaker = CircuitBreaker::new();
    let mut snapshot = create_normal_snapshot();
    snapshot.exchange_timestamp_ns = 0;
    let state = breaker.check(&snapshot);
    assert_eq!(state, BreakerState::Normal);
    assert!(!breaker.is_halted());
}

#[test]
fn test_manual_halt() {
    let mut breaker = CircuitBreaker::new();
    breaker.manual_halt();
    assert!(breaker.is_halted());
    let snapshot = create_normal_snapshot();
    let state = breaker.check(&snapshot);
    assert!(matches!(state, BreakerState::Halted(HaltReason::Manual)));
}

#[test]
fn circuit_breaker_test_reset() {
    let mut breaker = CircuitBreaker::new();
    breaker.manual_halt();
    assert!(breaker.is_halted());
    breaker.reset();
    assert!(!breaker.is_halted());
    let snapshot = create_normal_snapshot();
    let state = breaker.check(&snapshot);
    assert_eq!(state, BreakerState::Normal);
}

#[test]
fn test_consecutive_violations_threshold() {
    let mut breaker = CircuitBreaker::new();
    let mut snapshot = create_normal_snapshot();
    snapshot.best_ask_price = 52_500_000_000_000;
    breaker.check(&snapshot);
    assert!(!breaker.is_halted());
    assert_eq!(breaker.consecutive_violations(), 1);
    breaker.check(&snapshot);
    assert!(!breaker.is_halted());
    assert_eq!(breaker.consecutive_violations(), 2);
    breaker.check(&snapshot);
    assert!(breaker.is_halted());
    assert_eq!(breaker.total_trips(), 1);
}

#[test]
fn test_violations_reset_on_normal_tick() {
    let mut breaker = CircuitBreaker::new();
    let mut bad_snapshot = create_normal_snapshot();
    bad_snapshot.best_ask_price = 52_500_000_000_000;
    breaker.check(&bad_snapshot);
    breaker.check(&bad_snapshot);
    assert_eq!(breaker.consecutive_violations(), 2);
    let good_snapshot = create_normal_snapshot();
    breaker.check(&good_snapshot);
    assert_eq!(breaker.consecutive_violations(), 0);
    assert!(!breaker.is_halted());
}

#[test]
fn test_halt_reason_display() {
    let reason1 = HaltReason::ExcessiveSpread { spread_bps: 500, max_bps: 100 };
    assert!(reason1.to_string().contains("500bps"));
    let reason2 = HaltReason::ExcessivePriceMove { change_pct: 20, max_pct: 10 };
    assert!(reason2.to_string().contains("20%"));
    let reason3 = HaltReason::Manual;
    assert_eq!(reason3.to_string(), "Manual halt");
}

#[test]
fn halt_persists_until_reset_and_trip_reason_is_kept() {
    let mut breaker = CircuitBreaker::new();
    let mut bad = create_normal_snapshot();
    bad.best_ask_price = 52_500_000_000_000;
    let t = now_ns();
    breaker.check_at(&bad, t);
    breaker.check_at(&bad, t);
    breaker.check_at(&bad, t);
    assert!(breaker.is_halted());
    let good = create_normal_snapshot();
    assert!(matches!(breaker.check_at(&good, t), BreakerState::Halted(_)));
    assert!(matches!(breaker.last_trip_reason(), Some(HaltReason::ExcessiveSpread { .. })));
    breaker.reset();
    assert_eq!(breaker.check_at(&good, t), BreakerState::Normal);
    assert_eq!(breaker.total_trips(), 1);
}

fn create_test_limits() -> RiskLimits {
    RiskLimits {
        max_position: 1_000_000_000,
        max_short: 1_000_000_000,
        max_order_size: 500_000_000,
        min_order_size: 1_000_000,
        max_outstanding_orders: 10,
        max_daily_loss: 5_000 * 1_000_000_000,
        max_drawdown: 50_000_000,
        tick_size: TICK_SIZE,
        max_price_distance_bps: 50,
    }
}

fn price(amount: u64) -> u64 {
    amount * 1_000_000_000
}

#[test]
fn test_validate_signal_limits() {
    let rm = RiskManager::with_limits(create_test_limits());
    let pos = Position::new();
    let mid = price(50000);
    let signal = Signal::quote_bid(price(50000), 100_000_000);
    assert!(rm.validate_signal(&signal, &pos, 0, 0, mid).is_ok());
    let signal = Signal::quote_bid(price(50000), 600_000_000);
    assert!(rm.validate_signal(&signal, &pos, 0, 0, mid).is_err());
    let signal = Signal::quote_bid(price(50000), 100);
    assert!(rm.validate_signal(&signal, &pos, 0, 0, mid).is_err());
}

#[test]
fn test_position_limits() {
    let rm = RiskManager::with_limits(create_test_limits());
    let mut pos = Position::new();
    let mid = price(50000);
    pos.update_quantity(900_000_000);
    let signal = Signal::quote_bid(price(50000), 200_000_000);
    assert!(rm.validate_signal(&signal, &pos, 0, 0, mid).is_err());
    let signal = Signal::quote_ask(price(50000), 200_000_000);
    assert!(rm.validate_signal(&signal, &pos, 0, 0, mid).is_ok());
}

#[test]
fn test_daily_loss_check() {
    let rm = RiskManager::with_limits(create_test_limits());
    assert!(rm.check_daily_loss(-1000 * 1_000_000_000).is_ok());
    assert!(rm.check_daily_loss(-6000 * 1_000_000_000).is_err());
}

#[test]
fn test_daily_reset() {
    let mut rm = RiskManager::with_limits(create_test_limits());
    let mut pos = Position::new();
    pos.update_daily_pnl(100);
    // The next UTC day, one day from now.
    let tomorrow = SystemTime::now().duration_since(UNIX_EPOCH).unwrap().as_secs() + 86_400;
    rm.check_daily_reset_at(&mut pos, tomorrow);
    assert_eq!(pos.get_daily_pnl(), 0);
}

#[test]
fn daily_reset_happens_once_per_day() {
    let mut rm = RiskManager::with_limits(create_test_limits());
    let mut pos = Position::new();
    let tomorrow = SystemTime::now().duration_since(UNIX_EPOCH).unwrap().as_secs() + 86_400;
    rm.check_daily_reset_at(&mut pos, tomorrow);
    pos.update_daily_pnl(250);
    rm.check_daily_reset_at(&mut pos, tomorrow + 10);
    assert_eq!(pos.get_daily_pnl(), 250);
}

#[test]
fn test_price_validation() {
    let rm = RiskManager::with_limits(create_test_limits());
    let pos = Position::new();
    let mid = price(50000);
    let signal = Signal::quote_bid(price(50000) + 1, 100_000_000);
    assert!(rm.validate_signal(&signal, &pos, 0, 0, mid).is_err());
    let signal = Signal::quote_bid(price(55000), 100_000_000);
    assert!(rm.validate_signal(&signal, &pos, 0, 0, mid).is_err());
}

#[test]
fn test_kill_switch() {
    let pos = Position::new();
    let mid = price(50000);
    let signal = Signal::quote_bid(price(50000), 100_000_000);
    let rm = RiskManager::with_kill_switch(create_test_limits(), KillSwitch::new());
    assert!(rm.validate_signal(&signal, &pos, 0, 0, mid).is_ok());
    // The risk manager owns its switch: build one over a switch that was tripped.
    let mut ks = KillSwitch::new();
    ks.shutdown("test");
    let rm = RiskManager::with_kill_switch(create_test_limits(), ks);
    assert!(rm.validate_signal(&signal, &pos, 0, 0, mid).is_err());
}

#[test]
fn risk_violation_kinds_and_text() {
    let rm = RiskManager::with_limits(create_test_limits());
    let pos = Position::new();
    let mid = price(50000);
    let r = rm.validate_signal(&Signal::quote_bid(price(50000), 600_000_000), &pos, 0, 0, mid);
    assert!(matches!(r, Err(RiskViolation::OrderSizeTooLarge { size: 600_000_000, max: 500_000_000 })));
    let r = rm.validate_signal(&Signal::quote_bid(price(50000), 100), &pos, 0, 0, mid);
    assert!(matches!(r, Err(RiskViolation::OrderSizeTooSmall { size: 100, min: 1_000_000 })));
    let r = rm.check_daily_loss(-6000 * 1_000_000_000);
    assert!(matches!(r, Err(RiskViolation::DailyLossLimitBreached { .. })));
    assert_eq!(RiskViolation::KillSwitchActive.to_string().is_empty(), false);
}

#[test]
fn outstanding_orders_are_counted() {
    let mut rm = RiskManager::with_limits(create_test_limits());
    let pos = Position::new();
    let mid = price(50000);
    rm.increment_order_count(10);
    let r = rm.validate_signal(&Signal::quote_bid(price(50000), 100_000_000), &pos, 0, 0, mid);
    assert!(matches!(r, Err(RiskViolation::TooManyOutstandingOrders { current: 11, max: 10 })));
    rm.decrement_order_count(1);
    assert!(rm.validate_signal(&Signal::quote_bid(price(50000), 100_000_000), &pos, 0, 0, mid).is_ok());
}

fn val(amount: u64) -> u64 {
    amount * 1_000_000_000
}

fn create_test_validator() -> PreTradeValidator {
    PreTradeValidator::new(ExchangeRules::lighter_btc_usd())
}

#[test]
fn test_valid_order() {
    let validator = create_test_validator();
    let result = validator.validate(price(50000), val(1) / 10, price(50000) + 500_000_000);
    assert!(result.is_allowed());
}

#[test]
fn test_size_below_minimum() {
    let validator = create_test_validator();
    let result = validator.validate(price(50000), 100_000, price(50000) + 500_000_000);
    assert!(matches!(result, PreTradeResult::Rejected(PreTradeRejection::SizeBelowMinimum { .. })));
}

#[test]
fn test_size_above_maximum() {
    let validator = create_test_validator();
    let result = validator.validate(price(50000), val(15), price(50000) + 500_000_000);
    assert!(matches!(result, PreTradeResult::Rejected(PreTradeRejection::SizeAboveMaximum { .. })));
}

#[test]
fn test_invalid_tick() {
    let validator = create_test_validator();
    let result = validator.validate(price(50000) + 123_000_000, val(1) / 10, price(50000) + 500_000_000);
    assert!(matches!(result, PreTradeResult::Rejected(PreTradeRejection::InvalidTick { .. })));
}

#[test]
fn test_valid_tick() {
    let validator = create_test_validator();
    let result = validator.validate(price(50000), val(1) / 10, price(50000) + 500_000_000);
    assert!(result.is_allowed());
}

#[test]
fn test_price_too_far_from_mid() {
    let validator = create_test_validator();
    let result = validator.validate(price(55000), val(1) / 10, price(50000));
    assert!(matches!(result, PreTradeResult::Rejected(PreTradeRejection::PriceTooFarFromMarket { .. })));
}

#[test]
fn test_kill_switch_integration() {
    let mut validator = PreTradeValidator::with_kill_switch(ExchangeRules::lighter_btc_usd(), KillSwitch::new());
    let result = validator.validate(price(50000), val(1) / 10, price(50000));
    assert!(result.is_allowed());
    if let Some(ks) = validator.kill_switch.as_mut() {
        ks.shutdown("Test");
    }
    let result = validator.validate(price(50000), val(1) / 10, price(50000));
    assert!(matches!(result, PreTradeResult::Rejected(PreTradeRejection::KillSwitchActive)));
}

#[test]
fn test_pause_integration() {
    let mut validator = PreTradeValidator::with_kill_switch(ExchangeRules::lighter_btc_usd(), KillSwitch::new());
    if let Some(ks) = validator.kill_switch.as_mut() {
        ks.pause();
    }
    let result = validator.validate(price(50000), val(1) / 10, price(50000));
    assert!(matches!(result, PreTradeResult::Rejected(PreTradeRejection::TradingPaused)));
    if let Some(ks) = validator.kill_switch.as_mut() {
        ks.resume();
    }
    let result = validator.validate(price(50000), val(1) / 10, price(50000));
    assert!(result.is_allowed());
}

#[test]
fn pre_trade_checks_pass_through() {
    let validator = create_test_validator();
    assert!(validator.check_balance(1).is_ok());
    assert!(validator.check_margin(1).is_ok());
    assert!(validator.check_connection().is_ok());
}

#[test]
fn token_bucket_burst_then_reject() {
    let mut bucket = TokenBucket::new(5);
    for _ in 0..5 {
        assert!(bucket.allow());
    }
    assert!(!bucket.allow());
    assert_eq!(bucket.total_requests, 6);
    assert_eq!(bucket.total_allowed, 5);
    assert_eq!(bucket.total_rejected, 1);
    assert_eq!(bucket.available_tokens(), 0);
}

#[test]
fn token_bucket_allow_n_and_refill_cap() {
    let mut bucket = TokenBucket::new(10);
    assert!(bucket.allow_n(5));
    assert_eq!(bucket.available_tokens(), 5);
    assert!(!bucket.allow_n(10));
    assert_eq!(bucket.available_tokens(), 5);
    // Half a token, then far more than the capacity.
    bucket.refill(500);
    assert_eq!(bucket.tokens, 5_500);
    bucket.refill(u64::MAX);
    assert_eq!(bucket.tokens, 10_000);
    assert!(bucket.allow_n(10));
    bucket.refill(0);
    assert_eq!(bucket.tokens, 0);
    bucket.reset_stats();
    assert_eq!((bucket.total_requests, bucket.total_allowed, bucket.total_rejected), (0, 0, 0));
    assert_eq!(bucket.max_tokens, 10_000);
}

#[test]
fn position_helpers_follow_quantity_and_entry() {
    let flat = Position::new();
    assert!(flat.is_flat() && !flat.is_long() && !flat.is_short());
    assert_eq!(flat.avg_entry_price(), None);
    assert_eq!(flat.unrealized_pnl(50_000_000_000_000), 0);

    let mut long = Position::new();
    long.process_fill_fixed_with_fee(0, 50_000_000_000_000, 1_000_000_000, 0).unwrap();
    assert!(long.is_long() && !long.is_flat() && !long.is_short());
    assert_eq!(long.avg_entry_price(), Some(50_000_000_000_000));
    assert_eq!(long.unrealized_pnl(50_100_000_000_000), 100_000_000_000);

    let short = Position::from_parts(-5, 42, 7);
    assert!(short.is_short());
    assert_eq!(short.total_pnl(), 42);
}

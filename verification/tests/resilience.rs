use bog_core::resilience::circuit_breaker::{CircuitBreaker, CircuitBreakerConfig, CircuitState};
use bog_core::resilience::circuit_breaker_v2;
use bog_core::resilience::gap_detector::GapDetector;
use bog_core::resilience::health::{FeedHealth, HealthConfig, HealthStatus};
use bog_core::resilience::kill_switch::{KillSwitch, KillSwitchState};
use bog_core::resilience::reconnect::{ConnectionState, ReconnectionStats};
use bog_core::resilience::stale_data::{StaleDataBreaker, StaleDataConfig, StaleDataState};
use std::time::Duration;

#[test]
fn test_normal_sequence() {
    let mut detector = GapDetector::new();
    assert_eq!(detector.check(1), 0);
    assert_eq!(detector.check(2), 0);
    assert_eq!(detector.check(3), 0);
    assert!(!detector.gap_detected());
}

#[test]
fn test_small_gap() {
    let mut detector = GapDetector::new();
    detector.check(1);
    detector.check(2);
    let gap = detector.check(5);
    assert_eq!(gap, 2);
    assert!(detector.gap_detected());
    assert_eq!(detector.last_gap_size(), 2);
}

#[test]
fn test_duplicate_not_gap() {
    let mut detector = GapDetector::new();
    detector.check(100);
    let gap = detector.check(100);
    assert_eq!(gap, 0);
    assert!(!detector.gap_detected());
}

#[test]
fn test_wraparound() {
    let mut detector = GapDetector::new();
    detector.check(u64::MAX);
    let gap = detector.check(0);
    assert_eq!(gap, 0);
    assert!(!detector.gap_detected());
}

#[test]
fn test_wraparound_with_gap() {
    let mut detector = GapDetector::new();
    detector.check(u64::MAX - 2);
    let gap = detector.check(5);
    assert_eq!(gap, 7);
    assert!(detector.gap_detected());
}

#[test]
fn test_large_gap() {
    let mut detector = GapDetector::new();
    detector.check(100);
    let gap = detector.check(1200);
    assert_eq!(gap, 1099);
    assert!(detector.gap_detected());
}

#[test]
fn gap_detector_test_reset() {
    let mut detector = GapDetector::new();
    detector.check(100);
    detector.check(105);
    assert!(detector.gap_detected());
    detector.reset();
    assert!(!detector.gap_detected());
    assert!(!detector.is_ready());
}

#[test]
fn test_reset_at_sequence() {
    let mut detector = GapDetector::new();
    detector.check(100);
    detector.check(105);
    detector.reset_at_sequence(105);
    assert!(detector.is_ready());
    assert!(!detector.gap_detected());
    assert_eq!(detector.last_sequence(), 105);
    assert_eq!(detector.check(106), 0);
}

#[test]
fn test_epoch_restart_detection() {
    let mut detector = GapDetector::new();
    detector.check(1000);
    detector.set_epoch(1);
    let is_restart = detector.detect_restart(10, 2);
    assert!(is_restart);
    assert_eq!(detector.last_epoch(), 2);
}

#[test]
fn test_sequence_reset_without_epoch_change() {
    let mut detector = GapDetector::new();
    detector.check(1000);
    detector.set_epoch(1);
    let is_restart = detector.detect_restart(10, 1);
    assert!(!is_restart);
}

#[test]
fn gap_counts_exactly_the_skipped_sequences() {
    let mut detector = GapDetector::new();
    detector.check(10);
    assert_eq!(detector.check(21), 10);
    assert_eq!(detector.check(22), 0);
    assert!(!detector.gap_detected());
}

#[test]
fn test_initial_state_is_initializing() {
    let health = FeedHealth::new(HealthConfig::default());
    assert_eq!(health.status(), HealthStatus::Initializing);
    assert!(!health.is_ready());
}

#[test]
fn test_message_count_increments() {
    let mut health = FeedHealth::new(HealthConfig::default());
    assert_eq!(health.message_count(), 0);
    health.report_message(1);
    assert_eq!(health.message_count(), 1);
    health.report_message(2);
    assert_eq!(health.message_count(), 2);
}

#[test]
fn health_after_warmup_is_healthy_with_fresh_data() {
    let health = FeedHealth::new(HealthConfig::default());
    assert_eq!(health.status_at(0), HealthStatus::Initializing);
    assert_eq!(health.status_at(60_000_000_000), HealthStatus::Ready);
}

#[test]
fn test_initial_state_is_fresh() {
    let breaker = StaleDataBreaker::new(StaleDataConfig::default());
    assert!(breaker.is_fresh());
    assert_eq!(breaker.state(), StaleDataState::Fresh);
}

#[test]
fn test_empty_polls_increment() {
    let mut breaker = StaleDataBreaker::new(StaleDataConfig::default());
    assert_eq!(breaker.consecutive_empty_polls(), 0);
    breaker.mark_empty_poll();
    assert_eq!(breaker.consecutive_empty_polls(), 1);
    breaker.mark_empty_poll();
    assert_eq!(breaker.consecutive_empty_polls(), 2);
}

#[test]
fn test_empty_polls_dont_cause_stale_when_data_recent() {
    let config = StaleDataConfig { max_age: Duration::from_secs(5), max_empty_polls: 10 };
    let mut breaker = StaleDataBreaker::new(config);
    breaker.mark_fresh();
    for _ in 0..15 {
        breaker.mark_empty_poll();
    }
    assert!(breaker.is_fresh());
}

#[test]
fn test_is_fresh_inline_safe() {
    let breaker = StaleDataBreaker::new(StaleDataConfig::default());
    let result = breaker.is_fresh();
    assert!(result);
}

#[test]
fn old_data_with_many_empty_polls_goes_stale_then_offline() {
    let config = StaleDataConfig { max_age: Duration::from_secs(5), max_empty_polls: 10 };
    let mut breaker = StaleDataBreaker::new(config);
    breaker.mark_empty_poll_with_age(6_000_000_000);
    assert!(breaker.is_stale());
    for _ in 0..20 {
        breaker.mark_empty_poll_with_age(6_000_000_000);
    }
    assert!(breaker.is_offline());
    breaker.reset();
    assert!(breaker.is_fresh());
    assert_eq!(breaker.consecutive_empty_polls(), 0);
}

#[test]
fn test_aggressive_config() {
    let config = CircuitBreakerConfig::aggressive();
    assert_eq!(config.failure_threshold, 3);
    assert_eq!(config.timeout, Duration::from_secs(5));
}

#[test]
fn circuit_breaker_test_conservative_config() {
    let config = CircuitBreakerConfig::conservative();
    assert_eq!(config.failure_threshold, 10);
    assert_eq!(config.timeout, Duration::from_secs(60));
}

#[test]
fn v2_config_presets() {
    let a = circuit_breaker_v2::CircuitBreakerConfig::aggressive();
    assert_eq!(a.failure_threshold, 3);
    assert_eq!(a.failure_window, Duration::from_secs(10));
    let c = circuit_breaker_v2::CircuitBreakerConfig::conservative();
    assert_eq!(c.success_threshold, 5);
    assert_eq!(c.timeout, Duration::from_secs(60));
    let d = circuit_breaker_v2::CircuitBreakerConfig::default();
    assert_eq!(d.failure_threshold, 5);
    assert_eq!(circuit_breaker_v2::CircuitState::from(1u8), circuit_breaker_v2::CircuitState::Open);
    assert_eq!(circuit_breaker_v2::CircuitState::from(9u8), circuit_breaker_v2::CircuitState::Closed);
}

#[test]
fn circuit_breaker_test_circuit_breaker_starts_closed() {
    let mut cb = CircuitBreaker::new(CircuitBreakerConfig::default());
    assert_eq!(cb.state(), CircuitState::Closed);
    assert!(cb.is_call_permitted());
}

#[test]
fn circuit_breaker_test_circuit_breaker_opens_on_failures() {
    let config = CircuitBreakerConfig { failure_threshold: 3, ..Default::default() };
    let mut cb = CircuitBreaker::new(config);
    cb.record_failure();
    cb.record_failure();
    assert_eq!(cb.state(), CircuitState::Closed);
    cb.record_failure();
    assert_eq!(cb.state(), CircuitState::Open);
    assert!(!cb.is_call_permitted());
}

#[test]
fn test_circuit_breaker_half_open_recovery() {
    let config = CircuitBreakerConfig {
        failure_threshold: 2,
        timeout: Duration::from_millis(10),
        success_threshold: 2,
        ..Default::default()
    };
    let mut cb = CircuitBreaker::new(config);
    cb.record_failure();
    cb.record_failure();
    assert_eq!(cb.state(), CircuitState::Open);
    // 15 ms after the circuit opened.
    assert!(cb.is_call_permitted_at(15_000_000));
    assert_eq!(cb.state(), CircuitState::HalfOpen);
    cb.record_success();
    assert_eq!(cb.state(), CircuitState::HalfOpen);
    cb.record_success();
    assert_eq!(cb.state(), CircuitState::Closed);
}

#[test]
fn open_circuit_refuses_until_timeout() {
    let config = CircuitBreakerConfig { failure_threshold: 2, timeout: Duration::from_millis(10), ..Default::default() };
    let mut cb = CircuitBreaker::new(config);
    cb.record_failure_at(0);
    cb.record_failure_at(0);
    assert!(!cb.is_call_permitted_at(9_999_999));
    assert_eq!(cb.state(), CircuitState::Open);
    assert!(cb.is_call_permitted_at(10_000_000));
    assert_eq!(cb.state(), CircuitState::HalfOpen);
}

#[test]
fn test_circuit_breaker_half_open_failure_reopens() {
    let config = CircuitBreakerConfig { failure_threshold: 2, timeout: Duration::from_millis(10), ..Default::default() };
    let mut cb = CircuitBreaker::new(config);
    cb.record_failure();
    cb.record_failure();
    assert_eq!(cb.state(), CircuitState::Open);
    assert!(cb.is_call_permitted_at(15_000_000));
    cb.record_failure();
    assert_eq!(cb.state(), CircuitState::Open);
}

#[test]
fn failures_outside_the_window_do_not_open() {
    let config = CircuitBreakerConfig { failure_threshold: 1, failure_window: Duration::from_secs(1), ..Default::default() };
    let mut cb = CircuitBreaker::new(config);
    cb.record_failure_at(2_000_000_000);
    assert_eq!(cb.state(), CircuitState::Closed);
    assert_eq!(cb.failure_count(), 1);
}

#[test]
fn test_circuit_breaker_success_resets_failures() {
    let config = CircuitBreakerConfig { failure_threshold: 3, ..Default::default() };
    let mut cb = CircuitBreaker::new(config);
    cb.record_failure();
    cb.record_failure();
    assert_eq!(cb.failure_count(), 2);
    cb.record_success();
    assert_eq!(cb.failure_count(), 0);
    assert_eq!(cb.state(), CircuitState::Closed);
}

#[test]
fn test_circuit_breaker_manual_reset() {
    let config = CircuitBreakerConfig { failure_threshold: 2, ..Default::default() };
    let mut cb = CircuitBreaker::new(config);
    cb.record_failure();
    cb.record_failure();
    assert_eq!(cb.state(), CircuitState::Open);
    cb.reset();
    assert_eq!(cb.state(), CircuitState::Closed);
    assert!(cb.is_call_permitted());
}

#[test]
fn test_circuit_breaker_force_open() {
    let mut cb = CircuitBreaker::new(CircuitBreakerConfig::default());
    assert_eq!(cb.state(), CircuitState::Closed);
    cb.force_open();
    assert_eq!(cb.state(), CircuitState::Open);
    assert!(!cb.is_call_permitted());
    assert_eq!(CircuitState::from(2u8), CircuitState::HalfOpen);
}

#[test]
fn test_reconnection_stats_default() {
    let stats = ReconnectionStats::default();
    assert_eq!(stats.reconnection_attempts, 0);
    assert_eq!(stats.successful_reconnections, 0);
    assert_eq!(stats.failed_reconnections, 0);
    assert_eq!(stats.connection_uptime, Duration::from_secs(0));
    assert_ne!(ConnectionState::Connected, ConnectionState::Failed);
}

#[test]
fn kill_switch_states() {
    let mut ks = KillSwitch::new();
    assert!(ks.is_running());
    ks.pause();
    assert!(ks.is_paused());
    ks.resume();
    assert!(ks.is_running());
    ks.toggle_pause();
    assert_eq!(ks.state(), KillSwitchState::Paused);
    ks.shutdown("maintenance");
    assert!(ks.should_stop());
    assert_eq!(ks.shutdown_reason(), Some("maintenance".to_string()));
    ks.resume();
    assert!(ks.should_stop());
}

#[test]
fn emergency_stop_prefixes_reason() {
    let mut ks = KillSwitch::new();
    ks.emergency_stop("fat finger");
    assert_eq!(ks.state(), KillSwitchState::EmergencyStop);
    assert_eq!(ks.shutdown_reason(), Some("EMERGENCY: fat finger".to_string()));
    assert!(ks.shutdown_time().is_some());
}

#[test]
fn test_kill_switch_creation() {
    let ks = KillSwitch::new();
    assert!(ks.is_running());
    assert!(!ks.should_stop());
    assert!(!ks.is_paused());
}

#[test]
fn test_graceful_shutdown() {
    let mut ks = KillSwitch::new();
    ks.shutdown("Test shutdown");
    assert!(ks.should_stop());
    assert_eq!(ks.state(), KillSwitchState::ShuttingDown);
    assert_eq!(ks.shutdown_reason(), Some("Test shutdown".to_string()));
    assert!(ks.shutdown_time().is_some());
}

#[test]
fn test_emergency_stop() {
    let mut ks = KillSwitch::new();
    ks.emergency_stop("Critical error");
    assert!(ks.should_stop());
    assert_eq!(ks.state(), KillSwitchState::EmergencyStop);
    assert!(ks.shutdown_reason().unwrap().contains("EMERGENCY"));
}

#[test]
fn test_pause_resume() {
    let mut ks = KillSwitch::new();
    ks.pause();
    assert!(ks.is_paused());
    assert!(!ks.should_stop());
    ks.resume();
    assert!(ks.is_running());
    assert!(!ks.is_paused());
}

#[test]
fn test_toggle_pause() {
    let mut ks = KillSwitch::new();
    ks.toggle_pause();
    assert!(ks.is_paused());
    ks.toggle_pause();
    assert!(ks.is_running());
}

#[test]
fn test_cannot_resume_from_shutdown() {
    let mut ks = KillSwitch::new();
    ks.shutdown("Test");
    ks.resume();
    assert!(ks.should_stop());
}

#[test]
fn test_mark_fresh_resets_state() {
    let config = StaleDataConfig { max_age: Duration::from_millis(50), max_empty_polls: 5 };
    let mut breaker = StaleDataBreaker::new(config);
    // The last data is 100 ms old at each of these polls.
    for _ in 0..6 {
        breaker.mark_empty_poll_with_age(100_000_000);
    }
    assert!(!breaker.is_fresh());
    assert!(breaker.is_offline());
    breaker.mark_fresh();
    assert!(breaker.is_fresh());
    assert_eq!(breaker.consecutive_empty_polls(), 0);
}

#[test]
fn test_offline_detection() {
    let config = StaleDataConfig { max_age: Duration::from_millis(50), max_empty_polls: 10 };
    let mut breaker = StaleDataBreaker::new(config);
    for _ in 0..11 {
        breaker.mark_empty_poll_with_age(100_000_000);
    }
    assert!(breaker.is_offline());
    assert_eq!(breaker.state(), StaleDataState::Offline);
}

#[test]
fn test_stale_detection_by_age() {
    let config = StaleDataConfig { max_age: Duration::from_millis(100), max_empty_polls: 10000 };
    let mut breaker = StaleDataBreaker::new(config);
    breaker.mark_empty_poll_with_age(150_000_000);
    assert!(breaker.is_stale());
    assert_eq!(breaker.state(), StaleDataState::Stale);
}

#[test]
fn test_reset_clears_state() {
    let config = StaleDataConfig { max_age: Duration::from_millis(50), max_empty_polls: 10 };
    let mut breaker = StaleDataBreaker::new(config);
    for _ in 0..11 {
        breaker.mark_empty_poll_with_age(100_000_000);
    }
    assert!(breaker.is_offline());
    breaker.reset();
    assert!(breaker.is_fresh());
    assert_eq!(breaker.consecutive_empty_polls(), 0);
}

#[test]
fn test_becomes_ready_after_warmup() {
    let config = HealthConfig { warmup_duration: Duration::from_millis(10), ..Default::default() };
    let mut health = FeedHealth::new(config);
    health.report_message(1);
    // 20 ms into the run.
    assert_eq!(health.status_at(20_000_000), HealthStatus::Ready);
    assert_eq!(health.status_at(5_000_000), HealthStatus::Initializing);
}

#[test]
fn test_stale_state_propagates() {
    let config = HealthConfig {
        warmup_duration: Duration::from_millis(10),
        stale_data_config: StaleDataConfig { max_age: Duration::from_millis(50), max_empty_polls: 1000 },
        ..Default::default()
    };
    let mut health = FeedHealth::new(config);
    health.report_message(1);
    assert_eq!(health.status_at(20_000_000), HealthStatus::Ready);
    health.report_empty_poll_with_age(100_000_000);
    assert_eq!(health.status_at(120_000_000), HealthStatus::Stale);
}

#[test]
fn feed_health_reports_gap_then_clears_it() {
    let mut h = FeedHealth::new(HealthConfig::default());
    h.report_message(1);
    h.report_message(2);
    h.report_message(5);
    assert_eq!(h.last_gap_size(), 2);
    h.report_message(6);
    assert_eq!(h.last_gap_size(), 0);
    assert_eq!(h.message_count(), 4);
}

use bog_core::core_types::Position;
use bog_core::monitoring::alert_rules::{DailyLossLimitRule, HuginnConnectionRule, PositionLimitRule};
use bog_core::monitoring::alerts::{Alert, AlertCategory, AlertId, AlertManager, AlertManagerConfig, AlertOutput, AlertSeverity};
use bog_core::monitoring::runtime::{format_duration, format_secs};
use std::time::Duration;

#[test]
fn test_alert_creation() {
    let alert = Alert::new(AlertCategory::Risk, "position_limit", AlertSeverity::Critical, "Position limit exceeded")
        .with_detail("position", "1.5 BTC")
        .with_detail("limit", "1.0 BTC");
    assert_eq!(alert.severity, AlertSeverity::Critical);
    assert_eq!(alert.id.category, AlertCategory::Risk);
    assert_eq!(alert.id.name, "position_limit");
    assert_eq!(alert.details.len(), 2);
}

#[test]
fn test_alert_formatting() {
    let alert = Alert::new(AlertCategory::System, "connection_lost", AlertSeverity::Error, "Huginn connection lost");
    let formatted = alert.format();
    assert!(formatted.contains("ERROR"));
    assert!(formatted.contains("SYSTEM.connection_lost"));
    assert!(formatted.contains("Huginn connection lost"));
}

#[test]
fn alert_format_lists_details_in_order() {
    let alert = Alert::new(AlertCategory::Risk, "position_limit", AlertSeverity::Critical, "over")
        .with_detail("position", "1.5 BTC")
        .with_detail("limit", "1.0 BTC")
        .with_detail("position", "1.6 BTC");
    assert_eq!(alert.details.len(), 2);
    let text = alert.format();
    assert!(text.ends_with("\n  Details:\n    position: 1.6 BTC\n    limit: 1.0 BTC"));
    assert!(text.contains("CRITICAL RISK.position_limit - over"));
}

#[test]
fn alert_with_details_sets_each_pair() {
    let alert = Alert::new(AlertCategory::Trading, "fills", AlertSeverity::Info, "m").with_details(vec![
        ("a".to_string(), "1".to_string()),
        ("b".to_string(), "2".to_string()),
        ("a".to_string(), "3".to_string()),
    ]);
    assert_eq!(alert.details, vec![("a".to_string(), "3".to_string()), ("b".to_string(), "2".to_string())]);
}

#[test]
fn alerts_test_alert_severity_ordering() {
    assert!(AlertSeverity::Critical > AlertSeverity::Error);
    assert!(AlertSeverity::Error > AlertSeverity::Warning);
    assert!(AlertSeverity::Warning > AlertSeverity::Info);
}

#[test]
fn severity_labels_and_levels() {
    assert_eq!(AlertSeverity::Warning.as_str(), "WARN");
    assert_eq!(AlertSeverity::Critical.level(), 3);
    assert_eq!(AlertCategory::System.as_str(), "SYSTEM");
}

#[test]
fn test_alert_id_equality() {
    let id1 = AlertId::new(AlertCategory::Risk, "position_limit");
    let id2 = AlertId::new(AlertCategory::Risk, "position_limit");
    let id3 = AlertId::new(AlertCategory::Risk, "daily_loss");
    assert_eq!(id1, id2);
    assert_ne!(id1, id3);
    assert_eq!(id1.to_string(), "RISK.position_limit");
}

#[test]
fn test_format_duration() {
    assert_eq!(format_duration(Duration::from_secs(45)), "45s");
    assert_eq!(format_duration(Duration::from_secs(125)), "2m 5s");
    assert_eq!(format_duration(Duration::from_secs(3665)), "1h 1m 5s");
}

#[test]
fn format_secs_edges() {
    assert_eq!(format_secs(0), "0s");
    assert_eq!(format_secs(60), "1m 0s");
    assert_eq!(format_secs(3600), "1h 0m 0s");
    assert_eq!(format_duration(Duration::from_millis(1999)), "1s");
}

#[test]
fn test_position_limit_rule() {
    let rule = PositionLimitRule::new(1_000_000_000, AlertSeverity::Critical);
    let position = Position::new();
    assert!(rule.evaluate(Some(&position)).is_none());
    let position = Position::from_parts(1_500_000_000, 0, 0);
    let alert = rule.evaluate(Some(&position));
    assert!(alert.is_some());
    let alert = alert.unwrap();
    assert_eq!(alert.severity, AlertSeverity::Critical);
    assert_eq!(alert.id.name, "position_limit_exceeded");
    assert!(alert.details.iter().any(|(k, _)| k == "current_position"));
    assert!(rule.evaluate(None).is_none());
}

#[test]
fn position_limit_rule_details() {
    let rule = PositionLimitRule::new(1_000_000_000, AlertSeverity::Warning);
    let alert = rule.evaluate(Some(&Position::from_parts(-1_500_000_000, 0, 0))).unwrap();
    assert_eq!(alert.message, "Position limit exceeded: -1500000000 > 1000000000");
    assert_eq!(
        alert.details,
        vec![
            ("current_position".to_string(), "-1500000000".to_string()),
            ("limit".to_string(), "1000000000".to_string()),
            ("excess".to_string(), "500000000".to_string()),
        ]
    );
}

#[test]
fn test_daily_loss_limit_rule() {
    let rule = DailyLossLimitRule::new(1_000_000_000_000, AlertSeverity::Critical);
    let position = Position::new();
    assert!(rule.evaluate(Some(&position)).is_none());
    let position = Position::from_parts(0, 0, -1_500_000_000_000);
    let alert = rule.evaluate(Some(&position));
    assert!(alert.is_some());
    let alert = alert.unwrap();
    assert_eq!(alert.severity, AlertSeverity::Critical);
    assert_eq!(alert.id.name, "daily_loss_limit_exceeded");
}

#[test]
fn test_huginn_connection_rule() {
    let rule = HuginnConnectionRule::new(Duration::from_secs(5), AlertSeverity::Critical);
    assert!(rule.evaluate(1).is_none());
    let alert = rule.evaluate(0);
    assert!(alert.is_some());
    let alert = alert.unwrap();
    assert_eq!(alert.severity, AlertSeverity::Critical);
    assert_eq!(alert.id.name, "huginn_connection_lost");
}

#[test]
fn test_alert_manager_console() {
    let config = AlertManagerConfig {
        outputs: vec![AlertOutput::Console { min_severity: AlertSeverity::Warning }],
        ..Default::default()
    };
    let mut manager = AlertManager::new(config);
    let alert = Alert::new(AlertCategory::Risk, "test_alert", AlertSeverity::Warning, "Test warning");
    assert_eq!(manager.send(&alert), vec![0]);
    assert_eq!(manager.active_count(), 1);
}

#[test]
fn test_alert_rate_limiting() {
    let config = AlertManagerConfig {
        outputs: vec![AlertOutput::Console { min_severity: AlertSeverity::Info }],
        rate_limit_secs: 60,
        ..Default::default()
    };
    let mut manager = AlertManager::new(config);
    let alert1 = Alert::new(AlertCategory::System, "rate_limit_test", AlertSeverity::Warning, "First alert");
    let alert2 = Alert::new(AlertCategory::System, "rate_limit_test", AlertSeverity::Warning, "Second alert (should be rate limited)");
    assert_eq!(manager.send(&alert1), vec![0]);
    assert!(manager.send(&alert2).is_empty());
    assert_eq!(manager.active_count(), 1);
}

#[test]
fn test_critical_alerts_bypass_rate_limit() {
    let config = AlertManagerConfig {
        outputs: vec![AlertOutput::Console { min_severity: AlertSeverity::Info }],
        rate_limit_secs: 60,
        ..Default::default()
    };
    let mut manager = AlertManager::new(config);
    let alert1 = Alert::new(AlertCategory::Risk, "critical_test", AlertSeverity::Critical, "First critical");
    let alert2 = Alert::new(AlertCategory::Risk, "critical_test", AlertSeverity::Critical, "Second critical");
    assert!(manager.should_send(&alert1));
    manager.send(&alert1);
    assert!(manager.should_send(&alert2));
}

#[test]
fn alert_manager_outputs_by_threshold_and_window() {
    let config = AlertManagerConfig {
        outputs: vec![
            AlertOutput::Console { min_severity: AlertSeverity::Error },
            AlertOutput::Webhook { url: "http://localhost".to_string(), min_severity: AlertSeverity::Info, timeout_ms: 10 },
        ],
        rate_limit_secs: 60,
        auto_resolve_secs: 300,
        enable_aggregation: false,
    };
    let mut manager = AlertManager::new(config);
    let warn = Alert::new(AlertCategory::Trading, "slow", AlertSeverity::Warning, "slow fills");
    assert_eq!(manager.send_at(&warn, 1_000_000_000), vec![1]);
    assert!(manager.send_at(&warn, 60_999_999_999).is_empty());
    assert_eq!(manager.send_at(&warn, 61_000_000_000), vec![1]);
    let err = Alert::new(AlertCategory::Trading, "rejects", AlertSeverity::Error, "rejects");
    assert_eq!(manager.send_at(&err, 61_000_000_000), vec![0, 1]);
    assert_eq!(manager.active_count(), 2);
    assert_eq!(manager.counts_by_severity(), vec![(AlertSeverity::Warning, 2), (AlertSeverity::Error, 1)]);
    manager.resolve(&AlertId::new(AlertCategory::Trading, "slow"));
    assert_eq!(manager.active_count(), 1);
    manager.cleanup_old_alerts_at(61_000_000_000 + 300_000_000_001);
    assert_eq!(manager.active_count(), 0);
}

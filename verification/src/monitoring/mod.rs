//! Monitoring: operational alerts, alert rules and run-time rendering.
pub mod alert_rules;
pub mod alerts;
pub mod runtime;

//! Resilience patterns for long-running market-data consumers.
pub mod circuit_breaker;
pub mod circuit_breaker_v2;
pub mod gap_detector;
pub mod health;
pub mod kill_switch;
pub mod reconnect;
pub mod stale_data;

//! Trading engine components: risk validation, gap recovery, position
//! reconciliation, simulated execution and alerting.
pub mod gap_recovery;
pub mod position_reconciliation;
pub mod risk;
pub mod simulated;
pub mod generic;
pub mod executor_bridge;
pub mod alert_manager;
pub mod strategy_wrapper;

//! Core library of a market-making engine: market-data resilience,
//! order book analytics, pre-trade risk checks and execution bookkeeping.
pub mod clock;
pub mod config;
pub mod core_types;
pub mod data;
pub mod engine;
pub mod execution;
pub mod keyed;
pub mod monitoring;
pub mod order_fsm;
pub mod orderbook;
pub mod perf;
pub mod resilience;
pub mod risk;
pub mod text;

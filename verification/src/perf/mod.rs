//! Performance helpers: cache-line-aligned counters.
pub mod metrics;

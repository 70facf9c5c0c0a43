//! Trading constants shared by the risk checks.
use vstd::prelude::*;

verus! {

/// Maximum drawdown from the daily peak, as a fraction in nine-decimal fixed point (5%).
pub const MAX_DRAWDOWN: i64 = 50_000_000;

/// Price increment of the traded market (0.01 in nine-decimal fixed point).
pub const TICK_SIZE: u64 = 10_000_000;

/// Minimum time between two quotes (100 ms).
pub const MIN_QUOTE_INTERVAL_NS: u64 = 100_000_000;

/// Largest move of the best bid or ask, in basis points, accepted when data turns fresh
/// again after a stale period; a larger jump skips that tick.
pub const MAX_POST_STALE_CHANGE_BPS: u64 = 100;

/// Fee charged on a fill that reports none, in hundredths of a basis point (0.2 bps).
pub const DEFAULT_FEE_SUB_BPS: i32 = 20;

/// Fee of the simulated exchange, in basis points.
pub const DEFAULT_FEE_BPS: u32 = 2;

} // verus!

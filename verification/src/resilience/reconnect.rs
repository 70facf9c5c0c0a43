//! Connection state and reconnection statistics of a resilient market-data feed.
use vstd::prelude::*;
use crate::clock::{duration_from_secs, duration_nanos};

verus! {

/// Connection state of the feed.
#[derive(Clone, Copy, PartialEq, Eq, Structural, Debug)]
pub enum ConnectionState {
    /// Connected and receiving data.
    Connected,
    /// Trying to reconnect.
    Reconnecting,
    /// Gave up after too many attempts.
    Failed,
}

/// Reconnection statistics.
#[derive(Clone, Copy, Debug)]
pub struct ReconnectionStats {
    /// Connection attempts made.
    pub reconnection_attempts: u64,
    /// Attempts that connected.
    pub successful_reconnections: u64,
    /// Attempts that failed.
    pub failed_reconnections: u64,
    /// Time connected.
    pub connection_uptime: std::time::Duration,
    /// When the last reconnection happened.
    pub last_reconnection: Option<std::time::Instant>,
}

impl Default for ReconnectionStats {
    /// No attempts, no uptime, no reconnection yet.
    fn default() -> (s: Self)
        ensures
            s.reconnection_attempts == 0,
            s.successful_reconnections == 0,
            s.failed_reconnections == 0,
            duration_nanos(s.connection_uptime) == 0,
            s.last_reconnection is None,
    {
        ReconnectionStats {
            reconnection_attempts: 0,
            successful_reconnections: 0,
            failed_reconnections: 0,
            connection_uptime: duration_from_secs(0),
            last_reconnection: None,
        }
    }
}

} // verus!

//! Configuration and observable state of the typestate circuit breaker.
use vstd::prelude::*;
use crate::clock::{duration_from_secs, duration_nanos};

verus! {

/// Circuit breaker configuration.
#[derive(Clone, Copy, Debug)]
pub struct CircuitBreakerConfig {
    /// Failures that open the circuit.
    pub failure_threshold: u64,
    /// Window within which the failures must occur.
    pub failure_window: std::time::Duration,
    /// Time the circuit stays open before testing recovery.
    pub timeout: std::time::Duration,
    /// Successes in half-open state that close the circuit.
    pub success_threshold: u64,
}

/// Whether a configuration has the given thresholds and durations (in seconds).
pub open spec fn config_v2_is(c: CircuitBreakerConfig, failures: u64, window_secs: int, timeout_secs: int, successes: u64) -> bool {
    &&& c.failure_threshold == failures
    &&& duration_nanos(c.failure_window) == window_secs * 1_000_000_000
    &&& duration_nanos(c.timeout) == timeout_secs * 1_000_000_000
    &&& c.success_threshold == successes
}

impl Default for CircuitBreakerConfig {
    /// Five failures within a minute; thirty seconds open; two successes to close.
    fn default() -> (c: Self)
        ensures
            config_v2_is(c, 5, 60, 30, 2),
    {
        CircuitBreakerConfig {
            failure_threshold: 5,
            failure_window: duration_from_secs(60),
            timeout: duration_from_secs(30),
            success_threshold: 2,
        }
    }
}

impl CircuitBreakerConfig {
    /// Fast failure detection: three failures within ten seconds; five seconds open.
    pub fn aggressive() -> (c: Self)
        ensures
            config_v2_is(c, 3, 10, 5, 2),
    {
        CircuitBreakerConfig {
            failure_threshold: 3,
            failure_window: duration_from_secs(10),
            timeout: duration_from_secs(5),
            success_threshold: 2,
        }
    }

    /// Tolerant: ten failures within two minutes; a minute open; five successes to close.
    pub fn conservative() -> (c: Self)
        ensures
            config_v2_is(c, 10, 120, 60, 5),
    {
        CircuitBreakerConfig {
            failure_threshold: 10,
            failure_window: duration_from_secs(120),
            timeout: duration_from_secs(60),
            success_threshold: 5,
        }
    }
}

/// Observable state of the breaker.
#[derive(Clone, Copy, PartialEq, Eq, Structural, Debug)]
pub enum CircuitState {
    /// Calls pass.
    Closed,
    /// Calls are refused.
    Open,
    /// Calls pass to test recovery.
    HalfOpen,
}

/// State encoded as a number: 0 closed, 1 open, 2 half-open, anything else closed.
pub open spec fn circuit_state_v2_of(value: u8) -> CircuitState {
    if value == 1 {
        CircuitState::Open
    } else if value == 2 {
        CircuitState::HalfOpen
    } else {
        CircuitState::Closed
    }
}

impl From<u8> for CircuitState {
    fn from(value: u8) -> (r: Self) {
        match value {
            1 => CircuitState::Open,
            2 => CircuitState::HalfOpen,
            _ => CircuitState::Closed,
        }
    }
}

impl vstd::std_specs::convert::FromSpecImpl<u8> for CircuitState {
    open spec fn obeys_from_spec() -> bool {
        true
    }

    open spec fn from_spec(value: u8) -> CircuitState {
        circuit_state_v2_of(value)
    }
}

} // verus!

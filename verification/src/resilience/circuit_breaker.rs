//! Circuit breaker for calls to a failing dependency.
//!
//! Closed: calls pass; enough failures within the failure window open it.
//! Open: calls are refused until the timeout has passed since it opened, then it turns
//! half-open. Half-open: calls pass as a test; enough successes close it, one failure
//! opens it again.
use vstd::prelude::*;
use crate::clock::{duration_as_nanos, duration_from_secs, duration_nanos, elapsed_ns, instant_now};

verus! {

/// Circuit breaker state.
#[derive(Clone, Copy, PartialEq, Eq, Structural, Debug)]
pub enum CircuitState {
    /// Calls pass.
    Closed,
    /// Calls are refused.
    Open,
    /// Calls pass to test recovery.
    HalfOpen,
}

/// State encoded as a number: 0 closed, 1 open, 2 half-open, anything else closed.
pub open spec fn circuit_state_of(value: u8) -> CircuitState {
    if value == 1 {
        CircuitState::Open
    } else if value == 2 {
        CircuitState::HalfOpen
    } else {
        CircuitState::Closed
    }
}

impl From<u8> for CircuitState {
    fn from(value: u8) -> (r: Self) {
        match value {
            1 => CircuitState::Open,
            2 => CircuitState::HalfOpen,
            _ => CircuitState::Closed,
        }
    }
}

impl vstd::std_specs::convert::FromSpecImpl<u8> for CircuitState {
    open spec fn obeys_from_spec() -> bool {
        true
    }

    open spec fn from_spec(value: u8) -> CircuitState {
        circuit_state_of(value)
    }
}

/// Circuit breaker configuration.
#[derive(Clone, Copy, Debug)]
pub struct CircuitBreakerConfig {
    /// Failures that open the circuit.
    pub failure_threshold: u64,
    /// Window within which the failures must occur.
    pub failure_window: std::time::Duration,
    /// Time the circuit stays open before testing recovery.
    pub timeout: std::time::Duration,
    /// Successes in half-open state that close the circuit.
    pub success_threshold: u64,
}

/// Whether a configuration has the given thresholds and durations (in seconds).
pub open spec fn config_is(c: CircuitBreakerConfig, failures: u64, window_secs: int, timeout_secs: int, successes: u64) -> bool {
    &&& c.failure_threshold == failures
    &&& duration_nanos(c.failure_window) == window_secs * 1_000_000_000
    &&& duration_nanos(c.timeout) == timeout_secs * 1_000_000_000
    &&& c.success_threshold == successes
}

impl Default for CircuitBreakerConfig {
    /// Five failures within a minute; thirty seconds open; two successes to close.
    fn default() -> (c: Self)
        ensures
            config_is(c, 5, 60, 30, 2),
    {
        CircuitBreakerConfig {
            failure_threshold: 5,
            failure_window: duration_from_secs(60),
            timeout: duration_from_secs(30),
            success_threshold: 2,
        }
    }
}

impl CircuitBreakerConfig {
    /// Fast failure detection: three failures within ten seconds; five seconds open.
    pub fn aggressive() -> (c: Self)
        ensures
            config_is(c, 3, 10, 5, 2),
    {
        CircuitBreakerConfig {
            failure_threshold: 3,
            failure_window: duration_from_secs(10),
            timeout: duration_from_secs(5),
            success_threshold: 2,
        }
    }

    /// Tolerant: ten failures within two minutes; a minute open; five successes to close.
    pub fn conservative() -> (c: Self)
        ensures
            config_is(c, 10, 120, 60, 5),
    {
        CircuitBreakerConfig {
            failure_threshold: 10,
            failure_window: duration_from_secs(120),
            timeout: duration_from_secs(60),
            success_threshold: 5,
        }
    }
}

/// Abstract state of a [`CircuitBreaker`]: its configuration in nanoseconds, its state
/// and its counters.
pub struct CircuitModel {
    pub failure_threshold: u64,
    pub success_threshold: u64,
    pub window_ns: u128,
    pub timeout_ns: u128,
    pub state: CircuitState,
    pub failure_count: u64,
    pub success_count: u64,
}

/// The model after a transition to `state` that clears the success count, and the
/// failure count too unless the circuit opens.
pub open spec fn moved_to(m: CircuitModel, state: CircuitState) -> CircuitModel {
    CircuitModel {
        state,
        failure_count: if state == CircuitState::Open { m.failure_count } else { 0 },
        success_count: 0,
        ..m
    }
}

/// Outcome of asking for a call `since_change_ns` after the last state change.
pub open spec fn spec_call_permitted(m: CircuitModel, since_change_ns: u128) -> (CircuitModel, bool) {
    match m.state {
        CircuitState::Open => {
            if since_change_ns >= m.timeout_ns {
                (moved_to(m, CircuitState::HalfOpen), true)
            } else {
                (m, false)
            }
        },
        _ => (m, true),
    }
}

/// Model after a success.
pub open spec fn spec_success(m: CircuitModel) -> CircuitModel {
    match m.state {
        CircuitState::Closed => CircuitModel { failure_count: 0, ..m },
        CircuitState::HalfOpen => {
            if m.success_count + 1 >= m.success_threshold {
                moved_to(m, CircuitState::Closed)
            } else {
                CircuitModel { success_count: (m.success_count + 1) as u64, ..m }
            }
        },
        CircuitState::Open => m,
    }
}

/// Model after a failure, checked `since_failure_ns` after the failure was recorded.
pub open spec fn spec_failure(m: CircuitModel, since_failure_ns: u128) -> CircuitModel {
    match m.state {
        CircuitState::Closed => {
            let f = (m.failure_count + 1) as u64;
            if f >= m.failure_threshold && since_failure_ns <= m.window_ns {
                moved_to(CircuitModel { failure_count: f, ..m }, CircuitState::Open)
            } else {
                CircuitModel { failure_count: f, ..m }
            }
        },
        CircuitState::HalfOpen => moved_to(m, CircuitState::Open),
        CircuitState::Open => m,
    }
}

/// Circuit breaker; the time of the last state change and of the last failure are read
/// from the monotonic clock.
pub struct CircuitBreaker {
    config: CircuitBreakerConfig,
    window_ns: u128,
    timeout_ns: u128,
    state: CircuitState,
    failure_count: u64,
    success_count: u64,
    last_failure_time: Option<std::time::Instant>,
    last_state_change: std::time::Instant,
}

impl View for CircuitBreaker {
    type V = CircuitModel;

    closed spec fn view(&self) -> CircuitModel {
        CircuitModel {
            failure_threshold: self.config.failure_threshold,
            success_threshold: self.config.success_threshold,
            window_ns: self.window_ns,
            timeout_ns: self.timeout_ns,
            state: self.state,
            failure_count: self.failure_count,
            success_count: self.success_count,
        }
    }
}

impl CircuitBreaker {
    /// Successes are only counted while half-open, and stay below the threshold there.
    #[verifier::type_invariant]
    spec fn wf(self) -> bool {
        self.success_count == 0 || (self.state is HalfOpen && self.success_count < self.config.success_threshold)
    }

    /// A closed breaker with the given configuration.
    pub fn new(config: CircuitBreakerConfig) -> (b: Self)
        ensures
            b@ == (CircuitModel {
                failure_threshold: config.failure_threshold,
                success_threshold: config.success_threshold,
                window_ns: duration_nanos(config.failure_window),
                timeout_ns: duration_nanos(config.timeout),
                state: CircuitState::Closed,
                failure_count: 0,
                success_count: 0,
            }),
    {
        let window_ns = duration_as_nanos(&config.failure_window);
        let timeout_ns = duration_as_nanos(&config.timeout);
        CircuitBreaker {
            config,
            window_ns,
            timeout_ns,
            state: CircuitState::Closed,
            failure_count: 0,
            success_count: 0,
            last_failure_time: None,
            last_state_change: instant_now(),
        }
    }

    /// Whether a call may proceed now; an open circuit whose timeout has passed turns
    /// half-open and lets the call through.
    pub fn is_call_permitted(&mut self) -> (r: bool)
        ensures
            exists|since: u128| (final(self)@, r) == spec_call_permitted(old(self)@, since),
    {
        let since = elapsed_ns(&self.last_state_change);
        self.is_call_permitted_at(since)
    }

    /// Whether a call may proceed `since_change_ns` after the last state change.
    pub fn is_call_permitted_at(&mut self, since_change_ns: u128) -> (r: bool)
        ensures
            (final(self)@, r) == spec_call_permitted(old(self)@, since_change_ns),
    {
        match self.state {
            CircuitState::Closed => true,
            CircuitState::Open => {
                if since_change_ns >= self.timeout_ns {
                    self.transition_to_half_open();
                    true
                } else {
                    false
                }
            },
            CircuitState::HalfOpen => true,
        }
    }

    /// Records a successful call.
    pub fn record_success(&mut self)
        ensures
            final(self)@ == spec_success(old(self)@),
    {
        proof {
            use_type_invariant(&*self);
        }
        match self.state {
            CircuitState::Closed => {
                self.failure_count = 0;
            },
            CircuitState::HalfOpen => {
                let successes = self.success_count + 1;
                if successes >= self.config.success_threshold {
                    self.transition_to_closed();
                } else {
                    self.success_count = successes;
                }
            },
            CircuitState::Open => {},
        }
    }

    /// Records a failed call.
    pub fn record_failure(&mut self)
        requires
            old(self)@.state is Closed ==> old(self)@.failure_count < u64::MAX,
        ensures
            exists|since: u128| final(self)@ == spec_failure(old(self)@, since),
    {
        proof {
            use_type_invariant(&*self);
        }
        let now = instant_now();
        let since = elapsed_ns(&now);
        self.last_failure_time = Some(now);
        self.record_failure_at(since);
    }

    /// Records a failed call, where `since_failure_ns` has passed since it was recorded.
    pub fn record_failure_at(&mut self, since_failure_ns: u128)
        requires
            old(self)@.state is Closed ==> old(self)@.failure_count < u64::MAX,
        ensures
            final(self)@ == spec_failure(old(self)@, since_failure_ns),
    {
        proof {
            use_type_invariant(&*self);
        }
        match self.state {
            CircuitState::Closed => {
                let failures = self.failure_count + 1;
                self.failure_count = failures;
                if failures >= self.config.failure_threshold && since_failure_ns <= self.window_ns {
                    self.transition_to_open();
                }
            },
            CircuitState::HalfOpen => {
                self.transition_to_open();
            },
            CircuitState::Open => {},
        }
    }

    fn transition_to_closed(&mut self)
        ensures
            final(self)@ == moved_to(old(self)@, CircuitState::Closed),
    {
        self.success_count = 0;
        self.state = CircuitState::Closed;
        self.failure_count = 0;
        self.last_state_change = instant_now();
    }

    fn transition_to_open(&mut self)
        ensures
            final(self)@ == moved_to(old(self)@, CircuitState::Open),
    {
        self.success_count = 0;
        self.state = CircuitState::Open;
        self.last_state_change = instant_now();
    }

    fn transition_to_half_open(&mut self)
        ensures
            final(self)@ == moved_to(old(self)@, CircuitState::HalfOpen),
    {
        self.success_count = 0;
        self.state = CircuitState::HalfOpen;
        self.failure_count = 0;
        self.last_state_change = instant_now();
    }

    /// Current state.
    pub fn state(&self) -> (r: CircuitState)
        ensures
            r == self@.state,
    {
        self.state
    }

    /// Failures counted.
    pub fn failure_count(&self) -> (r: u64)
        ensures
            r == self@.failure_count,
    {
        self.failure_count
    }

    /// Successes counted while half-open.
    pub fn success_count(&self) -> (r: u64)
        ensures
            r == self@.success_count,
    {
        self.success_count
    }

    /// Manual reset to closed.
    pub fn reset(&mut self)
        ensures
            final(self)@ == moved_to(old(self)@, CircuitState::Closed),
    {
        self.transition_to_closed();
    }

    /// Manual trip to open.
    pub fn force_open(&mut self)
        ensures
            final(self)@ == moved_to(old(self)@, CircuitState::Open),
    {
        self.transition_to_open();
    }
}

/// Recovery takes the configured number of successes: from a half-open state with no
/// successes counted and a threshold `n >= 1`, the first `n - 1` successes keep it
/// half-open and the `n`-th closes it with both counters cleared.
pub proof fn lemma_successes_close_half_open(m: CircuitModel, k: nat)
    requires
        m.state == CircuitState::HalfOpen,
        m.success_count == 0,
        1 <= k <= m.success_threshold,
    ensures
        ({
            let after = successes(m, k);
            &&& k < m.success_threshold ==> after.state == CircuitState::HalfOpen && after.success_count == k
            &&& k == m.success_threshold ==> after.state == CircuitState::Closed && after.failure_count == 0
                && after.success_count == 0
            &&& after.success_threshold == m.success_threshold
        }),
    decreases k,
{
    let prev = successes(m, (k - 1) as nat);
    if k > 1 {
        lemma_successes_close_half_open(m, (k - 1) as nat);
    } else {
        assert(prev == m);
    }
    assert(successes(m, k) == spec_success(prev));
}

/// The model after `k` successes in a row.
pub open spec fn successes(m: CircuitModel, k: nat) -> CircuitModel
    decreases k,
{
    if k == 0 { m } else { spec_success(successes(m, (k - 1) as nat)) }
}

/// A failure while testing recovery reopens the circuit at once, whatever the counters.
pub proof fn lemma_half_open_failure_reopens(m: CircuitModel, since_failure_ns: u128)
    requires
        m.state == CircuitState::HalfOpen,
    ensures
        spec_failure(m, since_failure_ns).state == CircuitState::Open,
        spec_failure(m, since_failure_ns).success_count == 0,
{
}

/// An open circuit refuses calls until its timeout has passed, and then lets one through
/// in the half-open state.
pub proof fn lemma_open_refuses_until_timeout(m: CircuitModel, since_change_ns: u128)
    requires
        m.state == CircuitState::Open,
    ensures
        spec_call_permitted(m, since_change_ns).1 <==> since_change_ns >= m.timeout_ns,
        since_change_ns >= m.timeout_ns ==> spec_call_permitted(m, since_change_ns).0.state == CircuitState::HalfOpen,
{
}

} // verus!

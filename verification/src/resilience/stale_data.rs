//! Stale-data circuit breaker: stops trading when market data stops arriving.
use vstd::prelude::*;
use crate::clock::{duration_as_nanos, duration_from_secs, duration_nanos, instant_duration_since, instant_elapsed, instant_gap,
    instant_now};

verus! {

/// Configuration for stale data detection.
#[derive(Clone, Copy)]
pub struct StaleDataConfig {
    /// Maximum age of data before it is considered stale (default: 5 s).
    pub max_age: std::time::Duration,
    /// Consecutive empty polls before the feed may be considered offline (default: 1000).
    pub max_empty_polls: u64,
}

impl Default for StaleDataConfig {
    /// Default configuration: 5 s maximum age, 1000 empty polls.
    fn default() -> (c: Self)
        ensures
            c.max_empty_polls == 1000,
            duration_nanos(c.max_age) == 5_000_000_000,
    {
        StaleDataConfig { max_age: duration_from_secs(5), max_empty_polls: 1000 }
    }
}

/// Freshness of market data.
#[derive(Clone, Copy, PartialEq, Eq, Structural, Debug)]
pub enum StaleDataState {
    /// Data is fresh and trading is allowed.
    Fresh,
    /// Data is stale; trading should stop.
    Stale,
    /// The feed is down or disconnected.
    Offline,
}

/// Abstract state of a [`StaleDataBreaker`].
pub struct StaleDataModel {
    pub state: StaleDataState,
    pub consecutive_empty_polls: u64,
    pub max_empty_polls: u64,
    pub max_age_ns: u128,
    /// When fresh data was last seen.
    pub last_update: std::time::Instant,
}

/// State after an empty poll observed when the data is `age_ns` old.
pub open spec fn spec_after_empty_poll(m: StaleDataModel, age_ns: u128) -> StaleDataModel {
    let polls = (m.consecutive_empty_polls + 1) as u64;
    let state = if polls > m.max_empty_polls && age_ns >= m.max_age_ns {
        StaleDataState::Offline
    } else if age_ns >= m.max_age_ns {
        StaleDataState::Stale
    } else {
        m.state
    };
    StaleDataModel { state, consecutive_empty_polls: polls, ..m }
}

/// State after fresh data at instant `now`: fresh, no empty polls, data age counted
/// from `now`.
pub open spec fn spec_refreshed(m: StaleDataModel, now: std::time::Instant) -> StaleDataModel {
    StaleDataModel { state: StaleDataState::Fresh, consecutive_empty_polls: 0, last_update: now, ..m }
}

/// The breaker is only offline after more empty polls than the limit.
pub open spec fn offline_needs_polls(m: StaleDataModel) -> bool {
    m.state == StaleDataState::Offline ==> m.consecutive_empty_polls > m.max_empty_polls
}

/// Detects stale market data and halts trading.
pub struct StaleDataBreaker {
    config: StaleDataConfig,
    state: StaleDataState,
    last_update: std::time::Instant,
    consecutive_empty_polls: u64,
    max_age_ns: u128,
}

impl View for StaleDataBreaker {
    type V = StaleDataModel;

    closed spec fn view(&self) -> StaleDataModel {
        StaleDataModel {
            state: self.state,
            consecutive_empty_polls: self.consecutive_empty_polls,
            max_empty_polls: self.config.max_empty_polls,
            max_age_ns: self.max_age_ns,
            last_update: self.last_update,
        }
    }
}

impl StaleDataBreaker {
    /// The breaker is only offline after more empty polls than the limit.
    #[verifier::type_invariant]
    spec fn offline_follows_polls(self) -> bool {
        offline_needs_polls(self@)
    }

    /// New breaker: fresh, no empty polls, data considered received now.
    pub fn new(config: StaleDataConfig) -> (b: Self)
        ensures
            b@.state == StaleDataState::Fresh,
            b@.consecutive_empty_polls == 0,
            b@.max_empty_polls == config.max_empty_polls,
            b@.max_age_ns == duration_nanos(config.max_age),
    {
        let max_age_ns = duration_as_nanos(&config.max_age);
        StaleDataBreaker { config, state: StaleDataState::Fresh, last_update: instant_now(), consecutive_empty_polls: 0, max_age_ns }
    }

    /// Whether data is fresh.
    pub fn is_fresh(&self) -> (r: bool)
        ensures
            r == (self@.state == StaleDataState::Fresh),
    {
        self.state == StaleDataState::Fresh
    }

    /// Fresh data was received: the state is fresh again, the empty-poll count is reset
    /// and the data age restarts from the instant read from the clock now.
    pub fn mark_fresh(&mut self)
        ensures
            final(self)@ == spec_refreshed(old(self)@, final(self)@.last_update),
    {
        self.state = StaleDataState::Fresh;
        self.last_update = instant_now();
        self.consecutive_empty_polls = 0;
    }

    /// No data in this poll. The data age is the time from the last fresh data to the
    /// instant read from the clock now; see [`StaleDataBreaker::mark_empty_poll_with_age`]
    /// for the transition.
    pub fn mark_empty_poll(&mut self)
        requires
            old(self)@.consecutive_empty_polls < u64::MAX,
        ensures
            exists|now: std::time::Instant|
                final(self)@ == spec_after_empty_poll(old(self)@, duration_nanos(#[trigger] instant_gap(now, old(self)@.last_update))),
            old(self)@.state != StaleDataState::Fresh ==> final(self)@.state != StaleDataState::Fresh,
            old(self)@.state == StaleDataState::Offline ==> final(self)@.state == StaleDataState::Offline,
    {
        let now = instant_now();
        let age = instant_duration_since(&now, &self.last_update);
        let age_ns = duration_as_nanos(&age);
        self.mark_empty_poll_with_age(age_ns);
    }

    /// No data in this poll, the last fresh data being `age_ns` old.
    ///
    /// The poll is counted. The breaker goes offline when there have been more than
    /// `max_empty_polls` consecutive empty polls and the data is at least `max_age` old;
    /// otherwise it goes stale when the data is at least `max_age` old; otherwise its
    /// state is unchanged (empty polls alone do not make data stale).
    pub fn mark_empty_poll_with_age(&mut self, age_ns: u128)
        requires
            old(self)@.consecutive_empty_polls < u64::MAX,
        ensures
            final(self)@ == spec_after_empty_poll(old(self)@, age_ns),
            old(self)@.state != StaleDataState::Fresh ==> final(self)@.state != StaleDataState::Fresh,
            old(self)@.state == StaleDataState::Offline ==> final(self)@.state == StaleDataState::Offline,
    {
        proof {
            use_type_invariant(&*self);
            lemma_empty_poll_never_recovers(self@, age_ns);
        }
        self.consecutive_empty_polls = self.consecutive_empty_polls + 1;
        if self.consecutive_empty_polls > self.config.max_empty_polls && age_ns >= self.max_age_ns {
            self.state = StaleDataState::Offline;
            return;
        }
        if age_ns >= self.max_age_ns {
            self.state = StaleDataState::Stale;
        }
    }

    /// Current state.
    pub fn state(&self) -> (r: StaleDataState)
        ensures
            r == self@.state,
    {
        self.state
    }

    /// Whether data is stale.
    pub fn is_stale(&self) -> (r: bool)
        ensures
            r == (self@.state == StaleDataState::Stale),
    {
        self.state == StaleDataState::Stale
    }

    /// Whether the feed is offline.
    pub fn is_offline(&self) -> (r: bool)
        ensures
            r == (self@.state == StaleDataState::Offline),
    {
        self.state == StaleDataState::Offline
    }

    /// Number of consecutive empty polls since the last fresh data.
    pub fn consecutive_empty_polls(&self) -> (r: u64)
        ensures
            r == self@.consecutive_empty_polls,
    {
        self.consecutive_empty_polls
    }

    /// Time since the last fresh data (read from the clock).
    pub fn time_since_update(&self) -> std::time::Duration {
        instant_elapsed(&self.last_update)
    }

    /// Reset for recovery: the same as [`StaleDataBreaker::mark_fresh`]: fresh, no empty
    /// polls, the data age restarting from the instant read from the clock now.
    pub fn reset(&mut self)
        ensures
            final(self)@ == spec_refreshed(old(self)@, final(self)@.last_update),
    {
        self.state = StaleDataState::Fresh;
        self.last_update = instant_now();
        self.consecutive_empty_polls = 0;
    }
}

/// As long as data is younger than the configured maximum age, empty polls never
/// change the state, however many there are.
pub proof fn lemma_recent_data_never_stale(m: StaleDataModel, age_ns: u128)
    requires
        age_ns < m.max_age_ns,
        m.consecutive_empty_polls < u64::MAX,
    ensures
        spec_after_empty_poll(m, age_ns).state == m.state,
{
}

/// The breaker only goes offline after more than `max_empty_polls` consecutive empty polls.
pub proof fn lemma_offline_needs_many_polls(m: StaleDataModel, age_ns: u128)
    requires
        m.state != StaleDataState::Offline,
        spec_after_empty_poll(m, age_ns).state == StaleDataState::Offline,
        m.consecutive_empty_polls < u64::MAX,
    ensures
        m.consecutive_empty_polls + 1 > m.max_empty_polls,
        age_ns >= m.max_age_ns,
{
}

/// The state machine of the breaker: offline only ever follows more empty polls than
/// the limit. A new breaker, fresh data and a reset satisfy it, and every empty poll
/// keeps it, whatever the data age.
pub proof fn lemma_offline_only_after_poll_limit(m: StaleDataModel, age_ns: u128, now: std::time::Instant)
    requires
        offline_needs_polls(m),
        m.consecutive_empty_polls < u64::MAX,
    ensures
        offline_needs_polls(spec_after_empty_poll(m, age_ns)),
        offline_needs_polls(spec_refreshed(m, now)),
{
}

/// Fresh data resets the breaker: right after it, empty polls keep the breaker fresh
/// while the data is younger than the maximum age, and one can make it offline only
/// once the poll count exceeds the limit.
pub proof fn lemma_refresh_restarts_detection(m: StaleDataModel, now: std::time::Instant, age_ns: u128)
    requires
        age_ns < m.max_age_ns,
    ensures
        spec_after_empty_poll(spec_refreshed(m, now), age_ns).state == StaleDataState::Fresh,
        spec_after_empty_poll(spec_refreshed(m, now), age_ns).consecutive_empty_polls == 1,
{
}

/// The state law of the breaker: an empty poll never brings stale or offline data back
/// to fresh, and never turns offline into stale; only fresh data or a reset lead back to
/// fresh. It rests on the breaker's invariant that offline follows more empty polls than
/// the limit.
pub proof fn lemma_empty_poll_never_recovers(m: StaleDataModel, age_ns: u128)
    requires
        offline_needs_polls(m),
        m.consecutive_empty_polls < u64::MAX,
    ensures
        m.state != StaleDataState::Fresh ==> spec_after_empty_poll(m, age_ns).state != StaleDataState::Fresh,
        m.state == StaleDataState::Offline ==> spec_after_empty_poll(m, age_ns).state == StaleDataState::Offline,
{
}

} // verus!

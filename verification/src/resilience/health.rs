//! Feed health: combines gap detection, stale-data detection and a warm-up period
//! to decide whether the system is ready to trade.
use vstd::prelude::*;
use crate::clock::{duration_as_nanos, duration_from_millis, duration_nanos, instant_duration_since, instant_elapsed, instant_gap,
    instant_now};
use crate::resilience::gap_detector::{spec_after_check, GapDetector, GapDetectorModel};
use crate::resilience::stale_data::{spec_refreshed, StaleDataBreaker, StaleDataConfig, StaleDataModel, StaleDataState};

verus! {

/// Configuration for health monitoring.
#[derive(Clone, Copy)]
pub struct HealthConfig {
    /// Minimum time before considering the feed ready (default: 500 ms).
    pub warmup_duration: std::time::Duration,
    /// Maximum acceptable gap size (default: 100).
    pub max_gap_size: u64,
    /// Stale data configuration.
    pub stale_data_config: StaleDataConfig,
}

impl Default for HealthConfig {
    /// 500 ms warm-up, gaps up to 100, default stale-data configuration.
    fn default() -> (c: Self)
        ensures
            c.max_gap_size == 100,
            c.stale_data_config.max_empty_polls == 1000,
            duration_nanos(c.warmup_duration) == 500_000_000,
            duration_nanos(c.stale_data_config.max_age) == 5_000_000_000,
    {
        HealthConfig {
            warmup_duration: duration_from_millis(500),
            max_gap_size: 100,
            stale_data_config: StaleDataConfig::default(),
        }
    }
}

/// Overall health of the feed.
#[derive(Clone, Copy, PartialEq, Eq, Structural, Debug)]
pub enum HealthStatus {
    Initializing,
    Ready,
    Stale,
    Offline,
}

/// Health status after `uptime_ns` of running, given the warm-up period and the stale state.
pub open spec fn spec_status(uptime_ns: u128, warmup_ns: u128, stale: StaleDataState) -> HealthStatus {
    if uptime_ns < warmup_ns {
        HealthStatus::Initializing
    } else {
        match stale {
            StaleDataState::Fresh => HealthStatus::Ready,
            StaleDataState::Stale => HealthStatus::Stale,
            StaleDataState::Offline => HealthStatus::Offline,
        }
    }
}

/// Abstract state of a [`FeedHealth`].
pub struct FeedHealthModel {
    pub gaps: GapDetectorModel,
    pub stale: StaleDataModel,
    pub message_count: u64,
    pub warmup_ns: u128,
    /// When the monitor was created.
    pub start_time: std::time::Instant,
}

/// Health monitor combining gap detection, stale-data detection and warm-up.
pub struct FeedHealth {
    config: HealthConfig,
    gap_detector: GapDetector,
    stale_breaker: StaleDataBreaker,
    start_time: std::time::Instant,
    message_count: u64,
    warmup_ns: u128,
}

impl View for FeedHealth {
    type V = FeedHealthModel;

    closed spec fn view(&self) -> FeedHealthModel {
        FeedHealthModel {
            gaps: self.gap_detector@,
            stale: self.stale_breaker@,
            message_count: self.message_count,
            warmup_ns: self.warmup_ns,
            start_time: self.start_time,
        }
    }
}

impl FeedHealth {
    /// New monitor: no messages seen, fresh data, warm-up starting now.
    pub fn new(config: HealthConfig) -> (h: Self)
        ensures
            h@.message_count == 0,
            !h@.gaps.ready,
            h@.gaps.last_gap_size == 0,
            h@.stale.state == StaleDataState::Fresh,
            h@.stale.consecutive_empty_polls == 0,
            h@.stale.max_empty_polls == config.stale_data_config.max_empty_polls,
            h@.stale.max_age_ns == duration_nanos(config.stale_data_config.max_age),
            h@.warmup_ns == duration_nanos(config.warmup_duration),
    {
        let warmup_ns = duration_as_nanos(&config.warmup_duration);
        FeedHealth {
            gap_detector: GapDetector::new(),
            stale_breaker: StaleDataBreaker::new(config.stale_data_config),
            start_time: instant_now(),
            config,
            message_count: 0,
            warmup_ns,
        }
    }

    /// A message with sequence `sequence` arrived: count it, check it for a gap and mark
    /// the data fresh.
    pub fn report_message(&mut self, sequence: u64)
        requires
            old(self)@.message_count < u64::MAX,
        ensures
            final(self)@.message_count == old(self)@.message_count + 1,
            final(self)@.stale == spec_refreshed(old(self)@.stale, final(self)@.stale.last_update),
            final(self)@.warmup_ns == old(self)@.warmup_ns,
            final(self)@.start_time == old(self)@.start_time,
            final(self)@.gaps == spec_after_check(old(self)@.gaps, sequence),
    {
        self.message_count = self.message_count + 1;
        let _gap_size = self.gap_detector.check(sequence);
        self.stale_breaker.mark_fresh();
    }

    /// No data in this poll.
    pub fn report_empty_poll(&mut self)
        requires
            old(self)@.stale.consecutive_empty_polls < u64::MAX,
        ensures
            exists|now: std::time::Instant| final(self)@.stale == crate::resilience::stale_data::spec_after_empty_poll(
                old(self)@.stale, duration_nanos(#[trigger] instant_gap(now, old(self)@.stale.last_update))),
            final(self)@.message_count == old(self)@.message_count,
            final(self)@.gaps == old(self)@.gaps,
            final(self)@.warmup_ns == old(self)@.warmup_ns,
            final(self)@.start_time == old(self)@.start_time,
    {
        self.stale_breaker.mark_empty_poll();
    }

    /// No data in this poll, the last fresh data being `age_ns` old.
    pub fn report_empty_poll_with_age(&mut self, age_ns: u128)
        requires
            old(self)@.stale.consecutive_empty_polls < u64::MAX,
        ensures
            final(self)@.stale == crate::resilience::stale_data::spec_after_empty_poll(old(self)@.stale, age_ns),
            final(self)@.message_count == old(self)@.message_count,
            final(self)@.gaps == old(self)@.gaps,
            final(self)@.warmup_ns == old(self)@.warmup_ns,
            final(self)@.start_time == old(self)@.start_time,
    {
        self.stale_breaker.mark_empty_poll_with_age(age_ns);
    }

    /// Overall status; the uptime is the time from creation to the instant read from the
    /// clock now (see [`FeedHealth::status_at`]).
    pub fn status(&self) -> (r: HealthStatus)
        ensures
            exists|now: std::time::Instant|
                r == spec_status(duration_nanos(#[trigger] instant_gap(now, self@.start_time)), self@.warmup_ns, self@.stale.state),
    {
        let now = instant_now();
        let uptime_ns = duration_as_nanos(&instant_duration_since(&now, &self.start_time));
        assert(uptime_ns == duration_nanos(instant_gap(now, self@.start_time)));
        self.status_at(uptime_ns)
    }

    /// Overall status after `uptime_ns` of running: initializing during warm-up,
    /// then ready, stale or offline following the stale-data state.
    pub fn status_at(&self, uptime_ns: u128) -> (r: HealthStatus)
        ensures
            r == spec_status(uptime_ns, self@.warmup_ns, self@.stale.state),
            uptime_ns < self@.warmup_ns ==> r == HealthStatus::Initializing,
            uptime_ns >= self@.warmup_ns ==> {
                &&& (r == HealthStatus::Ready <==> self@.stale.state == StaleDataState::Fresh)
                &&& (r == HealthStatus::Stale <==> self@.stale.state == StaleDataState::Stale)
                &&& (r == HealthStatus::Offline <==> self@.stale.state == StaleDataState::Offline)
            },
    {
        proof {
            lemma_status_follows_stale_state(uptime_ns, self@.warmup_ns, self@.stale.state);
        }
        if uptime_ns < self.warmup_ns {
            return HealthStatus::Initializing;
        }
        match self.stale_breaker.state() {
            StaleDataState::Fresh => HealthStatus::Ready,
            StaleDataState::Stale => HealthStatus::Stale,
            StaleDataState::Offline => HealthStatus::Offline,
        }
    }

    /// Whether the feed is ready to trade (status read from the clock).
    pub fn is_ready(&self) -> (r: bool)
        ensures
            exists|now: std::time::Instant| r == (spec_status(duration_nanos(#[trigger] instant_gap(now, self@.start_time)),
                self@.warmup_ns, self@.stale.state) == HealthStatus::Ready),
            r ==> self@.stale.state == StaleDataState::Fresh,
    {
        let s = self.status();
        matches!(s, HealthStatus::Ready)
    }

    /// Number of messages processed.
    pub fn message_count(&self) -> (r: u64)
        ensures
            r == self@.message_count,
    {
        self.message_count
    }

    /// Time since the monitor was created (read from the clock).
    pub fn uptime(&self) -> std::time::Duration {
        instant_elapsed(&self.start_time)
    }

    /// Size of the last detected gap.
    pub fn last_gap_size(&self) -> (r: u64)
        ensures
            r == self@.gaps.last_gap_size,
    {
        self.gap_detector.last_gap_size()
    }
}

/// The health status is the warm-up followed by the stale-data state, one for one:
/// during warm-up it is initializing whatever the data; afterwards it is ready exactly
/// when the data is fresh, stale exactly when the data is stale, and offline (trading
/// halted, connection lost) exactly when the stale-data breaker is offline.
pub proof fn lemma_status_follows_stale_state(uptime_ns: u128, warmup_ns: u128, stale: StaleDataState)
    ensures
        uptime_ns < warmup_ns ==> spec_status(uptime_ns, warmup_ns, stale) == HealthStatus::Initializing,
        uptime_ns >= warmup_ns ==> {
            &&& (spec_status(uptime_ns, warmup_ns, stale) == HealthStatus::Ready <==> stale == StaleDataState::Fresh)
            &&& (spec_status(uptime_ns, warmup_ns, stale) == HealthStatus::Stale <==> stale == StaleDataState::Stale)
            &&& (spec_status(uptime_ns, warmup_ns, stale) == HealthStatus::Offline <==> stale == StaleDataState::Offline)
        },
{
}

} // verus!

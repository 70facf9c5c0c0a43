//! Automatic gap recovery for market-data feeds.
//!
//! The manager decides what to do about a sequence gap and keeps the recovery
//! statistics; the caller performs the feed operations and the waits between attempts.
use vstd::prelude::*;
use crate::clock::{duration_from_millis, duration_from_secs, duration_nanos, instant_elapsed, instant_now};
use crate::data::MarketSnapshot;

verus! {

/// Configuration for automatic gap recovery.
#[derive(Clone, Copy)]
pub struct GapRecoveryConfig {
    /// Recover automatically when a gap is detected.
    pub auto_recover: bool,
    /// Largest gap for which recovery is attempted.
    pub max_recoverable_gap: u64,
    /// Timeout for the snapshot fetch during recovery.
    pub snapshot_timeout: std::time::Duration,
    /// Maximum recovery attempts before giving up.
    pub max_recovery_attempts: u32,
    /// Delay between recovery attempts.
    pub recovery_retry_delay: std::time::Duration,
    /// Pause trading while recovering.
    pub pause_trading_during_recovery: bool,
    /// Alert on every gap, recovered or not.
    pub alert_on_gap: bool,
}

impl Default for GapRecoveryConfig {
    /// Auto-recover gaps up to 10 000 messages, 2 s snapshot timeout, 10 attempts
    /// 100 ms apart, pause trading during recovery, alert on gaps.
    fn default() -> (c: Self)
        ensures
            c.auto_recover,
            c.max_recoverable_gap == 10000,
            c.max_recovery_attempts == 10,
            c.pause_trading_during_recovery,
            c.alert_on_gap,
    {
        GapRecoveryConfig {
            auto_recover: true,
            max_recoverable_gap: 10000,
            snapshot_timeout: duration_from_secs(2),
            max_recovery_attempts: 10,
            recovery_retry_delay: duration_from_millis(100),
            pause_trading_during_recovery: true,
            alert_on_gap: true,
        }
    }
}

/// Why a gap was not recovered.
#[derive(Clone, Copy, PartialEq, Eq, Structural, Debug)]
pub enum GapRecoveryError {
    /// The gap exceeds the recovery limit.
    GapTooLarge { gap_size: u64, limit: u64 },
    /// Every recovery attempt failed.
    AttemptsExhausted { attempts: u32 },
    /// No snapshot arrived before the timeout.
    SnapshotTimeout,
}

/// What to do about a newly detected gap.
#[derive(Clone, Copy, PartialEq, Eq, Structural, Debug)]
pub enum GapDecision {
    /// The gap is too large: report the error.
    Reject(GapRecoveryError),
    /// Automatic recovery is disabled: leave the gap to the operator.
    Ignore,
    /// Start recovery with attempt 1.
    Recover,
}

/// What to do after a recovery attempt.
#[derive(Clone, Copy, PartialEq, Eq, Structural, Debug)]
pub enum RecoveryStep {
    /// Recovery succeeded.
    Recovered,
    /// Wait `recovery_retry_delay`, then make attempt `next_attempt`.
    Retry { next_attempt: u32 },
    /// All attempts failed.
    GiveUp(GapRecoveryError),
}

/// Abstract state of a [`GapRecoveryManager`].
pub struct GapRecoveryModel {
    pub auto_recover: bool,
    pub max_recoverable_gap: u64,
    pub max_recovery_attempts: u32,
    pub pause_trading_during_recovery: bool,
    pub total_gaps_detected: u64,
    pub total_gaps_recovered: u64,
    pub total_gaps_failed: u64,
    pub largest_gap_recovered: u64,
    pub recovery_in_progress: bool,
    pub consecutive_failures: u32,
    pub has_recovered: bool,
}

/// Gap recovery state and statistics.
pub struct GapRecoveryManager {
    config: GapRecoveryConfig,
    total_gaps_detected: u64,
    total_gaps_recovered: u64,
    total_gaps_failed: u64,
    largest_gap_recovered: u64,
    last_recovery_time: Option<std::time::Instant>,
    recovery_in_progress: bool,
    consecutive_failures: u32,
}

impl View for GapRecoveryManager {
    type V = GapRecoveryModel;

    closed spec fn view(&self) -> GapRecoveryModel {
        GapRecoveryModel {
            auto_recover: self.config.auto_recover,
            max_recoverable_gap: self.config.max_recoverable_gap,
            max_recovery_attempts: self.config.max_recovery_attempts,
            pause_trading_during_recovery: self.config.pause_trading_during_recovery,
            total_gaps_detected: self.total_gaps_detected,
            total_gaps_recovered: self.total_gaps_recovered,
            total_gaps_failed: self.total_gaps_failed,
            largest_gap_recovered: self.largest_gap_recovered,
            recovery_in_progress: self.recovery_in_progress,
            consecutive_failures: self.consecutive_failures,
            has_recovered: self.last_recovery_time is Some,
        }
    }
}

/// Counters all below their maximum, so one more event can be counted.
pub open spec fn counters_have_room(m: GapRecoveryModel) -> bool {
    &&& m.total_gaps_detected < u64::MAX
    &&& m.total_gaps_recovered < u64::MAX
    &&& m.total_gaps_failed < u64::MAX
    &&& m.consecutive_failures < u32::MAX
}

/// Recovery statistics.
#[derive(Clone, Copy, Debug)]
pub struct GapRecoveryStats {
    pub total_gaps_detected: u64,
    pub total_gaps_recovered: u64,
    pub total_gaps_failed: u64,
    pub largest_gap_recovered: u64,
    pub consecutive_failures: u32,
    /// Time since the last successful recovery (zero if none).
    pub time_since_last_recovery: std::time::Duration,
}

impl GapRecoveryManager {
    /// New manager with zeroed statistics and no recovery in progress.
    pub fn new(config: GapRecoveryConfig) -> (m: Self)
        ensures
            m@ == (GapRecoveryModel {
                auto_recover: config.auto_recover,
                max_recoverable_gap: config.max_recoverable_gap,
                max_recovery_attempts: config.max_recovery_attempts,
                pause_trading_during_recovery: config.pause_trading_during_recovery,
                total_gaps_detected: 0,
                total_gaps_recovered: 0,
                total_gaps_failed: 0,
                largest_gap_recovered: 0,
                recovery_in_progress: false,
                consecutive_failures: 0,
                has_recovered: false,
            }),
            m.snapshot_timeout() == config.snapshot_timeout,
    {
        GapRecoveryManager {
            config,
            total_gaps_detected: 0,
            total_gaps_recovered: 0,
            total_gaps_failed: 0,
            largest_gap_recovered: 0,
            last_recovery_time: None,
            recovery_in_progress: false,
            consecutive_failures: 0,
        }
    }

    /// Timeout handed to the feed when waiting for a snapshot.
    pub closed spec fn snapshot_timeout(&self) -> std::time::Duration {
        self.config.snapshot_timeout
    }

    /// The configuration.
    pub fn config(&self) -> (c: &GapRecoveryConfig)
        ensures
            c.snapshot_timeout == self.snapshot_timeout(),
            c.auto_recover == self@.auto_recover,
            c.max_recoverable_gap == self@.max_recoverable_gap,
            c.max_recovery_attempts == self@.max_recovery_attempts,
            c.pause_trading_during_recovery == self@.pause_trading_during_recovery,
    {
        &self.config
    }

    /// Whether a recovery is in progress.
    pub fn is_recovering(&self) -> (r: bool)
        ensures
            r == self@.recovery_in_progress,
    {
        self.recovery_in_progress
    }

    /// Whether trading should be paused: recovering and configured to pause.
    pub fn should_pause_trading(&self) -> (r: bool)
        ensures
            r == (self@.recovery_in_progress && self@.pause_trading_during_recovery),
    {
        self.recovery_in_progress && self.config.pause_trading_during_recovery
    }

    /// Register a detected gap and decide what to do about it.
    ///
    /// Every gap is counted. A gap larger than `max_recoverable_gap` counts as a failure
    /// and is rejected; with automatic recovery disabled it is ignored; otherwise a
    /// recovery starts.
    pub fn begin_gap(&mut self, gap_size: u64) -> (d: GapDecision)
        requires
            counters_have_room(old(self)@),
        ensures
            final(self)@ == spec_begin_gap(old(self)@, gap_size),
            gap_size > old(self)@.max_recoverable_gap ==>
                d == GapDecision::Reject((GapRecoveryError::GapTooLarge { gap_size, limit: old(self)@.max_recoverable_gap })),
            gap_size <= old(self)@.max_recoverable_gap && !old(self)@.auto_recover ==> d == GapDecision::Ignore,
            gap_size <= old(self)@.max_recoverable_gap && old(self)@.auto_recover ==> d == GapDecision::Recover,
    {
        self.total_gaps_detected = self.total_gaps_detected + 1;
        if gap_size > self.config.max_recoverable_gap {
            self.total_gaps_failed = self.total_gaps_failed + 1;
            self.consecutive_failures = self.consecutive_failures + 1;
            return GapDecision::Reject(GapRecoveryError::GapTooLarge {
                gap_size,
                limit: self.config.max_recoverable_gap,
            });
        }
        if !self.config.auto_recover {
            return GapDecision::Ignore;
        }
        self.recovery_in_progress = true;
        GapDecision::Recover
    }

    /// Register the outcome of recovery attempt number `attempt` (from 1) for a gap of
    /// `gap_size` messages, and decide the next step.
    ///
    /// A success ends the recovery, counts it, clears the consecutive failures and
    /// records the largest recovered gap. A failure before the last attempt asks for a
    /// retry; a failure at the last attempt ends the recovery as failed.
    pub fn finish_attempt(&mut self, gap_size: u64, attempt: u32, success: bool) -> (s: RecoveryStep)
        requires
            counters_have_room(old(self)@),
            1 <= attempt,
            attempt < u32::MAX,
        ensures
            final(self)@ == spec_finish_attempt(old(self)@, gap_size, attempt, success),
            success ==> s == RecoveryStep::Recovered,
            !success && attempt < old(self)@.max_recovery_attempts ==> s == (RecoveryStep::Retry { next_attempt: (attempt + 1) as u32 }),
            !success && attempt >= old(self)@.max_recovery_attempts ==>
                s == RecoveryStep::GiveUp((GapRecoveryError::AttemptsExhausted { attempts: old(self)@.max_recovery_attempts })),
    {
        if success {
            self.recovery_in_progress = false;
            self.total_gaps_recovered = self.total_gaps_recovered + 1;
            self.consecutive_failures = 0;
            self.last_recovery_time = Some(instant_now());
            if gap_size > self.largest_gap_recovered {
                self.largest_gap_recovered = gap_size;
            }
            return RecoveryStep::Recovered;
        }
        if attempt < self.config.max_recovery_attempts {
            return RecoveryStep::Retry { next_attempt: attempt + 1 };
        }
        self.recovery_in_progress = false;
        self.total_gaps_failed = self.total_gaps_failed + 1;
        self.consecutive_failures = self.consecutive_failures + 1;
        RecoveryStep::GiveUp(GapRecoveryError::AttemptsExhausted { attempts: self.config.max_recovery_attempts })
    }

    /// One recovery attempt against a feed: save the read position, request and wait
    /// for a snapshot, rewind to the saved position, and resume gap detection just
    /// before `current_seq` (the sequence that revealed the gap), since the snapshot's
    /// own sequence may be stale.
    pub fn attempt_recovery<F: RecoveryFeed>(&self, feed: &mut F, current_seq: u64) -> (r: Result<MarketSnapshot, GapRecoveryError>)
        ensures
            r is Err ==> r == Err::<MarketSnapshot, GapRecoveryError>(GapRecoveryError::SnapshotTimeout),
            F::logs_calls() ==> exists|cp: F::Checkpoint, fetched: Option<MarketSnapshot>|
                final(feed).calls() == old(feed).calls() + #[trigger] recovery_calls(cp, self.snapshot_timeout(), fetched, current_seq)
                && r == spec_snapshot_outcome(fetched),
    {
        let ghost calls0 = feed.calls();
        let checkpoint = feed.save_position();
        let ghost cp = checkpoint;
        feed.request_snapshot();
        let fetched = feed.fetch_snapshot(self.config.snapshot_timeout);
        let outcome = snapshot_outcome(fetched);
        if outcome.is_ok() {
            feed.rewind_to(checkpoint);
            let reset_seq = recovery_resume_sequence(current_seq);
            feed.mark_recovery_complete(reset_seq);
        }
        proof {
            if F::logs_calls() {
                assert(feed.calls() =~= calls0 + recovery_calls(cp, self.snapshot_timeout(), fetched, current_seq));
            }
        }
        outcome
    }

    /// Current statistics.
    pub fn stats(&self) -> (s: GapRecoveryStats)
        ensures
            s.total_gaps_detected == self@.total_gaps_detected,
            s.total_gaps_recovered == self@.total_gaps_recovered,
            s.total_gaps_failed == self@.total_gaps_failed,
            s.largest_gap_recovered == self@.largest_gap_recovered,
            s.consecutive_failures == self@.consecutive_failures,
            !self@.has_recovered ==> duration_nanos(s.time_since_last_recovery) == 0,
    {
        let time_since = match &self.last_recovery_time {
            Some(t) => instant_elapsed(t),
            None => duration_from_secs(0),
        };
        GapRecoveryStats {
            total_gaps_detected: self.total_gaps_detected,
            total_gaps_recovered: self.total_gaps_recovered,
            total_gaps_failed: self.total_gaps_failed,
            largest_gap_recovered: self.largest_gap_recovered,
            consecutive_failures: self.consecutive_failures,
            time_since_last_recovery: time_since,
        }
    }

    /// Zero the statistics (after a reconnection); configuration and the recovery flag are kept.
    pub fn reset_stats(&mut self)
        ensures
            final(self)@ == (GapRecoveryModel {
                total_gaps_detected: 0,
                total_gaps_recovered: 0,
                total_gaps_failed: 0,
                largest_gap_recovered: 0,
                consecutive_failures: 0,
                has_recovered: false,
                ..old(self)@
            }),
    {
        self.total_gaps_detected = 0;
        self.total_gaps_recovered = 0;
        self.total_gaps_failed = 0;
        self.largest_gap_recovered = 0;
        self.consecutive_failures = 0;
        self.last_recovery_time = None;
    }

    /// Whether to give up: five or more consecutive failures.
    pub fn should_abandon(&self) -> (r: bool)
        ensures
            r == (self@.consecutive_failures >= 5),
    {
        self.consecutive_failures >= 5
    }
}

/// Outcome of a recovery attempt given what the snapshot fetch returned: the snapshot,
/// or `SnapshotTimeout` when none arrived in time.
pub open spec fn spec_snapshot_outcome(fetched: Option<MarketSnapshot>) -> Result<MarketSnapshot, GapRecoveryError> {
    match fetched {
        Some(s) => Ok(s),
        None => Err(GapRecoveryError::SnapshotTimeout),
    }
}

/// Sequence at which gap detection resumes after recovering at `current_seq`.
pub open spec fn spec_resume_sequence(current_seq: u64) -> u64 {
    if current_seq > 0 { (current_seq - 1) as u64 } else { 0 }
}

/// Feed calls of one recovery attempt: save the read position, request a snapshot and
/// wait up to `timeout` for it; when one arrived, rewind to the saved position and
/// resume gap detection just before `current_seq`.
pub open spec fn recovery_calls<C>(cp: C, timeout: std::time::Duration, fetched: Option<MarketSnapshot>, current_seq: u64)
    -> Seq<FeedCall<C>>
{
    let waited = seq![FeedCall::Save(cp), FeedCall::Request, FeedCall::Fetch(timeout, fetched)];
    if fetched is Some {
        waited + seq![FeedCall::Rewind(cp), FeedCall::MarkComplete(spec_resume_sequence(current_seq))]
    } else {
        waited
    }
}

/// Outcome of a recovery attempt given what the snapshot fetch returned: the snapshot,
/// or `SnapshotTimeout` when none arrived in time.
pub fn snapshot_outcome(fetched: Option<MarketSnapshot>) -> (r: Result<MarketSnapshot, GapRecoveryError>)
    ensures
        r == spec_snapshot_outcome(fetched),
{
    match fetched {
        Some(s) => Ok(s),
        None => Err(GapRecoveryError::SnapshotTimeout),
    }
}

/// Sequence at which gap detection resumes after recovering at `current_seq`:
/// one before it, so that `current_seq` itself is accepted without a gap.
pub fn recovery_resume_sequence(current_seq: u64) -> (r: u64)
    ensures
        r == if current_seq > 0 { (current_seq - 1) as u64 } else { 0 },
{
    current_seq.saturating_sub(1)
}

/// A call made of a recovery feed, with what it was given and, for the saved position
/// and the fetch, what it returned.
pub enum FeedCall<C> {
    Save(C),
    Request,
    Fetch(std::time::Duration, Option<MarketSnapshot>),
    Rewind(C),
    MarkComplete(u64),
}

/// Feed operations that a recovery attempt needs. Implemented by the market-data feed.
pub trait RecoveryFeed {
    /// Opaque read position of the feed.
    type Checkpoint;

    /// Whether this feed keeps the record of calls below; one that does not promises
    /// nothing about it.
    open spec fn logs_calls() -> bool {
        false
    }

    /// Calls made of this feed, oldest first.
    open spec fn calls(&self) -> Seq<FeedCall<Self::Checkpoint>> {
        Seq::empty()
    }

    /// Save the current read position.
    fn save_position(&mut self) -> (r: Self::Checkpoint)
        ensures
            Self::logs_calls() ==> final(self).calls() == old(self).calls().push(FeedCall::Save(r)),
    ;

    /// Ask the publisher for a fresh snapshot.
    fn request_snapshot(&mut self)
        ensures
            Self::logs_calls() ==> final(self).calls() == old(self).calls().push(FeedCall::Request),
    ;

    /// Wait up to `timeout` for the requested snapshot.
    fn fetch_snapshot(&mut self, timeout: std::time::Duration) -> (r: Option<MarketSnapshot>)
        ensures
            Self::logs_calls() ==> final(self).calls() == old(self).calls().push(FeedCall::Fetch(timeout, r)),
    ;

    /// Rewind to a saved read position to replay buffered messages.
    fn rewind_to(&mut self, checkpoint: Self::Checkpoint)
        ensures
            Self::logs_calls() ==> final(self).calls() == old(self).calls().push(FeedCall::Rewind(checkpoint)),
    ;

    /// Resume gap detection as if `sequence` were the last message processed.
    fn mark_recovery_complete(&mut self, sequence: u64)
        ensures
            Self::logs_calls() ==> final(self).calls() == old(self).calls().push(FeedCall::MarkComplete(sequence)),
    ;
}

/// Every gap detected is accounted for at most once: gaps recovered, gaps failed and
/// the recovery in progress together never exceed the gaps detected.
pub open spec fn gap_accounting(m: GapRecoveryModel) -> bool {
    m.total_gaps_recovered + m.total_gaps_failed + (if m.recovery_in_progress { 1int } else { 0int }) <= m.total_gaps_detected
}

/// State after `begin_gap`.
pub open spec fn spec_begin_gap(m: GapRecoveryModel, gap_size: u64) -> GapRecoveryModel {
    if gap_size > m.max_recoverable_gap {
        GapRecoveryModel {
            total_gaps_detected: (m.total_gaps_detected + 1) as u64,
            total_gaps_failed: (m.total_gaps_failed + 1) as u64,
            consecutive_failures: (m.consecutive_failures + 1) as u32,
            ..m
        }
    } else if !m.auto_recover {
        GapRecoveryModel { total_gaps_detected: (m.total_gaps_detected + 1) as u64, ..m }
    } else {
        GapRecoveryModel { total_gaps_detected: (m.total_gaps_detected + 1) as u64, recovery_in_progress: true, ..m }
    }
}

/// State after `finish_attempt`.
pub open spec fn spec_finish_attempt(m: GapRecoveryModel, gap_size: u64, attempt: u32, success: bool) -> GapRecoveryModel {
    if success {
        GapRecoveryModel {
            recovery_in_progress: false,
            total_gaps_recovered: (m.total_gaps_recovered + 1) as u64,
            consecutive_failures: 0,
            has_recovered: true,
            largest_gap_recovered: if gap_size > m.largest_gap_recovered { gap_size } else { m.largest_gap_recovered },
            ..m
        }
    } else if attempt < m.max_recovery_attempts {
        m
    } else {
        GapRecoveryModel {
            recovery_in_progress: false,
            total_gaps_failed: (m.total_gaps_failed + 1) as u64,
            consecutive_failures: (m.consecutive_failures + 1) as u32,
            ..m
        }
    }
}

/// Gap accounting is kept by every step of the recovery protocol: a new gap is begun
/// only when no recovery is in progress, and attempts are finished only while one is.
pub proof fn lemma_gap_accounting_preserved(m: GapRecoveryModel, gap_size: u64, attempt: u32, success: bool)
    requires
        gap_accounting(m),
        counters_have_room(m),
    ensures
        !m.recovery_in_progress ==> gap_accounting(spec_begin_gap(m, gap_size)),
        m.recovery_in_progress ==> gap_accounting(spec_finish_attempt(m, gap_size, attempt, success)),
{
}

} // verus!

//! Position reconciliation: compares the internally tracked position with the
//! executor's position and reports, auto-corrects or halts on drift.
use vstd::prelude::*;
use crate::clock::{instant_elapsed, instant_now};

verus! {

/// Position reconciliation configuration.
#[derive(Clone, Copy)]
pub struct ReconciliationConfig {
    /// Reconcile every N fills.
    pub reconcile_every_n_fills: u32,
    /// Maximum allowed position mismatch (fixed point).
    pub max_position_mismatch: u64,
    /// Whether to halt trading (return an error) on a mismatch above the maximum.
    pub halt_on_mismatch: bool,
    /// Drifts up to this size are auto-corrected.
    pub auto_correct_threshold: u64,
}

impl Default for ReconciliationConfig {
    /// Every 1000 fills, 0.001 maximum mismatch, halt on mismatch, auto-correct up to 0.0001.
    fn default() -> (c: Self)
        ensures
            c.reconcile_every_n_fills == 1000,
            c.max_position_mismatch == 1_000_000,
            c.halt_on_mismatch,
            c.auto_correct_threshold == 100_000,
    {
        ReconciliationConfig {
            reconcile_every_n_fills: 1000,
            max_position_mismatch: 1_000_000,
            halt_on_mismatch: true,
            auto_correct_threshold: 100_000,
        }
    }
}

/// Reconciliation failed: the drift exceeds the configured maximum.
#[derive(Clone, Copy, PartialEq, Eq, Structural, Debug)]
pub struct ReconcileError {
    pub drift: i64,
    pub max: u64,
}

/// Abstract state of a [`PositionReconciler`].
pub struct ReconcilerModel {
    pub reconcile_every_n_fills: u32,
    pub max_position_mismatch: u64,
    pub halt_on_mismatch: bool,
    pub auto_correct_threshold: u64,
    pub fills_since_last_check: u64,
    pub successful: u64,
    pub failed: u64,
    pub total_drift: i64,
    pub max_drift: i64,
}

/// `|a - b|`.
pub open spec fn spec_drift(a: i64, b: i64) -> int {
    if a >= b { a - b } else { b - a }
}

/// Result of reconciling a drift against the configuration.
pub open spec fn spec_reconcile_result(m: ReconcilerModel, drift: int) -> Result<i64, ReconcileError> {
    if drift == 0 {
        Ok(0)
    } else if drift <= m.auto_correct_threshold {
        Ok(drift as i64)
    } else if drift > m.max_position_mismatch && m.halt_on_mismatch {
        Err(ReconcileError { drift: drift as i64, max: m.max_position_mismatch })
    } else {
        Ok(drift as i64)
    }
}

/// State after reconciling a drift.
pub open spec fn spec_after_reconcile(m: ReconcilerModel, drift: int) -> ReconcilerModel {
    let failed_check = drift != 0 && drift > m.auto_correct_threshold && drift > m.max_position_mismatch;
    ReconcilerModel {
        fills_since_last_check: 0,
        total_drift: m.total_drift.wrapping_add(drift as i64),
        max_drift: if drift > m.max_drift { drift as i64 } else { m.max_drift },
        successful: if failed_check { m.successful } else { m.successful.wrapping_add(1) },
        failed: if failed_check { m.failed.wrapping_add(1) } else { m.failed },
        ..m
    }
}

/// Position reconciliation state and logic.
pub struct PositionReconciler {
    config: ReconciliationConfig,
    fills_since_last_check: u64,
    last_reconciliation: std::time::Instant,
    successful_reconciliations: u64,
    failed_reconciliations: u64,
    total_drift_detected: i64,
    max_drift_detected: i64,
}

impl View for PositionReconciler {
    type V = ReconcilerModel;

    closed spec fn view(&self) -> ReconcilerModel {
        ReconcilerModel {
            reconcile_every_n_fills: self.config.reconcile_every_n_fills,
            max_position_mismatch: self.config.max_position_mismatch,
            halt_on_mismatch: self.config.halt_on_mismatch,
            auto_correct_threshold: self.config.auto_correct_threshold,
            fills_since_last_check: self.fills_since_last_check,
            successful: self.successful_reconciliations,
            failed: self.failed_reconciliations,
            total_drift: self.total_drift_detected,
            max_drift: self.max_drift_detected,
        }
    }
}

/// Reconciliation statistics.
#[derive(Clone, Copy, Debug)]
pub struct ReconciliationStats {
    pub successful: u64,
    pub failed: u64,
    pub total_drift: i64,
    pub max_drift: i64,
    pub fills_since_check: u64,
    /// Time since the last reconciliation (read from the clock).
    pub time_since_last: std::time::Duration,
}

impl PositionReconciler {
    /// Reconciler with the default configuration.
    pub fn new() -> (r: Self)
        ensures
            r@ == (ReconcilerModel {
                reconcile_every_n_fills: 1000,
                max_position_mismatch: 1_000_000,
                halt_on_mismatch: true,
                auto_correct_threshold: 100_000,
                fills_since_last_check: 0,
                successful: 0,
                failed: 0,
                total_drift: 0,
                max_drift: 0,
            }),
    {
        Self::with_config(ReconciliationConfig::default())
    }

    /// Reconciler with the given configuration and zeroed counters.
    pub fn with_config(config: ReconciliationConfig) -> (r: Self)
        ensures
            r@ == (ReconcilerModel {
                reconcile_every_n_fills: config.reconcile_every_n_fills,
                max_position_mismatch: config.max_position_mismatch,
                halt_on_mismatch: config.halt_on_mismatch,
                auto_correct_threshold: config.auto_correct_threshold,
                fills_since_last_check: 0,
                successful: 0,
                failed: 0,
                total_drift: 0,
                max_drift: 0,
            }),
    {
        PositionReconciler {
            config,
            fills_since_last_check: 0,
            last_reconciliation: instant_now(),
            successful_reconciliations: 0,
            failed_reconciliations: 0,
            total_drift_detected: 0,
            max_drift_detected: 0,
        }
    }

    /// Whether enough fills have occurred since the last check.
    pub fn should_reconcile(&self) -> (r: bool)
        ensures
            r == (self@.fills_since_last_check >= self@.reconcile_every_n_fills),
    {
        self.fills_since_last_check >= self.config.reconcile_every_n_fills as u64
    }

    /// Count one fill (wrapping like an atomic counter).
    pub fn on_fill(&mut self)
        ensures
            final(self)@ == (ReconcilerModel {
                fills_since_last_check: old(self)@.fills_since_last_check.wrapping_add(1),
                ..old(self)@
            }),
    {
        self.fills_since_last_check = self.fills_since_last_check.wrapping_add(1);
    }

    /// Reconcile the internal position with the executor's position.
    ///
    /// The fill counter is reset and the drift `|internal - executor|` is added to the
    /// statistics. A zero drift, or one within the auto-correct threshold, is a success;
    /// a drift above the maximum mismatch is a failure and returns an error when
    /// `halt_on_mismatch` is set; any other drift is a success within tolerance.
    pub fn reconcile(&mut self, internal_position: i64, executor_position: i64) -> (r: Result<i64, ReconcileError>)
        requires
            spec_drift(internal_position, executor_position) <= i64::MAX,
        ensures
            r == spec_reconcile_result(old(self)@, spec_drift(internal_position, executor_position)),
            final(self)@ == spec_after_reconcile(old(self)@, spec_drift(internal_position, executor_position)),
    {
        self.fills_since_last_check = 0;
        let drift: i64 = if internal_position >= executor_position {
            internal_position - executor_position
        } else {
            executor_position - internal_position
        };
        self.total_drift_detected = self.total_drift_detected.wrapping_add(drift);
        if drift > self.max_drift_detected {
            self.max_drift_detected = drift;
        }
        if drift == 0 {
            self.successful_reconciliations = self.successful_reconciliations.wrapping_add(1);
            return Ok(0);
        }
        if drift as u64 <= self.config.auto_correct_threshold {
            self.successful_reconciliations = self.successful_reconciliations.wrapping_add(1);
            return Ok(drift);
        }
        if drift as u64 > self.config.max_position_mismatch {
            self.failed_reconciliations = self.failed_reconciliations.wrapping_add(1);
            if self.config.halt_on_mismatch {
                return Err(ReconcileError { drift, max: self.config.max_position_mismatch });
            }
        } else {
            self.successful_reconciliations = self.successful_reconciliations.wrapping_add(1);
        }
        Ok(drift)
    }

    /// Force the next check: the fill counter is set to the reconciliation interval.
    pub fn force_reconciliation(&mut self)
        ensures
            final(self)@ == (ReconcilerModel {
                fills_since_last_check: old(self)@.reconcile_every_n_fills as u64,
                ..old(self)@
            }),
    {
        self.fills_since_last_check = self.config.reconcile_every_n_fills as u64;
    }

    /// Current statistics.
    pub fn stats(&self) -> (s: ReconciliationStats)
        ensures
            s.successful == self@.successful,
            s.failed == self@.failed,
            s.total_drift == self@.total_drift,
            s.max_drift == self@.max_drift,
            s.fills_since_check == self@.fills_since_last_check,
    {
        ReconciliationStats {
            successful: self.successful_reconciliations,
            failed: self.failed_reconciliations,
            total_drift: self.total_drift_detected,
            max_drift: self.max_drift_detected,
            fills_since_check: self.fills_since_last_check,
            time_since_last: instant_elapsed(&self.last_reconciliation),
        }
    }

    /// Zero every counter; the configuration is kept.
    pub fn reset_stats(&mut self)
        ensures
            final(self)@ == (ReconcilerModel {
                fills_since_last_check: 0,
                successful: 0,
                failed: 0,
                total_drift: 0,
                max_drift: 0,
                ..old(self)@
            }),
    {
        self.successful_reconciliations = 0;
        self.failed_reconciliations = 0;
        self.total_drift_detected = 0;
        self.max_drift_detected = 0;
        self.fills_since_last_check = 0;
    }
}

/// After a reconciliation the fill counter is zero, so no new reconciliation is due
/// unless the interval is zero.
pub proof fn lemma_reconcile_resets_schedule(m: ReconcilerModel, drift: int)
    requires
        m.reconcile_every_n_fills > 0,
    ensures
        !(spec_after_reconcile(m, drift).fills_since_last_check >= spec_after_reconcile(m, drift).reconcile_every_n_fills),
{
}

/// Reconciliation only returns an error when halting is configured and the drift
/// exceeds both the auto-correct threshold and the maximum mismatch; exactly one of the
/// success and failure counters grows.
pub proof fn lemma_reconcile_error_iff_halt(m: ReconcilerModel, drift: int)
    requires
        0 <= drift <= i64::MAX,
        m.successful < u64::MAX,
        m.failed < u64::MAX,
    ensures
        spec_reconcile_result(m, drift) is Err <==> (m.halt_on_mismatch && drift > m.auto_correct_threshold
            && drift > m.max_position_mismatch),
        spec_after_reconcile(m, drift).successful + spec_after_reconcile(m, drift).failed == m.successful + m.failed + 1,
        spec_after_reconcile(m, drift).max_drift >= drift,
{
}

/// State after reconciling each drift of `drifts` in order.
pub open spec fn spec_reconcile_all(m: ReconcilerModel, drifts: Seq<int>) -> ReconcilerModel
    decreases drifts.len(),
{
    if drifts.len() == 0 {
        m
    } else {
        spec_after_reconcile(spec_reconcile_all(m, drifts.drop_last()), drifts.last())
    }
}

/// Over any run of reconciliations, every call counts exactly once: as long as the
/// counters do not wrap, successes plus failures grow by the number of calls, and the
/// largest drift recorded is at least every drift seen.
pub proof fn lemma_reconcile_counts_every_call(m: ReconcilerModel, drifts: Seq<int>)
    requires
        m.successful + m.failed + drifts.len() <= u64::MAX,
        forall|i: int| 0 <= i < drifts.len() ==> 0 <= #[trigger] drifts[i] <= i64::MAX,
    ensures
        spec_reconcile_all(m, drifts).successful + spec_reconcile_all(m, drifts).failed == m.successful + m.failed + drifts.len(),
        forall|i: int| 0 <= i < drifts.len() ==> spec_reconcile_all(m, drifts).max_drift >= #[trigger] drifts[i],
        spec_reconcile_all(m, drifts).max_drift >= m.max_drift,
    decreases drifts.len(),
{
    if drifts.len() > 0 {
        let front = drifts.drop_last();
        assert forall|i: int| 0 <= i < front.len() implies 0 <= #[trigger] front[i] <= i64::MAX by {
            assert(front[i] == drifts[i]);
        }
        lemma_reconcile_counts_every_call(m, front);
        let mid = spec_reconcile_all(m, front);
        lemma_reconcile_error_iff_halt(mid, drifts.last());
        assert forall|i: int| 0 <= i < drifts.len() implies spec_reconcile_all(m, drifts).max_drift >= #[trigger] drifts[i] by {
            if i < front.len() {
                assert(front[i] == drifts[i]);
            }
        }
    }
}

/// Sum of the drifts.
pub open spec fn drift_sum(drifts: Seq<int>) -> int
    decreases drifts.len(),
{
    if drifts.len() == 0 {
        0
    } else {
        drift_sum(drifts.drop_last()) + drifts.last()
    }
}

/// Largest of `start` and the drifts.
pub open spec fn drift_max(start: int, drifts: Seq<int>) -> int
    decreases drifts.len(),
{
    if drifts.len() == 0 {
        start
    } else {
        let before = drift_max(start, drifts.drop_last());
        if drifts.last() > before { drifts.last() } else { before }
    }
}

/// Over any run of reconciliations the statistics are the run's totals: the total
/// drift grows by the sum of the drifts (while it fits in `i64`) and the largest drift
/// is the maximum of the previous one and every drift seen.
pub proof fn lemma_reconcile_totals(m: ReconcilerModel, drifts: Seq<int>)
    requires
        forall|i: int| 0 <= i < drifts.len() ==> 0 <= #[trigger] drifts[i] <= i64::MAX,
        0 <= m.total_drift,
        m.total_drift + drift_sum(drifts) <= i64::MAX,
    ensures
        spec_reconcile_all(m, drifts).total_drift == m.total_drift + drift_sum(drifts),
        spec_reconcile_all(m, drifts).max_drift == drift_max(m.max_drift as int, drifts),
    decreases drifts.len(),
{
    if drifts.len() > 0 {
        let front = drifts.drop_last();
        assert forall|i: int| 0 <= i < front.len() implies 0 <= #[trigger] front[i] <= i64::MAX by {
            assert(front[i] == drifts[i]);
        }
        assert(0 <= drifts[drifts.len() - 1]);
        lemma_drift_sum_nonneg(front);
        lemma_reconcile_totals(m, front);
    }
}

/// A sum of non-negative drifts is non-negative.
proof fn lemma_drift_sum_nonneg(drifts: Seq<int>)
    requires
        forall|i: int| 0 <= i < drifts.len() ==> 0 <= #[trigger] drifts[i],
    ensures
        drift_sum(drifts) >= 0,
    decreases drifts.len(),
{
    if drifts.len() > 0 {
        let front = drifts.drop_last();
        assert forall|i: int| 0 <= i < front.len() implies 0 <= #[trigger] front[i] by {
            assert(front[i] == drifts[i]);
        }
        lemma_drift_sum_nonneg(front);
        assert(0 <= drifts[drifts.len() - 1]);
    }
}

} // verus!

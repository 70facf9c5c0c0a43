//! Sequence gap detection for market-data streams, with wraparound at `u64::MAX`.
use vstd::prelude::*;

verus! {

/// Number of sequence numbers skipped when `current` arrives right after `last`,
/// counting forward with wraparound (0 when the two are equal).
pub open spec fn spec_gap(last: u64, current: u64) -> u64 {
    if current > last {
        (current - last - 1) as u64
    } else if current < last {
        (u64::MAX - last + current) as u64
    } else {
        0
    }
}

/// Abstract state of a [`GapDetector`].
pub struct GapDetectorModel {
    pub last_sequence: u64,
    pub last_gap_size: u64,
    pub gap_detected: bool,
    pub ready: bool,
    pub last_epoch: u64,
}

/// State after checking `current`: the first message only records its sequence, a
/// duplicate of the last sequence changes nothing, and any other sequence records the
/// gap since the last one.
pub open spec fn spec_after_check(m: GapDetectorModel, current: u64) -> GapDetectorModel {
    if !m.ready {
        GapDetectorModel { last_sequence: current, last_gap_size: 0, gap_detected: false, ready: true, ..m }
    } else if current == m.last_sequence {
        m
    } else {
        let gap = spec_gap(m.last_sequence, current);
        GapDetectorModel { last_sequence: current, last_gap_size: gap, gap_detected: gap > 0, ready: true, ..m }
    }
}

/// Whether the gap flag agrees with the last gap size: a gap is flagged exactly when
/// the last gap size is positive.
pub open spec fn gap_flag_consistent(m: GapDetectorModel) -> bool {
    m.gap_detected == (m.last_gap_size > 0)
}

/// Detects gaps in sequence numbers with wraparound support.
pub struct GapDetector {
    last_sequence: u64,
    last_gap_size: u64,
    gap_detected: bool,
    ready: bool,
    last_epoch: u64,
}

impl View for GapDetector {
    type V = GapDetectorModel;

    closed spec fn view(&self) -> GapDetectorModel {
        GapDetectorModel {
            last_sequence: self.last_sequence,
            last_gap_size: self.last_gap_size,
            gap_detected: self.gap_detected,
            ready: self.ready,
            last_epoch: self.last_epoch,
        }
    }
}

impl GapDetector {
    /// Create a detector that has not seen any message yet.
    pub fn new() -> (d: Self)
        ensures
            d@ == (GapDetectorModel {
                last_sequence: 0,
                last_gap_size: 0,
                gap_detected: false,
                ready: false,
                last_epoch: 0,
            }),
    {
        GapDetector { last_sequence: 0, last_gap_size: 0, gap_detected: false, ready: false, last_epoch: 0 }
    }

    /// Check a sequence number for gaps; returns the gap size (0 when there is none).
    ///
    /// The first message only records the sequence; a duplicate of the last
    /// sequence is ignored and leaves the state unchanged.
    pub fn check(&mut self, current_sequence: u64) -> (gap: u64)
        ensures
            final(self)@ == spec_after_check(old(self)@, current_sequence),
            !old(self)@.ready ==> {
                &&& gap == 0
                &&& final(self)@ == (GapDetectorModel {
                    last_sequence: current_sequence,
                    last_gap_size: 0,
                    gap_detected: false,
                    ready: true,
                    last_epoch: old(self)@.last_epoch,
                })
            },
            old(self)@.ready && current_sequence == old(self)@.last_sequence ==> {
                &&& gap == 0
                &&& final(self)@ == old(self)@
            },
            old(self)@.ready && current_sequence != old(self)@.last_sequence ==> {
                &&& gap == spec_gap(old(self)@.last_sequence, current_sequence)
                &&& final(self)@ == (GapDetectorModel {
                    last_sequence: current_sequence,
                    last_gap_size: gap,
                    gap_detected: gap > 0,
                    ready: true,
                    last_epoch: old(self)@.last_epoch,
                })
            },
    {
        if !self.ready {
            self.last_sequence = current_sequence;
            self.ready = true;
            self.gap_detected = false;
            self.last_gap_size = 0;
            return 0;
        }
        if current_sequence == self.last_sequence {
            return 0;
        }
        let gap_size = Self::calculate_gap(self.last_sequence, current_sequence);
        self.last_sequence = current_sequence;
        if gap_size > 0 {
            self.gap_detected = true;
            self.last_gap_size = gap_size;
        } else {
            self.gap_detected = false;
            self.last_gap_size = 0;
        }
        gap_size
    }

    /// Gap between two sequence numbers with wraparound support.
    fn calculate_gap(last: u64, current: u64) -> (gap: u64)
        ensures
            gap == spec_gap(last, current),
    {
        if current > last {
            current - last - 1
        } else if current < last {
            u64::MAX - last + current
        } else {
            0
        }
    }

    /// Detect a feed restart: the sequence dropped while the epoch increased.
    /// On a restart the new epoch is recorded.
    pub fn detect_restart(&mut self, sequence: u64, epoch: u64) -> (restart: bool)
        ensures
            restart == (sequence < old(self)@.last_sequence && epoch > old(self)@.last_epoch),
            final(self)@ == (if restart {
                GapDetectorModel { last_epoch: epoch, ..old(self)@ }
            } else {
                old(self)@
            }),
    {
        let is_restart = sequence < self.last_sequence && epoch > self.last_epoch;
        if is_restart {
            self.last_epoch = epoch;
        }
        is_restart
    }

    /// Record the current epoch for restart detection.
    pub fn set_epoch(&mut self, epoch: u64)
        ensures
            final(self)@ == (GapDetectorModel { last_epoch: epoch, ..old(self)@ }),
    {
        self.last_epoch = epoch;
    }

    /// Size of the last detected gap.
    pub fn last_gap_size(&self) -> (r: u64)
        ensures
            r == self@.last_gap_size,
    {
        self.last_gap_size
    }

    /// Whether the last checked message followed a gap.
    pub fn gap_detected(&self) -> (r: bool)
        ensures
            r == self@.gap_detected,
    {
        self.gap_detected
    }

    /// Whether the detector has seen a first message.
    pub fn is_ready(&self) -> (r: bool)
        ensures
            r == self@.ready,
    {
        self.ready
    }

    /// Last sequence number processed.
    pub fn last_sequence(&self) -> (r: u64)
        ensures
            r == self@.last_sequence,
    {
        self.last_sequence
    }

    /// Last epoch recorded.
    pub fn last_epoch(&self) -> (r: u64)
        ensures
            r == self@.last_epoch,
    {
        self.last_epoch
    }

    /// Reset for recovery: forget the last sequence and any gap; the epoch is kept.
    pub fn reset(&mut self)
        ensures
            final(self)@ == (GapDetectorModel {
                last_sequence: 0,
                last_gap_size: 0,
                gap_detected: false,
                ready: false,
                last_epoch: old(self)@.last_epoch,
            }),
    {
        self.last_sequence = 0;
        self.last_gap_size = 0;
        self.gap_detected = false;
        self.ready = false;
    }

    /// Continue from a known sequence (after snapshot recovery).
    pub fn reset_at_sequence(&mut self, sequence: u64)
        ensures
            final(self)@ == (GapDetectorModel {
                last_sequence: sequence,
                last_gap_size: 0,
                gap_detected: false,
                ready: true,
                last_epoch: old(self)@.last_epoch,
            }),
    {
        self.last_sequence = sequence;
        self.last_gap_size = 0;
        self.gap_detected = false;
        self.ready = true;
    }
}

/// The gap reported between two distinct sequence numbers is the number of
/// values strictly between them when counting forward modulo 2^64.
pub proof fn lemma_gap_counts_skipped(last: u64, current: u64)
    requires
        last != current,
    ensures
        spec_gap(last, current) as int == (current as int - last as int - 1) % 0x1_0000_0000_0000_0000,
{
    let m: int = 0x1_0000_0000_0000_0000;
    if current > last {
        assert(0 <= current as int - last as int - 1 < m);
        vstd::arithmetic::div_mod::lemma_small_mod((current as int - last as int - 1) as nat, m as nat);
    } else {
        let d = current as int - last as int - 1;
        assert(d + m == spec_gap(last, current) as int);
        vstd::arithmetic::div_mod::lemma_mod_add_multiples_vanish(d, m);
        vstd::arithmetic::div_mod::lemma_small_mod((d + m) as nat, m as nat);
    }
}

/// After a snapshot recovery at `sequence`, the next consecutive message reports no gap.
pub proof fn lemma_recovery_then_next_is_gapless(sequence: u64)
    requires
        sequence < u64::MAX,
    ensures
        spec_gap(sequence, (sequence + 1) as u64) == 0,
{
}

/// A detector that has seen no message.
pub open spec fn spec_new_detector() -> GapDetectorModel {
    GapDetectorModel { last_sequence: 0, last_gap_size: 0, gap_detected: false, ready: false, last_epoch: 0 }
}

/// State after a reset: no message seen, the epoch kept.
pub open spec fn spec_reset_detector(m: GapDetectorModel) -> GapDetectorModel {
    GapDetectorModel { last_sequence: 0, last_gap_size: 0, gap_detected: false, ready: false, ..m }
}

/// State after continuing from a known sequence.
pub open spec fn spec_reset_at_sequence(m: GapDetectorModel, sequence: u64) -> GapDetectorModel {
    GapDetectorModel { last_sequence: sequence, last_gap_size: 0, gap_detected: false, ready: true, ..m }
}

/// State after recording an epoch.
pub open spec fn spec_set_epoch(m: GapDetectorModel, epoch: u64) -> GapDetectorModel {
    GapDetectorModel { last_epoch: epoch, ..m }
}

/// The gap flag always agrees with the last gap size: it holds for a new detector and
/// is kept by every check, epoch update and reset.
pub proof fn lemma_gap_flag_matches_size(m: GapDetectorModel, sequence: u64, epoch: u64)
    requires
        gap_flag_consistent(m),
    ensures
        gap_flag_consistent(spec_new_detector()),
        gap_flag_consistent(spec_after_check(m, sequence)),
        gap_flag_consistent(spec_set_epoch(m, epoch)),
        gap_flag_consistent(spec_reset_detector(m)),
        gap_flag_consistent(spec_reset_at_sequence(m, sequence)),
{
}

/// A detector is ready exactly when it has seen a message since it was created or
/// reset: a check always leaves it ready at the checked sequence, a new or reset
/// detector is not ready, a recovery at a known sequence makes it ready, and epoch
/// updates keep readiness.
pub proof fn lemma_ready_after_first_message(m: GapDetectorModel, sequence: u64, epoch: u64)
    ensures
        spec_after_check(m, sequence).ready,
        spec_after_check(m, sequence).last_sequence == sequence,
        !m.ready ==> spec_after_check(m, sequence).last_gap_size == 0,
        !spec_new_detector().ready,
        !spec_reset_detector(m).ready,
        spec_reset_at_sequence(m, sequence).ready,
        spec_set_epoch(m, epoch).ready == m.ready,
{
}

} // verus!

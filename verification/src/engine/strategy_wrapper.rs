//! Lifecycle of a strategy, kept by the engine around the strategy itself:
//!
//! ```text
//! INITIALIZING → start() → ACTIVE ↔ pause/resume ↔ PAUSED
//!                            ↓                         ↓
//!                         stop()                    stop()
//!                            ↓                         ↓
//!                         STOPPED (terminal)
//! ```
//!
//! Signals are only asked of the strategy while it is active.
use vstd::prelude::*;
use crate::core_types::{Position, Signal};
use crate::engine::generic::Strategy;
use crate::orderbook::l2_book::L2OrderBook;

verus! {

/// Lifecycle state of a wrapped strategy.
#[derive(Clone, Copy, PartialEq, Eq, Structural, Debug)]
pub enum StrategyState {
    Initializing,
    Active,
    Paused,
    Stopped,
}

/// State after `start`: an initializing strategy becomes active; any other state stays.
pub open spec fn spec_start(s: StrategyState) -> StrategyState {
    if s == StrategyState::Initializing { StrategyState::Active } else { s }
}

/// State after `pause`: an active strategy is paused; any other state stays.
pub open spec fn spec_pause(s: StrategyState) -> StrategyState {
    if s == StrategyState::Active { StrategyState::Paused } else { s }
}

/// State after `resume`: a paused strategy is active again; any other state stays.
pub open spec fn spec_resume(s: StrategyState) -> StrategyState {
    if s == StrategyState::Paused { StrategyState::Active } else { s }
}

/// Wrapper adding the lifecycle to any strategy.
pub struct StrategyWrapper<S: Strategy> {
    strategy: S,
    lifecycle: StrategyState,
}

impl<S: Strategy> View for StrategyWrapper<S> {
    type V = StrategyState;

    closed spec fn view(&self) -> StrategyState {
        self.lifecycle
    }
}

impl<S: Strategy> StrategyWrapper<S> {
    /// Wraps a strategy, initializing.
    pub fn new(strategy: S) -> (w: Self)
        ensures
            w@ == StrategyState::Initializing,
            w.inner() == strategy,
    {
        StrategyWrapper { strategy, lifecycle: StrategyState::Initializing }
    }

    /// The wrapped strategy.
    pub closed spec fn inner(&self) -> S {
        self.strategy
    }

    /// Initializing → Active; no effect in any other state.
    pub fn start(&mut self)
        ensures
            final(self)@ == spec_start(old(self)@),
            final(self).inner() == old(self).inner(),
    {
        if self.lifecycle == StrategyState::Initializing {
            self.lifecycle = StrategyState::Active;
        }
    }

    /// Active → Paused; no effect in any other state.
    pub fn pause(&mut self)
        ensures
            final(self)@ == spec_pause(old(self)@),
            final(self).inner() == old(self).inner(),
    {
        if self.lifecycle == StrategyState::Active {
            self.lifecycle = StrategyState::Paused;
        }
    }

    /// Paused → Active; no effect in any other state.
    pub fn resume(&mut self)
        ensures
            final(self)@ == spec_resume(old(self)@),
            final(self).inner() == old(self).inner(),
    {
        if self.lifecycle == StrategyState::Paused {
            self.lifecycle = StrategyState::Active;
        }
    }

    /// Any state → Stopped.
    pub fn stop(&mut self)
        ensures
            final(self)@ == StrategyState::Stopped,
            final(self).inner() == old(self).inner(),
    {
        self.lifecycle = StrategyState::Stopped;
    }

    /// The strategy's signal while active; `None` in every other state, where the
    /// strategy is not consulted.
    pub fn calculate(&mut self, book: &L2OrderBook, position: &Position) -> (r: Option<Signal>)
        ensures
            final(self)@ == old(self)@,
            old(self)@ != StrategyState::Active ==> r is None && final(self).inner() == old(self).inner(),
            S::logs_answers() && old(self)@ == StrategyState::Active ==> final(self).inner().answers() == old(self).inner().answers().push(r),
    {
        match self.lifecycle {
            StrategyState::Active => self.strategy.calculate(book, position),
            _ => None,
        }
    }

    /// Whether the strategy is active.
    pub fn is_operational(&self) -> (r: bool)
        ensures
            r == (self@ == StrategyState::Active),
    {
        self.lifecycle == StrategyState::Active
    }

    /// Current lifecycle state.
    pub fn state(&self) -> (r: StrategyState)
        ensures
            r == self@,
    {
        self.lifecycle
    }

    /// Name of the wrapped strategy.
    pub fn name(&self) -> &'static str {
        self.strategy.name()
    }

    /// Resets the wrapped strategy's own state; the lifecycle is unchanged.
    pub fn reset(&mut self)
        ensures
            final(self)@ == old(self)@,
    {
        self.strategy.reset();
    }
}

/// A stopped strategy stays stopped whatever lifecycle call comes next.
pub proof fn lemma_stopped_is_terminal()
    ensures
        spec_start(StrategyState::Stopped) == StrategyState::Stopped,
        spec_pause(StrategyState::Stopped) == StrategyState::Stopped,
        spec_resume(StrategyState::Stopped) == StrategyState::Stopped,
{
}

/// Pausing and then resuming an active strategy leaves it active.
pub proof fn lemma_pause_resume_round_trip(s: StrategyState)
    requires
        s == StrategyState::Active,
    ensures
        spec_resume(spec_pause(s)) == s,
{
}

/// A strategy that was never started is never consulted, whatever pauses and resumes
/// it receives: neither `pause` nor `resume` makes an initializing strategy active.
pub proof fn lemma_only_start_activates(s: StrategyState)
    requires
        s == StrategyState::Initializing,
    ensures
        spec_pause(s) == StrategyState::Initializing,
        spec_resume(s) == StrategyState::Initializing,
{
}

} // verus!

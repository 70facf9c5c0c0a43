//! Emergency kill switch: running, paused, shutting down or emergency-stopped.
//!
//! The state machine lives here; sharing it between threads and installing signal
//! handlers is left to the application.
use vstd::prelude::*;
use vstd::string::StringExecFns;
use crate::clock::system_time_now;

verus! {

/// Kill switch state.
#[derive(Clone, Copy, PartialEq, Eq, Structural, Debug)]
pub enum KillSwitchState {
    /// Normal operation.
    Running,
    /// Paused; can resume.
    Paused,
    /// Shutting down gracefully.
    ShuttingDown,
    /// Immediate stop.
    EmergencyStop,
}

/// Kill switch for graceful shutdown, emergency stop and pausing.
pub struct KillSwitch {
    state: KillSwitchState,
    shutdown_reason: Option<String>,
    shutdown_time: Option<std::time::SystemTime>,
}

/// Abstract state of a [`KillSwitch`]: its state and the recorded shutdown reason.
pub struct KillSwitchModel {
    pub state: KillSwitchState,
    pub reason: Option<Seq<char>>,
    pub has_shutdown_time: bool,
}

impl View for KillSwitch {
    type V = KillSwitchModel;

    closed spec fn view(&self) -> KillSwitchModel {
        KillSwitchModel {
            state: self.state,
            reason: match self.shutdown_reason {
                Some(r) => Some(r@),
                None => None,
            },
            has_shutdown_time: self.shutdown_time is Some,
        }
    }
}

impl KillSwitch {
    /// A kill switch in the running state, with no shutdown recorded.
    pub fn new() -> (k: Self)
        ensures
            k@ == (KillSwitchModel { state: KillSwitchState::Running, reason: None, has_shutdown_time: false }),
    {
        KillSwitch { state: KillSwitchState::Running, shutdown_reason: None, shutdown_time: None }
    }

    /// Whether the bot should stop: shutting down or emergency-stopped.
    pub fn should_stop(&self) -> (r: bool)
        ensures
            r == (self@.state == KillSwitchState::ShuttingDown || self@.state == KillSwitchState::EmergencyStop),
    {
        matches!(self.state, KillSwitchState::ShuttingDown | KillSwitchState::EmergencyStop)
    }

    /// Whether trading is paused.
    pub fn is_paused(&self) -> (r: bool)
        ensures
            r == (self@.state == KillSwitchState::Paused),
    {
        matches!(self.state, KillSwitchState::Paused)
    }

    /// Whether trading is running.
    pub fn is_running(&self) -> (r: bool)
        ensures
            r == (self@.state == KillSwitchState::Running),
    {
        matches!(self.state, KillSwitchState::Running)
    }

    /// Start a graceful shutdown, recording the reason and the time.
    pub fn shutdown(&mut self, reason: &str)
        ensures
            final(self)@ == (KillSwitchModel {
                state: KillSwitchState::ShuttingDown,
                reason: Some(reason@),
                has_shutdown_time: true,
            }),
    {
        self.state = KillSwitchState::ShuttingDown;
        self.shutdown_reason = Some(String::from_str(reason));
        self.shutdown_time = Some(system_time_now());
    }

    /// Stop immediately, recording `"EMERGENCY: " + reason` and the time.
    pub fn emergency_stop(&mut self, reason: &str)
        ensures
            final(self)@ == (KillSwitchModel {
                state: KillSwitchState::EmergencyStop,
                reason: Some("EMERGENCY: "@ + reason@),
                has_shutdown_time: true,
            }),
    {
        self.state = KillSwitchState::EmergencyStop;
        let mut msg = String::from_str("EMERGENCY: ");
        msg.append(reason);
        self.shutdown_reason = Some(msg);
        self.shutdown_time = Some(system_time_now());
    }

    /// Pause trading; only a running switch pauses.
    pub fn pause(&mut self)
        ensures
            final(self)@ == (if old(self)@.state == KillSwitchState::Running {
                KillSwitchModel { state: KillSwitchState::Paused, ..old(self)@ }
            } else {
                old(self)@
            }),
    {
        if matches!(self.state, KillSwitchState::Running) {
            self.state = KillSwitchState::Paused;
        }
    }

    /// Resume trading; only a paused switch resumes.
    pub fn resume(&mut self)
        ensures
            final(self)@ == (if old(self)@.state == KillSwitchState::Paused {
                KillSwitchModel { state: KillSwitchState::Running, ..old(self)@ }
            } else {
                old(self)@
            }),
    {
        if matches!(self.state, KillSwitchState::Paused) {
            self.state = KillSwitchState::Running;
        }
    }

    /// Toggle between running and paused; a stopped switch is unaffected.
    pub fn toggle_pause(&mut self)
        ensures
            old(self)@.state == KillSwitchState::Paused ==> final(self)@ == (KillSwitchModel { state: KillSwitchState::Running, ..old(self)@ }),
            old(self)@.state == KillSwitchState::Running ==> final(self)@ == (KillSwitchModel { state: KillSwitchState::Paused, ..old(self)@ }),
            old(self)@.state != KillSwitchState::Running && old(self)@.state != KillSwitchState::Paused ==> final(self)@ == old(self)@,
    {
        if self.is_paused() {
            self.resume();
        } else if self.is_running() {
            self.pause();
        }
    }

    /// Current state.
    pub fn state(&self) -> (r: KillSwitchState)
        ensures
            r == self@.state,
    {
        self.state
    }

    /// Recorded shutdown reason, if a shutdown was initiated.
    pub fn shutdown_reason(&self) -> (r: Option<String>)
        ensures
            r is None <==> self@.reason is None,
            r matches Some(s) ==> self@.reason == Some(s@),
    {
        match &self.shutdown_reason {
            Some(s) => Some(s.clone()),
            None => None,
        }
    }

    /// Time the shutdown was initiated, if any.
    pub fn shutdown_time(&self) -> (r: Option<std::time::SystemTime>)
        ensures
            r is Some <==> self@.has_shutdown_time,
    {
        self.shutdown_time
    }
}

/// Once stopping, the switch stays stopped: pausing, resuming and toggling do not
/// bring it back to running.
pub proof fn lemma_stop_is_final(m: KillSwitchModel)
    requires
        m.state == KillSwitchState::ShuttingDown || m.state == KillSwitchState::EmergencyStop,
    ensures
        (if m.state == KillSwitchState::Running { KillSwitchModel { state: KillSwitchState::Paused, ..m } } else { m }) == m,
        (if m.state == KillSwitchState::Paused { KillSwitchModel { state: KillSwitchState::Running, ..m } } else { m }) == m,
{
}

} // verus!

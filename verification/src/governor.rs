//! The failure governor: a consecutive-failure counter shared across both
//! delivery sinks.
//!
//! Every tick delivers one signal to two independent sinks — the
//! persistence store and the HTTP forwarding endpoint. A tick on which
//! both deliveries succeed resets the counter to zero; a tick with at
//! least one failure increments it. When the counter reaches the fixed
//! threshold the governor trips to `Stopped`, which is terminal: the loop
//! driver must cease ticking and surface a fatal error instead of
//! retrying without bound.

use vstd::prelude::*;

verus! {

/// The governor's two states. `Stopped` is terminal.
#[derive(Clone, Copy, Debug, PartialEq, Eq, Structural)]
pub enum GovernorState {
    Running,
    Stopped,
}

/// Consecutive-failure counter with a fixed trip threshold.
#[derive(Clone, Copy, Debug, PartialEq, Eq, Structural)]
pub struct FailureGovernor {
    /// Number of back-to-back failed ticks that trips the governor.
    pub threshold: u32,
    /// Failed ticks since the last fully successful one.
    pub consecutive_failures: u32,
    pub state: GovernorState,
}

impl FailureGovernor {
    /// Well-formedness: the counter never passes the threshold, and the
    /// governor stands in `Stopped` exactly when the counter has reached
    /// it.
    pub open spec fn wf(&self) -> bool {
        &&& 1 <= self.threshold
        &&& self.consecutive_failures <= self.threshold
        &&& (self.state == GovernorState::Stopped <==> self.consecutive_failures
            == self.threshold)
    }

    /// A fresh governor: counter at zero, running.
    pub fn new(threshold: u32) -> (g: Self)
        requires
            1 <= threshold,
        ensures
            g.wf(),
            g.threshold == threshold,
            g.consecutive_failures == 0,
            g.state == GovernorState::Running,
    {
        FailureGovernor { threshold, consecutive_failures: 0, state: GovernorState::Running }
    }

    /// Record one tick's two delivery outcomes. If and only if both sinks
    /// succeeded, the counter resets to zero; otherwise it increments, and
    /// the governor trips to `Stopped` exactly when the incremented
    /// counter reaches the threshold.
    pub fn record_tick(&mut self, persist_ok: bool, forward_ok: bool)
        requires
            old(self).wf(),
            old(self).state == GovernorState::Running,
        ensures
            final(self).wf(),
            final(self).threshold == old(self).threshold,
            persist_ok && forward_ok ==> final(self).consecutive_failures == 0,
            !(persist_ok && forward_ok) ==> final(self).consecutive_failures == old(
                self,
            ).consecutive_failures + 1,
            final(self).state == GovernorState::Stopped <==> !(persist_ok && forward_ok) && old(
                self,
            ).consecutive_failures + 1 == old(self).threshold,
    {
        if persist_ok && forward_ok {
            self.consecutive_failures = 0;
        } else {
            self.consecutive_failures = self.consecutive_failures + 1;
            if self.consecutive_failures == self.threshold {
                self.state = GovernorState::Stopped;
            }
        }
    }

    /// Whether the governor has tripped.
    pub fn has_tripped(&self) -> (tripped: bool)
        ensures
            tripped <==> self.state == GovernorState::Stopped,
    {
        match self.state {
            GovernorState::Stopped => true,
            GovernorState::Running => false,
        }
    }
}

} // verus!

//! The loop driver's decision state.
//!
//! One long-lived background task runs the signal loop: gate on
//! downstream readiness, then per tick generate a signal, deliver it to
//! the two sinks, feed both outcomes to the failure governor, sleep a
//! tiered delay, and honor an external stop request between ticks. The
//! driver here owns the failure governor and the liveness flag's value
//! and makes every one of those decisions; the embedding process performs
//! the I/O, mirrors the liveness value into its shared flag, and obeys
//! the verdicts.
//!
//! Two choices this driver fixes, rather than leaving implicit: both
//! sinks are attempted on every tick — a persistence failure never
//! suppresses the forward attempt — and the order within a tick is
//! persist, then forward. Readiness-gate exhaustion is a configured
//! policy, not a guess: under [`GatePolicy::FailFast`] the worker aborts
//! without a single tick, under [`GatePolicy::Degrade`] it proceeds and
//! accepts that early ticks may fail delivery.

use crate::gate::GateOutcome;
use crate::governor::{FailureGovernor, GovernorState};
use vstd::prelude::*;

verus! {

/// What to do when the readiness gate exhausts its attempts.
#[derive(Clone, Copy, Debug, PartialEq, Eq, Structural)]
pub enum GatePolicy {
    /// Abort the worker before its first tick.
    FailFast,
    /// Log and proceed anyway, accepting early delivery failures.
    Degrade,
}

/// The driver's answer after one tick's outcomes are recorded.
#[derive(Clone, Copy, Debug, PartialEq, Eq, Structural)]
pub enum TickVerdict {
    /// Keep ticking.
    Continue,
    /// The failure governor tripped: cease ticking and surface a fatal
    /// error; the loop never restarts itself.
    GovernorTripped,
}

/// Why the loop stopped ticking.
#[derive(Clone, Copy, Debug, PartialEq, Eq, Structural)]
pub enum StopCause {
    /// The readiness gate exhausted under the fail-fast policy.
    GateExhausted,
    /// The failure governor tripped.
    GovernorTripped,
    /// An external stop request was honored between ticks.
    StopRequested,
}

/// The decision state of the signal loop.
#[derive(Clone, Copy, Debug, PartialEq, Eq, Structural)]
pub struct SignalLoop {
    pub governor: FailureGovernor,
    pub policy: GatePolicy,
    /// The liveness flag's value: true exactly while the loop is
    /// actively ticking. The embedding process mirrors it into a shared
    /// atomic for concurrent readers.
    pub running: bool,
    /// Why ticking ended, once it has.
    pub stop_cause: Option<StopCause>,
}

impl SignalLoop {
    /// Well-formedness: the governor is sound, the loop never runs once
    /// a stop cause is settled, and a tripped governor never stands
    /// behind a still-running loop.
    pub open spec fn wf(&self) -> bool {
        &&& self.governor.wf()
        &&& (self.running ==> self.stop_cause is None)
        &&& (self.running ==> self.governor.state == GovernorState::Running)
    }

    /// A fresh driver: not yet running, governor counter at zero.
    pub fn new(threshold: u32, policy: GatePolicy) -> (s: Self)
        requires
            1 <= threshold,
        ensures
            s.wf(),
            s.governor.threshold == threshold,
            s.governor.consecutive_failures == 0,
            s.policy == policy,
            !s.running,
            s.stop_cause is None,
    {
        SignalLoop {
            governor: FailureGovernor::new(threshold),
            policy,
            running: false,
            stop_cause: None,
        }
    }

    /// Apply the readiness gate's outcome, exactly once, before the first
    /// tick. The loop starts — and the liveness flag goes up — when the
    /// gate reports ready, or on exhaustion under the degrade policy; it
    /// stays down, with exhaustion recorded as the stop cause, on
    /// exhaustion under fail-fast.
    pub fn apply_gate_outcome(&mut self, outcome: GateOutcome) -> (started: bool)
        requires
            old(self).wf(),
            !old(self).running,
            old(self).stop_cause is None,
            old(self).governor.state == GovernorState::Running,
        ensures
            final(self).wf(),
            final(self).governor == old(self).governor,
            final(self).policy == old(self).policy,
            started == final(self).running,
            outcome == GateOutcome::Ready ==> started,
            outcome == GateOutcome::Exhausted && old(self).policy == GatePolicy::Degrade
                ==> started,
            outcome == GateOutcome::Exhausted && old(self).policy == GatePolicy::FailFast
                ==> !started
                && final(self).stop_cause == Some(StopCause::GateExhausted),
            started ==> final(self).stop_cause is None,
    {
        match outcome {
            GateOutcome::Ready => {
                self.running = true;
                true
            },
            GateOutcome::Exhausted => {
                match self.policy {
                    GatePolicy::Degrade => {
                        self.running = true;
                        true
                    },
                    GatePolicy::FailFast => {
                        self.stop_cause = Some(StopCause::GateExhausted);
                        false
                    },
                }
            },
        }
    }

    /// Record one completed tick's two delivery outcomes. The governor
    /// counts them; if it trips, the loop halts at once — the liveness
    /// flag goes down and no further tick may start — and the verdict
    /// says so.
    pub fn complete_tick(&mut self, persist_ok: bool, forward_ok: bool) -> (v: TickVerdict)
        requires
            old(self).wf(),
            old(self).running,
        ensures
            final(self).wf(),
            final(self).policy == old(self).policy,
            final(self).governor.threshold == old(self).governor.threshold,
            persist_ok && forward_ok ==> final(self).governor.consecutive_failures == 0,
            !(persist_ok && forward_ok) ==> final(self).governor.consecutive_failures == old(
                self,
            ).governor.consecutive_failures + 1,
            v == TickVerdict::GovernorTripped <==> !(persist_ok && forward_ok) && old(
                self,
            ).governor.consecutive_failures + 1 == old(self).governor.threshold,
            v == TickVerdict::Continue ==> final(self).running && final(self).stop_cause is None,
            v == TickVerdict::GovernorTripped ==> !final(self).running && final(self).stop_cause
                == Some(StopCause::GovernorTripped),
    {
        self.governor.record_tick(persist_ok, forward_ok);
        if self.governor.has_tripped() {
            self.running = false;
            self.stop_cause = Some(StopCause::GovernorTripped);
            TickVerdict::GovernorTripped
        } else {
            TickVerdict::Continue
        }
    }

    /// Honor an external stop request at a safe point, between ticks:
    /// the loop halts and the liveness flag goes down.
    pub fn observe_stop(&mut self)
        requires
            old(self).wf(),
            old(self).running,
        ensures
            final(self).wf(),
            final(self).governor == old(self).governor,
            final(self).policy == old(self).policy,
            !final(self).running,
            final(self).stop_cause == Some(StopCause::StopRequested),
    {
        self.running = false;
        self.stop_cause = Some(StopCause::StopRequested);
    }

    /// The liveness flag's value: whether the loop is actively ticking.
    pub fn is_running(&self) -> (r: bool)
        ensures
            r == self.running,
    {
        self.running
    }
}

} // verus!

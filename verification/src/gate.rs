//! The readiness gate: a bounded-retry probe of the downstream consumer.
//!
//! Before its first tick — and only then — the loop probes the consumer's
//! health endpoint. A successful probe opens the way at once; each failed
//! probe costs one attempt and a wait of the retry delay before the next,
//! except the last allowed attempt, whose failure exhausts the allowance
//! immediately. The embedding process performs the probes and sleeps; the
//! gate decides.

use vstd::pervasive::unreached;
use vstd::prelude::*;

verus! {

/// How a finished gate ended.
#[derive(Clone, Copy, Debug, PartialEq, Eq, Structural)]
pub enum GateOutcome {
    /// A probe succeeded within the allowed attempts.
    Ready,
    /// All allowed attempts failed.
    Exhausted,
}

/// The readiness gate's retry state. Drive it by recording one probe outcome at a
/// time until `outcome` is set.
#[derive(Clone, Copy, Debug, PartialEq, Eq, Structural)]
pub struct ReadinessGate {
    /// Most probes that will be consumed.
    pub max_attempts: u32,
    /// Wait between a failed probe and the next attempt, in milliseconds.
    pub retry_delay_ms: u32,
    /// Failed probes so far.
    pub failed_attempts: u32,
    /// `None` while another probe is still awaited.
    pub outcome: Option<GateOutcome>,
}

impl ReadinessGate {
    /// Well-formedness: failures never pass the allowance; exhaustion
    /// means the whole allowance was used, and an unsettled outcome means
    /// some allowance is left.
    pub open spec fn wf(&self) -> bool {
        &&& 1 <= self.max_attempts
        &&& self.failed_attempts <= self.max_attempts
        &&& (self.outcome == Some(GateOutcome::Exhausted) ==> self.failed_attempts
            == self.max_attempts)
        &&& (self.outcome is None ==> self.failed_attempts < self.max_attempts)
    }

    /// A fresh gate with the full attempt allowance.
    pub fn new(max_attempts: u32, retry_delay_ms: u32) -> (g: Self)
        requires
            1 <= max_attempts,
        ensures
            g.wf(),
            g.max_attempts == max_attempts,
            g.retry_delay_ms == retry_delay_ms,
            g.failed_attempts == 0,
            g.outcome is None,
    {
        ReadinessGate { max_attempts, retry_delay_ms, failed_attempts: 0, outcome: None }
    }

    /// Record one probe's outcome. A success settles on `Ready`
    /// at once. A failure consumes one attempt; if allowance remains the
    /// result says how long to wait before the next probe, and if not the
    /// gate settles on `Exhausted` with no further wait.
    pub fn record_attempt(&mut self, probe_ok: bool) -> (wait_ms: Option<u32>)
        requires
            old(self).wf(),
            old(self).outcome is None,
        ensures
            final(self).wf(),
            final(self).max_attempts == old(self).max_attempts,
            final(self).retry_delay_ms == old(self).retry_delay_ms,
            probe_ok ==> final(self).outcome == Some(GateOutcome::Ready)
                && final(self).failed_attempts == old(self).failed_attempts
                && wait_ms is None,
            !probe_ok ==> final(self).failed_attempts == old(self).failed_attempts + 1,
            !probe_ok && old(self).failed_attempts + 1 < old(self).max_attempts
                ==> final(self).outcome is None
                && wait_ms == Some(old(self).retry_delay_ms),
            !probe_ok && old(self).failed_attempts + 1 == old(self).max_attempts
                ==> final(self).outcome == Some(GateOutcome::Exhausted)
                && wait_ms is None,
    {
        if probe_ok {
            self.outcome = Some(GateOutcome::Ready);
            None
        } else {
            self.failed_attempts = self.failed_attempts + 1;
            if self.failed_attempts == self.max_attempts {
                self.outcome = Some(GateOutcome::Exhausted);
                None
            } else {
                Some(self.retry_delay_ms)
            }
        }
    }
}

/// How many probes a gate with allowance `max` consumes from the outcome
/// run `probes`: every failure up to and including the first success, and
/// at most `max`.
pub open spec fn spec_gate_attempts(probes: Seq<bool>, max: nat) -> nat
    decreases probes.len(),
{
    if max == 0 || probes.len() == 0 {
        0
    } else if probes.first() {
        1
    } else {
        1 + spec_gate_attempts(probes.drop_first(), (max - 1) as nat)
    }
}

/// Whether a gate with allowance `max` opens on the outcome run `probes`:
/// some probe among the first `max` succeeds.
pub open spec fn spec_gate_ready(probes: Seq<bool>, max: nat) -> bool
    decreases probes.len(),
{
    if max == 0 || probes.len() == 0 {
        false
    } else if probes.first() {
        true
    } else {
        spec_gate_ready(probes.drop_first(), (max - 1) as nat)
    }
}

/// How many retry waits a readiness gate performs on the outcome run `probes`:
/// one per failure that still leaves allowance, none after a success or
/// on exhaustion.
pub open spec fn spec_gate_waits(probes: Seq<bool>, max: nat) -> nat
    decreases probes.len(),
{
    if max <= 1 || probes.len() == 0 {
        0
    } else if probes.first() {
        0
    } else {
        1 + spec_gate_waits(probes.drop_first(), (max - 1) as nat)
    }
}

/// Law: when the probe fails exactly `n - 1` times and then succeeds,
/// with `n` within the allowance, readiness is reached after exactly `n`
/// attempts and performs exactly `n - 1` retry waits.
pub proof fn lemma_gate_ready_after_n(probes: Seq<bool>, max: nat, n: nat)
    requires
        1 <= n <= max,
        n <= probes.len(),
        forall|i: int| 0 <= i < n - 1 ==> !probes[i],
        probes[n - 1],
    ensures
        spec_gate_ready(probes, max),
        spec_gate_attempts(probes, max) == n,
        spec_gate_waits(probes, max) == n - 1,
    decreases n,
{
    if n == 1 {
        assert(probes.first());
    } else {
        assert(!probes.first());
        let rest = probes.drop_first();
        assert forall|i: int| 0 <= i < n - 2 implies !rest[i] by {
            assert(rest[i] == probes[i + 1]);
        }
        assert(rest[n - 2] == probes[n - 1]);
        lemma_gate_ready_after_n(rest, (max - 1) as nat, (n - 1) as nat);
    }
}

/// Law: when every allowed probe fails, exhaustion comes after exactly
/// `max` attempts — it never consumes a `max + 1`-th probe — and performs
/// `max - 1` retry waits.
pub proof fn lemma_gate_exhausted(probes: Seq<bool>, max: nat)
    requires
        1 <= max,
        max <= probes.len(),
        forall|i: int| 0 <= i < max ==> !probes[i],
    ensures
        !spec_gate_ready(probes, max),
        spec_gate_attempts(probes, max) == max,
        spec_gate_waits(probes, max) == max - 1,
    decreases max,
{
    assert(!probes.first());
    if max > 1 {
        let rest = probes.drop_first();
        assert forall|i: int| 0 <= i < max - 1 implies !rest[i] by {
            assert(rest[i] == probes[i + 1]);
        }
        lemma_gate_exhausted(rest, (max - 1) as nat);
    } else {
        assert(spec_gate_attempts(probes.drop_first(), 0) == 0);
        assert(!spec_gate_ready(probes.drop_first(), 0));
    }
}

/// The summary of one finished gate run.
#[derive(Clone, Copy, Debug, PartialEq, Eq, Structural)]
pub struct GateRun {
    /// Probes consumed.
    pub attempts: u32,
    pub outcome: GateOutcome,
    /// Milliseconds of retry waiting the run asked for in total.
    pub total_wait_ms: u64,
}

/// Run a whole gate over a prerecorded run of probe outcomes, of which at
/// least the allowance must be present so that the run always settles.
/// The result matches the specification fold: the outcome, the number of
/// probes consumed, and the total retry wait.
pub fn wait_until_ready(probes: &Vec<bool>, max_attempts: u32, retry_delay_ms: u32) -> (r: GateRun)
    requires
        1 <= max_attempts,
        max_attempts <= probes@.len(),
    ensures
        (r.outcome == GateOutcome::Ready) == spec_gate_ready(probes@, max_attempts as nat),
        r.attempts as nat == spec_gate_attempts(probes@, max_attempts as nat),
        r.total_wait_ms as nat == spec_gate_waits(probes@, max_attempts as nat) * (
        retry_delay_ms as nat),
{
    let mut gate = ReadinessGate::new(max_attempts, retry_delay_ms);
    let mut i: u32 = 0;
    let mut total_wait: u64 = 0;
    while i < max_attempts
        invariant
            gate.wf(),
            gate.max_attempts == max_attempts,
            gate.retry_delay_ms == retry_delay_ms,
            gate.outcome is None,
            gate.failed_attempts == i,
            i < max_attempts <= probes@.len(),
            forall|k: int| 0 <= k < i ==> !probes@[k],
            total_wait == i as int * retry_delay_ms as int,
        decreases max_attempts - i,
    {
        let ok = probes[i as usize];
        let wait = gate.record_attempt(ok);
        if ok {
            proof {
                lemma_gate_ready_after_n(probes@, max_attempts as nat, (i + 1) as nat);
            }
            return GateRun {
                attempts: i + 1,
                outcome: GateOutcome::Ready,
                total_wait_ms: total_wait,
            };
        }
        if i + 1 == max_attempts {
            proof {
                lemma_gate_exhausted(probes@, max_attempts as nat);
            }
            return GateRun {
                attempts: max_attempts,
                outcome: GateOutcome::Exhausted,
                total_wait_ms: total_wait,
            };
        }
        let w = match wait {
            Some(w) => w,
            None => 0,
        };
        proof {
            assert(total_wait + w == (i + 1) as int * retry_delay_ms as int) by (nonlinear_arith)
                requires
                    total_wait == i as int * retry_delay_ms as int,
                    w == retry_delay_ms,
            ;
            assert((i + 1) as int * retry_delay_ms as int <= u32::MAX as int * u32::MAX as int)
                by (nonlinear_arith)
                requires
                    0 <= i + 1 <= u32::MAX,
                    0 <= retry_delay_ms <= u32::MAX,
            ;
        }
        total_wait = total_wait + w as u64;
        i = i + 1;
    }
    unreached()
}

} // verus!

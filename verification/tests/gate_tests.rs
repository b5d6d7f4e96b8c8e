use signal_source::gate::{wait_until_ready, GateOutcome, ReadinessGate};

#[test]
fn gate_opens_after_exactly_n_attempts() {
    // Two failures, then a success, within an allowance of five: three
    // attempts, two retry waits.
    let probes = vec![false, false, true, false, false];
    let run = wait_until_ready(&probes, 5, 100);
    assert_eq!(run.outcome, GateOutcome::Ready);
    assert_eq!(run.attempts, 3);
    assert_eq!(run.total_wait_ms, 200);
}

#[test]
fn gate_opens_at_once_on_immediate_success() {
    let probes = vec![true, false, false];
    let run = wait_until_ready(&probes, 3, 2000);
    assert_eq!(run.outcome, GateOutcome::Ready);
    assert_eq!(run.attempts, 1);
    assert_eq!(run.total_wait_ms, 0);
}

#[test]
fn gate_exhausts_after_max_attempts_and_probes_no_further() {
    // The run offers more outcomes than the allowance; exactly the
    // allowance may be consumed.
    let probes = vec![false, false, false, true, true];
    let run = wait_until_ready(&probes, 3, 2000);
    assert_eq!(run.outcome, GateOutcome::Exhausted);
    assert_eq!(run.attempts, 3);
    assert_eq!(run.total_wait_ms, 4000);
}

#[test]
fn gate_success_on_last_allowed_attempt() {
    let probes = vec![false, false, false, false, true];
    let run = wait_until_ready(&probes, 5, 10);
    assert_eq!(run.outcome, GateOutcome::Ready);
    assert_eq!(run.attempts, 5);
    assert_eq!(run.total_wait_ms, 40);
}

#[test]
fn gate_step_api_reports_waits_and_outcome() {
    let mut gate = ReadinessGate::new(3, 2000);
    assert_eq!(gate.outcome, None);

    let wait = gate.record_attempt(false);
    assert_eq!(wait, Some(2000));
    assert_eq!(gate.failed_attempts, 1);
    assert_eq!(gate.outcome, None);

    let wait = gate.record_attempt(true);
    assert_eq!(wait, None);
    assert_eq!(gate.outcome, Some(GateOutcome::Ready));
}

#[test]
fn gate_step_api_exhausts_without_a_final_wait() {
    let mut gate = ReadinessGate::new(2, 500);
    assert_eq!(gate.record_attempt(false), Some(500));
    assert_eq!(gate.record_attempt(false), None);
    assert_eq!(gate.outcome, Some(GateOutcome::Exhausted));
    assert_eq!(gate.failed_attempts, 2);
}

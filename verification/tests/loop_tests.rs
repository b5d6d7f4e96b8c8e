use signal_source::gate::GateOutcome;
use signal_source::governor::{FailureGovernor, GovernorState};
use signal_source::signal_loop::{GatePolicy, SignalLoop, StopCause, TickVerdict};

#[test]
fn governor_counter_follows_the_expected_sequence() {
    // Outcomes fail, fail, success, fail, fail, fail, fail, fail with
    // threshold 5: counters 1, 2, 0, 1, 2, 3, 4, 5, tripping exactly at
    // the eighth tick.
    let ticks = [false, false, true, false, false, false, false, false];
    let expected_counters = [1, 2, 0, 1, 2, 3, 4, 5];
    let mut governor = FailureGovernor::new(5);
    for (i, (&ok, &expected)) in ticks.iter().zip(expected_counters.iter()).enumerate() {
        assert_eq!(governor.state, GovernorState::Running);
        governor.record_tick(ok, ok);
        assert_eq!(governor.consecutive_failures, expected);
        if i < 7 {
            assert!(!governor.has_tripped());
        } else {
            assert!(governor.has_tripped());
        }
    }
}

#[test]
fn governor_resets_only_when_both_sinks_succeed() {
    let mut governor = FailureGovernor::new(5);
    governor.record_tick(true, false);
    assert_eq!(governor.consecutive_failures, 1);
    governor.record_tick(false, true);
    assert_eq!(governor.consecutive_failures, 2);
    governor.record_tick(false, false);
    assert_eq!(governor.consecutive_failures, 3);
    governor.record_tick(true, true);
    assert_eq!(governor.consecutive_failures, 0);
    assert!(!governor.has_tripped());
}

#[test]
fn loop_trips_after_five_forward_failures_and_no_sixth_tick() {
    // Persistence succeeds every tick, forwarding fails every tick, with
    // threshold 5: the fifth tick trips the governor, the liveness flag
    // goes down, and the driver refuses further ticks.
    let mut driver = SignalLoop::new(5, GatePolicy::FailFast);
    assert!(driver.apply_gate_outcome(GateOutcome::Ready));
    assert!(driver.is_running());

    let mut ticks = 0;
    while driver.is_running() {
        let verdict = driver.complete_tick(true, false);
        ticks += 1;
        if ticks < 5 {
            assert_eq!(verdict, TickVerdict::Continue);
        } else {
            assert_eq!(verdict, TickVerdict::GovernorTripped);
        }
        assert!(ticks <= 5, "a sixth tick must never start");
    }
    assert_eq!(ticks, 5);
    assert!(!driver.is_running());
    assert_eq!(driver.stop_cause, Some(StopCause::GovernorTripped));
}

#[test]
fn exhausted_gate_under_fail_fast_never_ticks() {
    let mut driver = SignalLoop::new(5, GatePolicy::FailFast);
    let started = driver.apply_gate_outcome(GateOutcome::Exhausted);
    assert!(!started);
    assert!(!driver.is_running());
    assert_eq!(driver.stop_cause, Some(StopCause::GateExhausted));
}

#[test]
fn exhausted_gate_under_degrade_proceeds_to_tick() {
    let mut driver = SignalLoop::new(5, GatePolicy::Degrade);
    let started = driver.apply_gate_outcome(GateOutcome::Exhausted);
    assert!(started);
    assert!(driver.is_running());
    // The first tick proceeds regardless of the exhausted gate.
    let verdict = driver.complete_tick(true, true);
    assert_eq!(verdict, TickVerdict::Continue);
    assert!(driver.is_running());
}

#[test]
fn stop_request_is_honored_between_ticks() {
    let mut driver = SignalLoop::new(5, GatePolicy::FailFast);
    driver.apply_gate_outcome(GateOutcome::Ready);
    driver.complete_tick(true, true);
    assert!(driver.is_running());
    driver.observe_stop();
    assert!(!driver.is_running());
    assert_eq!(driver.stop_cause, Some(StopCause::StopRequested));
}

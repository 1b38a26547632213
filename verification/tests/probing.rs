use backend_supervisor::prober::ProbeObs;
use backend_supervisor::prober::ProbeOutcome;
use backend_supervisor::prober::ProbeStep;
use backend_supervisor::prober::probe_decide;
use backend_supervisor::prober::probe_run;
use backend_supervisor::shutdown::ShutdownOutcome;
use backend_supervisor::shutdown::ShutdownStep;
use backend_supervisor::shutdown::shutdown_decide;
use backend_supervisor::shutdown::shutdown_run;

fn obs(healthy: bool, child_running: bool, cancel_requested: bool) -> ProbeObs {
    ProbeObs { healthy, child_running, cancel_requested }
}

// Enough observations to cover a 5000 ms window polled every 250 ms.
fn window(f: impl Fn(usize) -> ProbeObs) -> Vec<ProbeObs> {
    (0..22).map(f).collect()
}

#[test]
fn probe_reports_ready_when_the_endpoint_opens_not_at_the_timeout() {
    // the health endpoint opens after 2 s; the timeout is 5 s
    let observations = window(|i| obs(i >= 8, true, false));
    let (outcome, elapsed) = probe_run(&observations, 5000, 250);
    assert_eq!(outcome, ProbeOutcome::Ready);
    assert_eq!(elapsed, 2000);
}

#[test]
fn probe_times_out_after_the_full_window() {
    let observations = window(|_| obs(false, true, false));
    let (outcome, elapsed) = probe_run(&observations, 5000, 250);
    assert_eq!(outcome, ProbeOutcome::Timeout);
    assert_eq!(elapsed, 5000);
    assert!(elapsed <= 5000 + 250);
}

#[test]
fn probe_detects_early_child_exit_promptly() {
    let observations = window(|i| obs(false, i < 3, false));
    let (outcome, elapsed) = probe_run(&observations, 5000, 250);
    assert_eq!(outcome, ProbeOutcome::ChildExited);
    assert_eq!(elapsed, 750);
}

#[test]
fn probe_aborts_within_one_interval_of_cancellation() {
    let observations = window(|i| obs(false, true, i >= 5));
    let (outcome, elapsed) = probe_run(&observations, 5000, 250);
    assert_eq!(outcome, ProbeOutcome::Cancelled);
    assert_eq!(elapsed, 1250);
}

#[test]
fn probe_decision_prefers_cancellation_then_exit_then_readiness() {
    assert_eq!(
        probe_decide(0, 5000, obs(true, true, true)),
        ProbeStep::Done(ProbeOutcome::Cancelled)
    );
    assert_eq!(
        probe_decide(0, 5000, obs(true, false, false)),
        ProbeStep::Done(ProbeOutcome::ChildExited)
    );
    assert_eq!(
        probe_decide(0, 5000, obs(true, true, false)),
        ProbeStep::Done(ProbeOutcome::Ready)
    );
    assert_eq!(probe_decide(0, 5000, obs(false, true, false)), ProbeStep::Continue);
    assert_eq!(
        probe_decide(5000, 5000, obs(false, true, false)),
        ProbeStep::Done(ProbeOutcome::Timeout)
    );
}

#[test]
fn shutdown_is_a_no_op_when_the_child_already_exited() {
    let running = vec![false, false, false, false, false, false];
    let (outcome, elapsed) = shutdown_run(&running, 1000, 250);
    assert_eq!(outcome, ShutdownOutcome::AlreadyExited);
    assert_eq!(elapsed, 0);
}

#[test]
fn shutdown_waits_for_voluntary_exit_within_the_grace_period() {
    let running = vec![true, true, true, false, false, false];
    let (outcome, elapsed) = shutdown_run(&running, 1000, 250);
    assert_eq!(outcome, ShutdownOutcome::Graceful);
    assert_eq!(elapsed, 750);
}

#[test]
fn shutdown_escalates_to_forced_termination_at_the_deadline() {
    let running = vec![true, true, true, true, true, true];
    let (outcome, elapsed) = shutdown_run(&running, 1000, 250);
    assert_eq!(outcome, ShutdownOutcome::Forced);
    assert_eq!(elapsed, 1000);
    assert!(elapsed <= 1000 + 250);
}

#[test]
fn shutdown_decision_checks_the_child_before_escalating() {
    assert_eq!(shutdown_decide(1000, 1000, false), ShutdownStep::Exited);
    assert_eq!(shutdown_decide(1000, 1000, true), ShutdownStep::Escalate);
    assert_eq!(shutdown_decide(750, 1000, true), ShutdownStep::Wait);
}

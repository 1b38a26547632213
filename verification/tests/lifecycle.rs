use backend_supervisor::config::LaunchSpec;
use backend_supervisor::launcher::LaunchError;
use backend_supervisor::launcher::classify_launch;
use backend_supervisor::launcher::resolve_path;
use backend_supervisor::monitor::HealthStatus;
use backend_supervisor::monitor::classify_health;
use backend_supervisor::monitor::is_stable;
use backend_supervisor::prober::ProbeOutcome;
use backend_supervisor::shutdown::ShutdownOutcome;
use backend_supervisor::supervisor::Action;
use backend_supervisor::supervisor::Event;
use backend_supervisor::supervisor::FailureReason;
use backend_supervisor::supervisor::StopKind;
use backend_supervisor::supervisor::Supervisor;
use backend_supervisor::supervisor::SupervisorState;

fn started(max_attempts: u32) -> Supervisor {
    let mut sup = Supervisor::new(max_attempts, 100, 1000);
    assert_eq!(sup.step(Event::StartRequested), Action::SpawnChild);
    assert_eq!(sup.step(Event::LaunchSucceeded), Action::BeginProbe);
    sup
}

fn ready(max_attempts: u32) -> Supervisor {
    let mut sup = started(max_attempts);
    assert_eq!(sup.step(Event::ProbeFinished(ProbeOutcome::Ready)), Action::Nothing);
    assert!(matches!(sup.state, SupervisorState::Ready));
    sup
}

#[test]
fn missing_executable_fails_without_creating_a_process() {
    assert_eq!(classify_launch(false, false), Err(LaunchError::ExecutableNotFound));
    assert_eq!(classify_launch(false, true), Err(LaunchError::ExecutableNotFound));

    let mut sup = Supervisor::new(3, 100, 1000);
    assert_eq!(sup.step(Event::StartRequested), Action::SpawnChild);
    assert_eq!(
        sup.step(Event::LaunchFailed(LaunchError::ExecutableNotFound)),
        Action::ReportFailure(FailureReason::ExecutableNotFound)
    );
    assert!(matches!(sup.state, SupervisorState::Stopped));
    assert_eq!(sup.outcome, Some(StopKind::Failed(FailureReason::ExecutableNotFound)));
    assert!(!sup.child_active);
}

#[test]
fn refused_spawn_surfaces_as_spawn_failed() {
    assert_eq!(classify_launch(true, false), Err(LaunchError::SpawnFailed));
    assert_eq!(classify_launch(true, true), Ok(()));

    let mut sup = Supervisor::new(3, 100, 1000);
    sup.step(Event::StartRequested);
    assert_eq!(
        sup.step(Event::LaunchFailed(LaunchError::SpawnFailed)),
        Action::ReportFailure(FailureReason::SpawnFailed)
    );
    assert_eq!(sup.outcome, Some(StopKind::Failed(FailureReason::SpawnFailed)));
}

#[test]
fn the_executable_is_resolved_against_the_anchor() {
    let path = resolve_path("/opt/shell", ".venv/bin/python");
    assert_eq!(path, "/opt/shell/.venv/bin/python");
}

#[test]
fn readiness_makes_the_supervisor_ready() {
    let sup = ready(3);
    assert!(sup.child_active);
    assert!(sup.outcome.is_none());
}

#[test]
fn three_consecutive_crashes_exhaust_the_budget() {
    let mut sup = started(3);
    // first crash: one attempt spent, two remain
    assert_eq!(
        sup.step(Event::ProbeFinished(ProbeOutcome::ChildExited)),
        Action::ScheduleRestart(100)
    );
    assert_eq!(sup.step(Event::RestartDelayElapsed), Action::SpawnChild);
    assert_eq!(sup.step(Event::LaunchSucceeded), Action::BeginProbe);
    // second crash: the backoff has doubled
    assert_eq!(
        sup.step(Event::ProbeFinished(ProbeOutcome::ChildExited)),
        Action::ScheduleRestart(200)
    );
    assert_eq!(sup.step(Event::RestartDelayElapsed), Action::SpawnChild);
    assert_eq!(sup.step(Event::LaunchSucceeded), Action::BeginProbe);
    // third crash: the budget is spent — no fourth launch
    assert_eq!(
        sup.step(Event::ProbeFinished(ProbeOutcome::ChildExited)),
        Action::ReportFailure(FailureReason::RestartBudgetExhausted)
    );
    assert!(matches!(sup.state, SupervisorState::Stopped));
    assert_eq!(sup.outcome, Some(StopKind::Failed(FailureReason::RestartBudgetExhausted)));
    assert_eq!(sup.step(Event::RestartDelayElapsed), Action::Nothing);
    assert!(matches!(sup.state, SupervisorState::Stopped));
}

#[test]
fn stability_resets_survive_more_crashes_than_the_budget_allows() {
    let mut sup = ready(3);
    // four crash–recover–stabilize rounds, more restarts than max_attempts
    for _ in 0..4 {
        assert_eq!(sup.step(Event::ChildBecameStable), Action::Nothing);
        assert_eq!(sup.step(Event::ChildExited), Action::ScheduleRestart(100));
        assert_eq!(sup.step(Event::RestartDelayElapsed), Action::SpawnChild);
        assert_eq!(sup.step(Event::LaunchSucceeded), Action::BeginProbe);
        assert_eq!(sup.step(Event::ProbeFinished(ProbeOutcome::Ready)), Action::Nothing);
        assert!(matches!(sup.state, SupervisorState::Ready));
    }
    assert!(sup.outcome.is_none());
}

#[test]
fn clean_shutdown_from_ready_stops_cleanly() {
    let mut sup = ready(3);
    assert_eq!(sup.step(Event::ShutdownRequested), Action::BeginShutdown);
    assert!(matches!(sup.state, SupervisorState::ShuttingDown));
    assert_eq!(
        sup.step(Event::ShutdownFinished(ShutdownOutcome::Graceful)),
        Action::Nothing
    );
    assert!(matches!(sup.state, SupervisorState::Stopped));
    assert_eq!(sup.outcome, Some(StopKind::Clean));
    assert!(!sup.child_active);
}

#[test]
fn shutdown_during_starting_cancels_the_probe_and_drains_the_child() {
    let mut sup = started(3);
    assert_eq!(sup.step(Event::ShutdownRequested), Action::BeginShutdown);
    assert!(matches!(sup.state, SupervisorState::ShuttingDown));
    // the cancelled probe's report changes nothing further
    assert_eq!(sup.step(Event::ProbeFinished(ProbeOutcome::Cancelled)), Action::Nothing);
    assert_eq!(
        sup.step(Event::ShutdownFinished(ShutdownOutcome::Forced)),
        Action::Nothing
    );
    assert!(matches!(sup.state, SupervisorState::Stopped));
    assert_eq!(sup.outcome, Some(StopKind::Clean));
    assert!(!sup.child_active);
}

#[test]
fn readiness_timeout_drains_the_child_and_fails() {
    let mut sup = started(3);
    assert_eq!(
        sup.step(Event::ProbeFinished(ProbeOutcome::Timeout)),
        Action::BeginShutdown
    );
    assert!(matches!(sup.state, SupervisorState::ShuttingDown));
    assert_eq!(
        sup.step(Event::ShutdownFinished(ShutdownOutcome::Forced)),
        Action::ReportFailure(FailureReason::ReadinessTimeout)
    );
    assert_eq!(sup.outcome, Some(StopKind::Failed(FailureReason::ReadinessTimeout)));
    assert!(!sup.child_active);
}

#[test]
fn a_hung_child_is_reported_degraded_before_it_counts_as_crashed() {
    assert_eq!(classify_health(0, 10_000), HealthStatus::Responsive);
    assert_eq!(classify_health(5000, 10_000), HealthStatus::Degraded);
    assert_eq!(classify_health(10_000, 10_000), HealthStatus::Hung);

    let mut sup = ready(3);
    assert_eq!(sup.step(Event::HealthChanged(HealthStatus::Hung)), Action::Nothing);
    assert!(matches!(sup.state, SupervisorState::Degraded));
    assert_eq!(
        sup.step(Event::HealthChanged(HealthStatus::Hung)),
        Action::ScheduleRestart(100)
    );
    assert!(matches!(sup.state, SupervisorState::Restarting));
}

#[test]
fn a_degraded_child_that_answers_again_is_ready() {
    let mut sup = ready(3);
    assert_eq!(sup.step(Event::HealthChanged(HealthStatus::Degraded)), Action::Nothing);
    assert!(matches!(sup.state, SupervisorState::Degraded));
    assert_eq!(sup.step(Event::HealthChanged(HealthStatus::Responsive)), Action::Nothing);
    assert!(matches!(sup.state, SupervisorState::Ready));
}

#[test]
fn stopped_is_absorbing() {
    let mut sup = ready(1);
    sup.step(Event::ShutdownRequested);
    sup.step(Event::ShutdownFinished(ShutdownOutcome::Graceful));
    assert!(matches!(sup.state, SupervisorState::Stopped));
    assert_eq!(sup.step(Event::StartRequested), Action::Nothing);
    assert_eq!(sup.step(Event::LaunchSucceeded), Action::Nothing);
    assert_eq!(sup.step(Event::ProbeFinished(ProbeOutcome::Ready)), Action::Nothing);
    assert!(matches!(sup.state, SupervisorState::Stopped));
    assert_eq!(sup.outcome, Some(StopKind::Clean));
}

#[test]
fn stability_threshold_is_inclusive() {
    assert!(!is_stable(9_999, 10_000));
    assert!(is_stable(10_000, 10_000));
}

#[test]
fn a_usable_configuration_validates() {
    let spec = LaunchSpec {
        executable: String::from(".venv/bin/python"),
        args: vec![String::from("src/fidu_core/main.py")],
        working_dir: String::from("."),
        readiness_timeout_ms: 5000,
        poll_interval_ms: 250,
        grace_period_ms: 1000,
        max_attempts: 3,
        base_backoff_ms: 100,
        backoff_cap_ms: 1000,
        stability_threshold_ms: 10_000,
        hang_threshold_ms: 10_000,
    };
    assert!(spec.validate());

    let mut zero_interval = spec.clone();
    zero_interval.poll_interval_ms = 0;
    assert!(!zero_interval.validate());

    let mut no_attempts = spec.clone();
    no_attempts.max_attempts = 0;
    assert!(!no_attempts.validate());

    let mut unrepresentable = spec;
    unrepresentable.readiness_timeout_ms = u64::MAX;
    assert!(!unrepresentable.validate());
}

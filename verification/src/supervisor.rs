//! The supervisor state machine.
//!
//! One background task owns the supervisor and drives every transition;
//! the launcher, prober and shutdown coordinator report back as events
//! through a single consumer, so no two transitions ever apply
//! concurrently. `step` maps the current state and one event to the next
//! state and the action the driver must carry out. The invariants: at
//! most one child handle is active at a time, Ready is never entered
//! without a successful readiness check, and ShuttingDown is terminal —
//! once entered, only Stopped can follow, and a Ready can never follow a
//! Stopped.

use crate::launcher::LaunchError;
use crate::monitor::HealthStatus;
use crate::policy::ExitIntent;
use crate::policy::RestartBudget;
use crate::policy::RestartDecision;
use crate::policy::decide_restart;
use crate::policy::decide_restart_spec;
use crate::prober::ProbeObs;
use crate::prober::ProbeOutcome;
use crate::prober::ProbeStep;
use crate::prober::probe_decide_spec;
use crate::shutdown::ShutdownOutcome;
use vstd::prelude::*;

verus! {

/// Why the session ended in failure.
#[derive(Clone, Copy, Debug, PartialEq, Eq, Structural)]
pub enum FailureReason {
    /// The resolved executable path does not exist or is not executable.
    ExecutableNotFound,
    /// The operating system refused to create the process.
    SpawnFailed,
    /// The child never became ready within the readiness timeout.
    ReadinessTimeout,
    /// The restart budget ran out: the child kept crashing.
    RestartBudgetExhausted,
}

/// How a session ended.
#[derive(Clone, Copy, Debug, PartialEq, Eq, Structural)]
pub enum StopKind {
    /// An orderly end: shutdown was requested and completed.
    Clean,
    /// The session ended because the backend could not be kept up.
    Failed(FailureReason),
}

/// The supervisor's lifecycle state. Exactly one instance exists per
/// shell session.
#[derive(Clone, Copy, Debug, PartialEq, Eq, Structural)]
pub enum SupervisorState {
    /// Nothing launched yet.
    Idle,
    /// A launch is in flight or the readiness probe is running.
    Starting,
    /// The child serves requests.
    Ready,
    /// A once-ready child has stopped answering, but does not yet count
    /// as hung.
    Degraded,
    /// Waiting out the backoff delay before the next launch.
    Restarting,
    /// The shutdown coordinator is draining the child. Terminal: only
    /// Stopped can follow.
    ShuttingDown,
    /// The session is over; `outcome` says how.
    Stopped,
}

/// What the driver reports to the supervisor.
#[derive(Clone, Copy, Debug, PartialEq, Eq, Structural)]
pub enum Event {
    /// The shell asked for the backend to be brought up.
    StartRequested,
    /// The launcher created the child process.
    LaunchSucceeded,
    /// The launcher could not create the child process.
    LaunchFailed(LaunchError),
    /// The readiness probe ended with this outcome.
    ProbeFinished(ProbeOutcome),
    /// The child survived past the stability threshold.
    ChildBecameStable,
    /// The health monitor's judgement of the running child changed.
    HealthChanged(HealthStatus),
    /// The operating system reported the child's exit.
    ChildExited,
    /// The backoff delay before a relaunch has elapsed.
    RestartDelayElapsed,
    /// The shell is terminating and asked for shutdown.
    ShutdownRequested,
    /// The shutdown coordinator finished with this outcome.
    ShutdownFinished(ShutdownOutcome),
}

/// What the driver must do after a transition.
#[derive(Clone, Copy, Debug, PartialEq, Eq, Structural)]
pub enum Action {
    /// Launch the child process.
    SpawnChild,
    /// Start the readiness probe against the new child.
    BeginProbe,
    /// Terminate any remaining child, wait this many milliseconds, then
    /// report RestartDelayElapsed.
    ScheduleRestart(u64),
    /// Run the shutdown coordinator on the child (cancels any pending
    /// probe first).
    BeginShutdown,
    /// Surface this failure to the user; the session is over.
    ReportFailure(FailureReason),
    /// Nothing to do.
    Nothing,
}

/// The failure a launch error surfaces as.
pub open spec fn launch_failure(e: LaunchError) -> FailureReason {
    match e {
        LaunchError::ExecutableNotFound => FailureReason::ExecutableNotFound,
        LaunchError::SpawnFailed => FailureReason::SpawnFailed,
    }
}

/// The supervisor: one per shell session.
#[derive(Clone, Debug)]
pub struct Supervisor {
    /// Current lifecycle state.
    pub state: SupervisorState,
    /// Launch attempts spent within the current stability window.
    pub budget: RestartBudget,
    /// Whether a child process handle is currently held. At most one
    /// child is active at a time.
    pub child_active: bool,
    /// A failure that must be reported once the child is drained.
    pub pending_failure: Option<FailureReason>,
    /// How the session ended; present exactly in the Stopped state.
    pub outcome: Option<StopKind>,
    /// Backoff delay after the first crash, in milliseconds.
    pub base_backoff_ms: u64,
    /// Upper bound on the backoff delay, in milliseconds.
    pub backoff_cap_ms: u64,
}

impl Supervisor {
    /// The state machine's invariant.
    pub open spec fn wf(self) -> bool {
        &&& self.budget.wf()
        &&& self.budget.max_attempts >= 1
        &&& (self.state is Stopped <==> self.outcome is Some)
        &&& (self.state is Ready || self.state is Degraded ==> self.child_active)
        &&& (self.state is ShuttingDown ==> self.child_active)
        &&& (self.state is Restarting ==> !self.child_active && self.budget.used
            < self.budget.max_attempts)
        &&& (self.state is Idle ==> !self.child_active && self.budget.used == 0)
        &&& (self.state is Stopped ==> !self.child_active)
        &&& (self.pending_failure is Some ==> self.state is ShuttingDown || self.state is Stopped)
    }

    /// A fresh supervisor, before anything was launched.
    pub fn new(max_attempts: u32, base_backoff_ms: u64, backoff_cap_ms: u64) -> (s: Supervisor)
        requires
            max_attempts >= 1,
        ensures
            s.wf(),
            s.state is Idle,
            s.budget.max_attempts == max_attempts,
            s.budget.used == 0,
            !s.child_active,
            s.outcome is None,
            s.base_backoff_ms == base_backoff_ms,
            s.backoff_cap_ms == backoff_cap_ms,
    {
        Supervisor {
            state: SupervisorState::Idle,
            budget: RestartBudget::new(max_attempts),
            child_active: false,
            pending_failure: None,
            outcome: None,
            base_backoff_ms,
            backoff_cap_ms,
        }
    }

    /// The restart policy's verdict on a crash (the child is gone):
    /// relaunch after backoff while an attempt remains, else stop with
    /// the budget exhausted.
    pub open spec fn crash_spec(self) -> (Supervisor, Action) {
        match decide_restart_spec(
            ExitIntent::Unexpected,
            self.budget,
            self.base_backoff_ms,
            self.backoff_cap_ms,
        ) {
            RestartDecision::Restart(delay) => (
                Supervisor { state: SupervisorState::Restarting, child_active: false, ..self },
                Action::ScheduleRestart(delay),
            ),
            RestartDecision::GiveUp | RestartDecision::NoRestart => (
                Supervisor {
                    state: SupervisorState::Stopped,
                    child_active: false,
                    outcome: Some(StopKind::Failed(FailureReason::RestartBudgetExhausted)),
                    ..self
                },
                Action::ReportFailure(FailureReason::RestartBudgetExhausted),
            ),
        }
    }

    /// One transition of the state machine: from the current state and
    /// one event to the next state and the driver's action.
    pub open spec fn step_spec(self, event: Event) -> (Supervisor, Action) {
        match self.state {
            SupervisorState::Idle => match event {
                Event::StartRequested => (
                    Supervisor {
                        state: SupervisorState::Starting,
                        budget: RestartBudget {
                            max_attempts: self.budget.max_attempts,
                            used: 1,
                        },
                        ..self
                    },
                    Action::SpawnChild,
                ),
                Event::ShutdownRequested => (
                    Supervisor {
                        state: SupervisorState::Stopped,
                        outcome: Some(StopKind::Clean),
                        ..self
                    },
                    Action::Nothing,
                ),
                _ => (self, Action::Nothing),
            },
            SupervisorState::Starting => match event {
                Event::LaunchSucceeded => (
                    Supervisor { child_active: true, ..self },
                    Action::BeginProbe,
                ),
                Event::LaunchFailed(e) => {
                    if self.child_active {
                        (self, Action::Nothing)
                    } else {
                        (
                            Supervisor {
                                state: SupervisorState::Stopped,
                                outcome: Some(StopKind::Failed(launch_failure(e))),
                                ..self
                            },
                            Action::ReportFailure(launch_failure(e)),
                        )
                    }
                },
                Event::ProbeFinished(o) => match o {
                    ProbeOutcome::Ready => {
                        if self.child_active {
                            (Supervisor { state: SupervisorState::Ready, ..self }, Action::Nothing)
                        } else {
                            (self, Action::Nothing)
                        }
                    },
                    ProbeOutcome::Timeout => {
                        if self.child_active {
                            (
                                Supervisor {
                                    state: SupervisorState::ShuttingDown,
                                    pending_failure: Some(FailureReason::ReadinessTimeout),
                                    ..self
                                },
                                Action::BeginShutdown,
                            )
                        } else {
                            (self, Action::Nothing)
                        }
                    },
                    ProbeOutcome::ChildExited => Supervisor {
                        child_active: false,
                        ..self
                    }.crash_spec(),
                    ProbeOutcome::Cancelled => (self, Action::Nothing),
                },
                Event::ChildExited => Supervisor { child_active: false, ..self }.crash_spec(),
                Event::ShutdownRequested => {
                    if self.child_active {
                        (
                            Supervisor { state: SupervisorState::ShuttingDown, ..self },
                            Action::BeginShutdown,
                        )
                    } else {
                        (
                            Supervisor {
                                state: SupervisorState::Stopped,
                                outcome: Some(StopKind::Clean),
                                ..self
                            },
                            Action::Nothing,
                        )
                    }
                },
                _ => (self, Action::Nothing),
            },
            SupervisorState::Ready => match event {
                Event::ChildBecameStable => (
                    Supervisor {
                        budget: RestartBudget { max_attempts: self.budget.max_attempts, used: 0 },
                        ..self
                    },
                    Action::Nothing,
                ),
                Event::HealthChanged(h) => match h {
                    HealthStatus::Responsive => (self, Action::Nothing),
                    // a hung child is reported as Degraded first
                    HealthStatus::Degraded | HealthStatus::Hung => (
                        Supervisor { state: SupervisorState::Degraded, ..self },
                        Action::Nothing,
                    ),
                },
                Event::ChildExited => Supervisor { child_active: false, ..self }.crash_spec(),
                Event::ShutdownRequested => (
                    Supervisor { state: SupervisorState::ShuttingDown, ..self },
                    Action::BeginShutdown,
                ),
                _ => (self, Action::Nothing),
            },
            SupervisorState::Degraded => match event {
                Event::ChildBecameStable => (
                    Supervisor {
                        budget: RestartBudget { max_attempts: self.budget.max_attempts, used: 0 },
                        ..self
                    },
                    Action::Nothing,
                ),
                Event::HealthChanged(h) => match h {
                    HealthStatus::Responsive => (
                        Supervisor { state: SupervisorState::Ready, ..self },
                        Action::Nothing,
                    ),
                    HealthStatus::Degraded => (self, Action::Nothing),
                    // hung counts as a crash; ScheduleRestart and
                    // BeginShutdown both terminate the remaining child
                    HealthStatus::Hung => {
                        if self.budget.used < self.budget.max_attempts {
                            Supervisor { child_active: false, ..self }.crash_spec()
                        } else {
                            (
                                Supervisor {
                                    state: SupervisorState::ShuttingDown,
                                    pending_failure: Some(FailureReason::RestartBudgetExhausted),
                                    ..self
                                },
                                Action::BeginShutdown,
                            )
                        }
                    },
                },
                Event::ChildExited => Supervisor { child_active: false, ..self }.crash_spec(),
                Event::ShutdownRequested => (
                    Supervisor { state: SupervisorState::ShuttingDown, ..self },
                    Action::BeginShutdown,
                ),
                _ => (self, Action::Nothing),
            },
            SupervisorState::Restarting => match event {
                Event::RestartDelayElapsed => (
                    Supervisor {
                        state: SupervisorState::Starting,
                        budget: RestartBudget {
                            max_attempts: self.budget.max_attempts,
                            used: (self.budget.used + 1) as u32,
                        },
                        ..self
                    },
                    Action::SpawnChild,
                ),
                Event::ShutdownRequested => (
                    Supervisor {
                        state: SupervisorState::Stopped,
                        outcome: Some(StopKind::Clean),
                        ..self
                    },
                    Action::Nothing,
                ),
                _ => (self, Action::Nothing),
            },
            SupervisorState::ShuttingDown => match event {
                Event::ShutdownFinished(_) => match self.pending_failure {
                    Some(reason) => (
                        Supervisor {
                            state: SupervisorState::Stopped,
                            child_active: false,
                            outcome: Some(StopKind::Failed(reason)),
                            ..self
                        },
                        Action::ReportFailure(reason),
                    ),
                    None => (
                        Supervisor {
                            state: SupervisorState::Stopped,
                            child_active: false,
                            outcome: Some(StopKind::Clean),
                            ..self
                        },
                        Action::Nothing,
                    ),
                },
                _ => (self, Action::Nothing),
            },
            SupervisorState::Stopped => (self, Action::Nothing),
        }
    }

    /// Apply one event. The returned action is what the driver must
    /// carry out before the next event is applied.
    pub fn step(&mut self, event: Event) -> (a: Action)
        requires
            old(self).wf(),
        ensures
            (*final(self), a) == old(self).step_spec(event),
            final(self).wf(),
            old(self).state is Stopped ==> *final(self) == *old(self) && a is Nothing,
            old(self).state is ShuttingDown ==> final(self).state is ShuttingDown
                || final(self).state is Stopped,
            final(self).state is Ready && !(old(self).state is Ready) ==> (old(self).state
                is Starting && event == Event::ProbeFinished(ProbeOutcome::Ready))
                || (old(self).state is Degraded && event == Event::HealthChanged(
                HealthStatus::Responsive,
            )),
    {
        match self.state {
            SupervisorState::Idle => match event {
                Event::StartRequested => {
                    self.state = SupervisorState::Starting;
                    self.budget.used = 1;
                    Action::SpawnChild
                },
                Event::ShutdownRequested => {
                    self.state = SupervisorState::Stopped;
                    self.outcome = Some(StopKind::Clean);
                    Action::Nothing
                },
                _ => Action::Nothing,
            },
            SupervisorState::Starting => match event {
                Event::LaunchSucceeded => {
                    self.child_active = true;
                    Action::BeginProbe
                },
                Event::LaunchFailed(e) => {
                    if self.child_active {
                        Action::Nothing
                    } else {
                        let reason = match e {
                            LaunchError::ExecutableNotFound => FailureReason::ExecutableNotFound,
                            LaunchError::SpawnFailed => FailureReason::SpawnFailed,
                        };
                        self.state = SupervisorState::Stopped;
                        self.outcome = Some(StopKind::Failed(reason));
                        Action::ReportFailure(reason)
                    }
                },
                Event::ProbeFinished(o) => match o {
                    ProbeOutcome::Ready => {
                        if self.child_active {
                            self.state = SupervisorState::Ready;
                        }
                        Action::Nothing
                    },
                    ProbeOutcome::Timeout => {
                        if self.child_active {
                            self.state = SupervisorState::ShuttingDown;
                            self.pending_failure = Some(FailureReason::ReadinessTimeout);
                            Action::BeginShutdown
                        } else {
                            Action::Nothing
                        }
                    },
                    ProbeOutcome::ChildExited => {
                        self.child_active = false;
                        self.apply_crash()
                    },
                    ProbeOutcome::Cancelled => Action::Nothing,
                },
                Event::ChildExited => {
                    self.child_active = false;
                    self.apply_crash()
                },
                Event::ShutdownRequested => {
                    if self.child_active {
                        self.state = SupervisorState::ShuttingDown;
                        Action::BeginShutdown
                    } else {
                        self.state = SupervisorState::Stopped;
                        self.outcome = Some(StopKind::Clean);
                        Action::Nothing
                    }
                },
                _ => Action::Nothing,
            },
            SupervisorState::Ready => match event {
                Event::ChildBecameStable => {
                    self.budget.used = 0;
                    Action::Nothing
                },
                Event::HealthChanged(h) => match h {
                    HealthStatus::Responsive => Action::Nothing,
                    HealthStatus::Degraded | HealthStatus::Hung => {
                        self.state = SupervisorState::Degraded;
                        Action::Nothing
                    },
                },
                Event::ChildExited => {
                    self.child_active = false;
                    self.apply_crash()
                },
                Event::ShutdownRequested => {
                    self.state = SupervisorState::ShuttingDown;
                    Action::BeginShutdown
                },
                _ => Action::Nothing,
            },
            SupervisorState::Degraded => match event {
                Event::ChildBecameStable => {
                    self.budget.used = 0;
                    Action::Nothing
                },
                Event::HealthChanged(h) => match h {
                    HealthStatus::Responsive => {
                        self.state = SupervisorState::Ready;
                        Action::Nothing
                    },
                    HealthStatus::Degraded => Action::Nothing,
                    HealthStatus::Hung => {
                        if self.budget.used < self.budget.max_attempts {
                            self.child_active = false;
                            self.apply_crash()
                        } else {
                            self.state = SupervisorState::ShuttingDown;
                            self.pending_failure = Some(FailureReason::RestartBudgetExhausted);
                            Action::BeginShutdown
                        }
                    },
                },
                Event::ChildExited => {
                    self.child_active = false;
                    self.apply_crash()
                },
                Event::ShutdownRequested => {
                    self.state = SupervisorState::ShuttingDown;
                    Action::BeginShutdown
                },
                _ => Action::Nothing,
            },
            SupervisorState::Restarting => match event {
                Event::RestartDelayElapsed => {
                    self.state = SupervisorState::Starting;
                    self.budget.used = self.budget.used + 1;
                    Action::SpawnChild
                },
                Event::ShutdownRequested => {
                    self.state = SupervisorState::Stopped;
                    self.outcome = Some(StopKind::Clean);
                    Action::Nothing
                },
                _ => Action::Nothing,
            },
            SupervisorState::ShuttingDown => match event {
                Event::ShutdownFinished(_) => match self.pending_failure {
                    Some(reason) => {
                        self.state = SupervisorState::Stopped;
                        self.child_active = false;
                        self.outcome = Some(StopKind::Failed(reason));
                        Action::ReportFailure(reason)
                    },
                    None => {
                        self.state = SupervisorState::Stopped;
                        self.child_active = false;
                        self.outcome = Some(StopKind::Clean);
                        Action::Nothing
                    },
                },
                _ => Action::Nothing,
            },
            SupervisorState::Stopped => Action::Nothing,
        }
    }

    /// Apply the restart policy's verdict after a crash; the caller has
    /// already relinquished the child handle.
    fn apply_crash(&mut self) -> (a: Action)
        requires
            old(self).budget.wf(),
            !old(self).child_active,
        ensures
            (*final(self), a) == old(self).crash_spec(),
    {
        let decision = decide_restart(
            ExitIntent::Unexpected,
            &self.budget,
            self.base_backoff_ms,
            self.backoff_cap_ms,
        );
        match decision {
            RestartDecision::Restart(delay) => {
                self.state = SupervisorState::Restarting;
                Action::ScheduleRestart(delay)
            },
            RestartDecision::GiveUp | RestartDecision::NoRestart => {
                self.state = SupervisorState::Stopped;
                self.outcome = Some(StopKind::Failed(FailureReason::RestartBudgetExhausted));
                Action::ReportFailure(FailureReason::RestartBudgetExhausted)
            },
        }
    }
}

/// The supervisor after a whole sequence of events has been applied.
pub open spec fn run_steps(s: Supervisor, events: Seq<Event>) -> Supervisor
    decreases events.len(),
{
    if events.len() == 0 {
        s
    } else {
        run_steps(s.step_spec(events[0]).0, events.drop_first())
    }
}

/// Every transition preserves the state machine's invariant.
pub proof fn lemma_step_spec_preserves_wf(s: Supervisor, event: Event)
    requires
        s.wf(),
    ensures
        s.step_spec(event).0.wf(),
{
}

/// Stopped is absorbing: no event sequence leads out of it. In
/// particular, a Ready can never follow a Stopped within one session.
pub proof fn lemma_no_ready_after_stopped(s: Supervisor, events: Seq<Event>)
    requires
        s.state is Stopped,
    ensures
        run_steps(s, events).state is Stopped,
    decreases events.len(),
{
    if events.len() > 0 {
        lemma_no_ready_after_stopped(s.step_spec(events[0]).0, events.drop_first());
    }
}

/// ShuttingDown is terminal and irreversible: once entered, every later
/// state of the session is ShuttingDown or Stopped.
pub proof fn lemma_shutting_down_irreversible(s: Supervisor, events: Seq<Event>)
    requires
        s.state is ShuttingDown || s.state is Stopped,
    ensures
        run_steps(s, events).state is ShuttingDown || run_steps(s, events).state is Stopped,
    decreases events.len(),
{
    if events.len() > 0 {
        lemma_shutting_down_irreversible(s.step_spec(events[0]).0, events.drop_first());
    }
}

/// Startup settles on exactly one of the reportable conditions: the
/// bounded probe returns exactly one outcome, and one step maps it to
/// Ready, to a further attempt, or to the failure path — never to a
/// hang. Only a Cancelled probe leaves the state alone, and that report
/// arrives only after the shutdown request that caused it has already
/// moved the supervisor out of Starting.
pub proof fn lemma_startup_settles(s: Supervisor, o: ProbeOutcome)
    requires
        s.wf(),
        s.state is Starting,
        s.child_active,
    ensures
        ({
            let (s1, a1) = s.step_spec(Event::ProbeFinished(o));
            &&& o is Ready ==> s1.state is Ready
            &&& o is Timeout ==> s1.state is ShuttingDown && s1.pending_failure == Some(
                FailureReason::ReadinessTimeout,
            ) && a1 == Action::BeginShutdown
            &&& o is ChildExited && s.budget.used < s.budget.max_attempts
                ==> s1.state is Restarting
            &&& o is ChildExited && s.budget.used >= s.budget.max_attempts ==> s1.state is Stopped
                && s1.outcome == Some(StopKind::Failed(FailureReason::RestartBudgetExhausted))
            &&& o is Cancelled ==> s1 == s
        }),
{
}

/// One full crash–relaunch cycle as the driver performs it: the probe
/// reports the child's early exit, the backoff delay elapses, and the
/// relaunch succeeds.
pub open spec fn crash_cycle(s: Supervisor) -> Supervisor {
    let s1 = s.step_spec(Event::ProbeFinished(ProbeOutcome::ChildExited)).0;
    let s2 = s1.step_spec(Event::RestartDelayElapsed).0;
    s2.step_spec(Event::LaunchSucceeded).0
}

/// The supervisor after `n` consecutive crash–relaunch cycles.
pub open spec fn crash_cycles(s: Supervisor, n: nat) -> Supervisor
    decreases n,
{
    if n == 0 {
        s
    } else {
        crash_cycle(crash_cycles(s, (n - 1) as nat))
    }
}

/// Consecutive immediate crashes exhaust the budget and stop the
/// session: each cycle spends one launch attempt, and the crash that
/// finds every attempt spent stops the supervisor with
/// RestartBudgetExhausted — after which no event can make it launch
/// again.
pub proof fn lemma_crash_loop_exhausts_the_budget(s: Supervisor, n: nat)
    requires
        s.wf(),
        s.state is Starting,
        s.child_active,
        n <= s.budget.max_attempts - s.budget.used,
    ensures
        crash_cycles(s, n).wf(),
        crash_cycles(s, n).state is Starting,
        crash_cycles(s, n).child_active,
        crash_cycles(s, n).budget.used == s.budget.used + n,
        crash_cycles(s, n).budget.max_attempts == s.budget.max_attempts,
        n == s.budget.max_attempts - s.budget.used ==> ({
            let (t, a) = crash_cycles(s, n).step_spec(Event::ProbeFinished(ProbeOutcome::ChildExited));
            &&& t.state is Stopped
            &&& t.outcome == Some(StopKind::Failed(FailureReason::RestartBudgetExhausted))
            &&& a == Action::ReportFailure(FailureReason::RestartBudgetExhausted)
            &&& forall|e: Event| t.step_spec(e).1 == Action::Nothing
        }),
    decreases n,
{
    if n > 0 {
        lemma_crash_loop_exhausts_the_budget(s, (n - 1) as nat);
    }
}

/// One crash–recover–stabilize round as seen from Ready: the child
/// survives past the stability threshold, crashes, is relaunched after
/// the backoff, and becomes ready again.
pub open spec fn stable_crash_recover_round(s: Supervisor) -> Supervisor {
    let s1 = s.step_spec(Event::ChildBecameStable).0;
    let s2 = s1.step_spec(Event::ChildExited).0;
    let s3 = s2.step_spec(Event::RestartDelayElapsed).0;
    let s4 = s3.step_spec(Event::LaunchSucceeded).0;
    s4.step_spec(Event::ProbeFinished(ProbeOutcome::Ready)).0
}

/// The supervisor after `n` crash–recover–stabilize rounds.
pub open spec fn stable_rounds(s: Supervisor, n: nat) -> Supervisor
    decreases n,
{
    if n == 0 {
        s
    } else {
        stable_crash_recover_round(stable_rounds(s, (n - 1) as nat))
    }
}

/// A child that keeps stabilizing before it crashes never exhausts the
/// restart budget: every such round returns to Ready, every crash in it
/// is answered by a relaunch, and the session never fails — however many
/// restarts occur in total.
pub proof fn lemma_stabilized_sessions_never_exhaust(s: Supervisor, n: nat)
    requires
        s.wf(),
        s.state is Ready,
    ensures
        stable_rounds(s, n).wf(),
        stable_rounds(s, n).state is Ready,
        stable_rounds(s, n).outcome is None,
        forall|k: nat|
            k < n ==> stable_rounds(s, k).step_spec(Event::ChildBecameStable).0.step_spec(
                Event::ChildExited,
            ).1 is ScheduleRestart,
    decreases n,
{
    if n > 0 {
        lemma_stabilized_sessions_never_exhaust(s, (n - 1) as nat);
    }
}

/// A shutdown requested while the child is Ready ends the session
/// cleanly: the supervisor moves to ShuttingDown and starts the
/// coordinator, and the coordinator's completion — whatever its outcome
/// — leaves the session Stopped with the Clean outcome and no child
/// handle held.
pub proof fn lemma_clean_shutdown_from_ready(s: Supervisor, o: ShutdownOutcome)
    requires
        s.wf(),
        s.state is Ready,
    ensures
        ({
            let (s1, a1) = s.step_spec(Event::ShutdownRequested);
            let (s2, a2) = s1.step_spec(Event::ShutdownFinished(o));
            &&& s1.state is ShuttingDown
            &&& a1 == Action::BeginShutdown
            &&& s2.state is Stopped
            &&& s2.outcome == Some(StopKind::Clean)
            &&& !s2.child_active
        }),
{
}

/// A shutdown requested while the supervisor is still Starting aborts
/// the startup: the supervisor moves to ShuttingDown and starts the
/// coordinator at once, the probe's very next poll — whatever else it
/// observed — sees the cancellation and ends with Cancelled, and the
/// coordinator's completion drains the partially started child and ends
/// the session cleanly.
pub proof fn lemma_shutdown_during_starting(
    s: Supervisor,
    obs: ProbeObs,
    elapsed_ms: u64,
    timeout_ms: u64,
    o: ShutdownOutcome,
)
    requires
        s.wf(),
        s.state is Starting,
        s.child_active,
        obs.cancel_requested,
    ensures
        probe_decide_spec(elapsed_ms, timeout_ms, obs) == ProbeStep::Done(ProbeOutcome::Cancelled),
        ({
            let (s1, a1) = s.step_spec(Event::ShutdownRequested);
            let (s2, a2) = s1.step_spec(Event::ShutdownFinished(o));
            &&& s1.state is ShuttingDown
            &&& a1 == Action::BeginShutdown
            &&& s2.state is Stopped
            &&& s2.outcome == Some(StopKind::Clean)
            &&& !s2.child_active
        }),
{
}

} // verus!

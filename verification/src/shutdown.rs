//! Shutdown coordinator: ask the child to stop, wait out a grace period,
//! and escalate to forced termination if the child does not comply.
//!
//! The coordinator is safe to invoke when the child already exited on
//! its own — that case is an idempotent no-op. Its total wait is bounded
//! by the grace period plus one poll interval, so a hung child can never
//! keep the shell from exiting.

use vstd::prelude::*;

verus! {

/// How a shutdown ended.
#[derive(Clone, Copy, Debug, PartialEq, Eq, Structural)]
pub enum ShutdownOutcome {
    /// The child had already exited before the stop request; nothing was
    /// sent.
    AlreadyExited,
    /// The child exited voluntarily within the grace period.
    Graceful,
    /// The grace period ran out; the child was terminated forcibly.
    Forced,
}

/// The coordinator's per-tick decision while waiting for the child.
#[derive(Clone, Copy, Debug, PartialEq, Eq, Structural)]
pub enum ShutdownStep {
    /// Sleep one interval and look again.
    Wait,
    /// The grace period ran out with the child still alive: terminate it
    /// forcibly.
    Escalate,
    /// The child is gone; the shutdown is over.
    Exited,
}

/// What one tick of the grace-period wait decides: a vanished child ends
/// the wait at once; a child still alive past the grace period is
/// terminated forcibly; otherwise keep waiting.
pub open spec fn shutdown_decide_spec(
    elapsed_ms: u64,
    grace_period_ms: u64,
    child_running: bool,
) -> ShutdownStep {
    if !child_running {
        ShutdownStep::Exited
    } else if elapsed_ms >= grace_period_ms {
        ShutdownStep::Escalate
    } else {
        ShutdownStep::Wait
    }
}

/// Decide what to do after one look at the child during shutdown.
pub fn shutdown_decide(elapsed_ms: u64, grace_period_ms: u64, child_running: bool) -> (s:
    ShutdownStep)
    ensures
        s == shutdown_decide_spec(elapsed_ms, grace_period_ms, child_running),
        s is Wait <==> child_running && elapsed_ms < grace_period_ms,
{
    if !child_running {
        ShutdownStep::Exited
    } else if elapsed_ms >= grace_period_ms {
        ShutdownStep::Escalate
    } else {
        ShutdownStep::Wait
    }
}

/// The outcome and final elapsed time of the shutdown wait over the
/// given liveness observations, one per poll interval, starting at the
/// given tick. Tick 0 is observed before any stop request is sent.
pub open spec fn shutdown_run_spec(
    running: Seq<bool>,
    grace_period_ms: u64,
    interval_ms: u64,
    tick: nat,
    elapsed_ms: u64,
) -> (ShutdownOutcome, u64)
    decreases grace_period_ms + interval_ms - elapsed_ms,
{
    if interval_ms == 0 || tick >= running.len() || elapsed_ms > grace_period_ms + interval_ms {
        // outside the model's range; shutdown_run's contract excludes this
        (ShutdownOutcome::Forced, elapsed_ms)
    } else {
        match shutdown_decide_spec(elapsed_ms, grace_period_ms, running[tick as int]) {
            ShutdownStep::Exited => {
                if tick == 0 {
                    (ShutdownOutcome::AlreadyExited, elapsed_ms)
                } else {
                    (ShutdownOutcome::Graceful, elapsed_ms)
                }
            },
            ShutdownStep::Escalate => (ShutdownOutcome::Forced, elapsed_ms),
            ShutdownStep::Wait => {
                if elapsed_ms + interval_ms <= u64::MAX {
                    shutdown_run_spec(
                        running,
                        grace_period_ms,
                        interval_ms,
                        tick + 1,
                        (elapsed_ms + interval_ms) as u64,
                    )
                } else {
                    (ShutdownOutcome::Forced, elapsed_ms)
                }
            },
        }
    }
}

/// Run the whole shutdown wait over a sequence of liveness observations,
/// one per poll interval. `running[0]` is observed before the stop
/// request: a child that already exited makes the call an idempotent
/// no-op. The wait always ends, with exactly one outcome, within one
/// poll interval past the grace period; the child is gone afterwards in
/// every case — voluntarily, or through the forced termination that the
/// Forced outcome reports.
pub fn shutdown_run(running: &Vec<bool>, grace_period_ms: u64, interval_ms: u64) -> (r: (
    ShutdownOutcome,
    u64,
))
    requires
        interval_ms >= 1,
        grace_period_ms + interval_ms <= u64::MAX,
        running@.len() >= 1,
        (running@.len() - 1) * interval_ms >= grace_period_ms,
    ensures
        r == shutdown_run_spec(running@, grace_period_ms, interval_ms, 0, 0),
        r.1 < grace_period_ms + interval_ms,
        r.0 is AlreadyExited <==> !running@[0],
        r.0 is AlreadyExited ==> r.1 == 0,
{
    let mut tick: usize = 0;
    let mut elapsed_ms: u64 = 0;
    loop
        invariant
            interval_ms >= 1,
            grace_period_ms + interval_ms <= u64::MAX,
            running@.len() >= 1,
            (running@.len() - 1) * interval_ms >= grace_period_ms,
            elapsed_ms == tick * interval_ms,
            elapsed_ms < grace_period_ms + interval_ms,
            tick > 0 ==> running@[0],
            shutdown_run_spec(running@, grace_period_ms, interval_ms, tick as nat, elapsed_ms)
                == shutdown_run_spec(running@, grace_period_ms, interval_ms, 0, 0),
        decreases grace_period_ms + interval_ms - elapsed_ms,
    {
        proof {
            assert(tick < running@.len()) by (nonlinear_arith)
                requires
                    elapsed_ms == tick * interval_ms,
                    elapsed_ms < grace_period_ms + interval_ms,
                    (running@.len() - 1) * interval_ms >= grace_period_ms,
                    interval_ms >= 1,
                    running@.len() >= 1,
            ;
        }
        // the length call pins running@.len() within usize, so tick can advance
        let n = running.len();
        let alive = running[tick];
        match shutdown_decide(elapsed_ms, grace_period_ms, alive) {
            ShutdownStep::Exited => {
                if tick == 0 {
                    return (ShutdownOutcome::AlreadyExited, elapsed_ms);
                } else {
                    return (ShutdownOutcome::Graceful, elapsed_ms);
                }
            },
            ShutdownStep::Escalate => {
                return (ShutdownOutcome::Forced, elapsed_ms);
            },
            ShutdownStep::Wait => {
                proof {
                    assert((tick + 1) * interval_ms == tick * interval_ms + interval_ms)
                        by (nonlinear_arith);
                }
                elapsed_ms = elapsed_ms + interval_ms;
                tick = tick + 1;
            },
        }
    }
}

} // verus!

//! Readiness prober: polls a readiness signal at a fixed interval until
//! the child serves requests, the timeout elapses, the child exits early,
//! or the shell requests shutdown.
//!
//! `probe_decide` is the per-tick decision; the driver calls it between
//! sleeps. `probe_run` is the whole loop over a recorded sequence of
//! observations, and carries the bound: the prober settles on exactly one
//! outcome within one poll interval past the readiness timeout — it never
//! waits out the timeout when the child has already exited or a
//! cancellation was requested, and it never hangs.

use vstd::prelude::*;

verus! {

/// What one poll of the readiness signal saw.
#[derive(Clone, Copy, Debug, PartialEq, Eq, Structural)]
pub struct ProbeObs {
    /// The readiness signal answered (port accepted, health endpoint up).
    pub healthy: bool,
    /// The child process still exists.
    pub child_running: bool,
    /// The shell asked for shutdown while the probe was pending.
    pub cancel_requested: bool,
}

/// How a probe ended.
#[derive(Clone, Copy, Debug, PartialEq, Eq, Structural)]
pub enum ProbeOutcome {
    /// The child serves requests.
    Ready,
    /// The timeout elapsed with the child alive but not ready.
    Timeout,
    /// The child exited before becoming ready.
    ChildExited,
    /// Shutdown was requested mid-startup; the probe aborted.
    Cancelled,
}

/// The prober's per-tick decision.
#[derive(Clone, Copy, Debug, PartialEq, Eq, Structural)]
pub enum ProbeStep {
    /// Sleep one interval and poll again.
    Continue,
    /// The probe is over with this outcome.
    Done(ProbeOutcome),
}

/// What one tick decides. Cancellation aborts at once; a vanished child
/// is reported as its own condition rather than waiting out the timeout;
/// a healthy answer means Ready; otherwise the probe goes on until the
/// timeout has elapsed.
pub open spec fn probe_decide_spec(elapsed_ms: u64, timeout_ms: u64, obs: ProbeObs) -> ProbeStep {
    if obs.cancel_requested {
        ProbeStep::Done(ProbeOutcome::Cancelled)
    } else if !obs.child_running {
        ProbeStep::Done(ProbeOutcome::ChildExited)
    } else if obs.healthy {
        ProbeStep::Done(ProbeOutcome::Ready)
    } else if elapsed_ms >= timeout_ms {
        ProbeStep::Done(ProbeOutcome::Timeout)
    } else {
        ProbeStep::Continue
    }
}

/// Decide what to do after one poll of the readiness signal.
pub fn probe_decide(elapsed_ms: u64, timeout_ms: u64, obs: ProbeObs) -> (s: ProbeStep)
    ensures
        s == probe_decide_spec(elapsed_ms, timeout_ms, obs),
        s is Continue <==> !obs.cancel_requested && obs.child_running && !obs.healthy
            && elapsed_ms < timeout_ms,
{
    if obs.cancel_requested {
        ProbeStep::Done(ProbeOutcome::Cancelled)
    } else if !obs.child_running {
        ProbeStep::Done(ProbeOutcome::ChildExited)
    } else if obs.healthy {
        ProbeStep::Done(ProbeOutcome::Ready)
    } else if elapsed_ms >= timeout_ms {
        ProbeStep::Done(ProbeOutcome::Timeout)
    } else {
        ProbeStep::Continue
    }
}

/// The outcome and final elapsed time of the probe loop over the given
/// observations, polling once per interval, starting at the given tick.
pub open spec fn probe_run_spec(
    obs: Seq<ProbeObs>,
    timeout_ms: u64,
    interval_ms: u64,
    tick: nat,
    elapsed_ms: u64,
) -> (ProbeOutcome, u64)
    decreases timeout_ms + interval_ms - elapsed_ms,
{
    if interval_ms == 0 || tick >= obs.len() || elapsed_ms > timeout_ms + interval_ms {
        // outside the model's range; probe_run's contract excludes this
        (ProbeOutcome::Timeout, elapsed_ms)
    } else {
        match probe_decide_spec(elapsed_ms, timeout_ms, obs[tick as int]) {
            ProbeStep::Done(o) => (o, elapsed_ms),
            ProbeStep::Continue => {
                if elapsed_ms + interval_ms <= u64::MAX {
                    probe_run_spec(
                        obs,
                        timeout_ms,
                        interval_ms,
                        tick + 1,
                        (elapsed_ms + interval_ms) as u64,
                    )
                } else {
                    (ProbeOutcome::Timeout, elapsed_ms)
                }
            },
        }
    }
}

/// Run the probe loop over a sequence of observations, one per poll
/// interval. The loop always terminates and settles on exactly one
/// outcome within one poll interval past the readiness timeout;
/// cancellation and early child exit cut it short at the tick that
/// observed them. The observations must cover the whole probe window.
pub fn probe_run(obs: &Vec<ProbeObs>, timeout_ms: u64, interval_ms: u64) -> (r: (
    ProbeOutcome,
    u64,
))
    requires
        interval_ms >= 1,
        timeout_ms + interval_ms <= u64::MAX,
        obs@.len() >= 1,
        (obs@.len() - 1) * interval_ms >= timeout_ms,
    ensures
        r == probe_run_spec(obs@, timeout_ms, interval_ms, 0, 0),
        r.1 < timeout_ms + interval_ms,
{
    let mut tick: usize = 0;
    let mut elapsed_ms: u64 = 0;
    loop
        invariant
            interval_ms >= 1,
            timeout_ms + interval_ms <= u64::MAX,
            obs@.len() >= 1,
            (obs@.len() - 1) * interval_ms >= timeout_ms,
            elapsed_ms == tick * interval_ms,
            elapsed_ms < timeout_ms + interval_ms,
            probe_run_spec(obs@, timeout_ms, interval_ms, tick as nat, elapsed_ms)
                == probe_run_spec(obs@, timeout_ms, interval_ms, 0, 0),
        decreases timeout_ms + interval_ms - elapsed_ms,
    {
        proof {
            assert(tick < obs@.len()) by (nonlinear_arith)
                requires
                    elapsed_ms == tick * interval_ms,
                    elapsed_ms < timeout_ms + interval_ms,
                    (obs@.len() - 1) * interval_ms >= timeout_ms,
                    interval_ms >= 1,
                    obs@.len() >= 1,
            ;
        }
        // the length call pins obs@.len() within usize, so tick can advance
        let n = obs.len();
        let o = obs[tick];
        match probe_decide(elapsed_ms, timeout_ms, o) {
            ProbeStep::Done(outcome) => {
                return (outcome, elapsed_ms);
            },
            ProbeStep::Continue => {
                proof {
                    assert((tick + 1) * interval_ms == tick * interval_ms + interval_ms)
                        by (nonlinear_arith);
                }
                elapsed_ms = elapsed_ms + interval_ms;
                tick = tick + 1;
            },
        }
    }
}

} // verus!

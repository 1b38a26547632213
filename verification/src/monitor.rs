//! Health monitor: classify what the background watch over the child
//! sees for the rest of the session.
//!
//! A crash is detected through the operating system's process-exit
//! notification, which the driver forwards as an exit event. Hang
//! detection is policy-defined: a once-ready child whose readiness
//! signal has been unanswered for a sustained period counts as hung, and
//! is treated like a crash for restart purposes — after first being
//! reported as degraded.

use vstd::prelude::*;

verus! {

/// The monitor's judgement of a running, once-ready child.
#[derive(Clone, Copy, Debug, PartialEq, Eq, Structural)]
pub enum HealthStatus {
    /// The readiness signal answers.
    Responsive,
    /// The signal has been unanswered, but not yet long enough to count
    /// the child as hung.
    Degraded,
    /// The signal has been unanswered for at least the hang threshold:
    /// the child counts as hung, which is treated like a crash.
    Hung,
}

/// How long an unanswered readiness signal is tolerated before the
/// child counts as hung. A zero `unresponsive_ms` means the last probe
/// answered.
pub open spec fn classify_health_spec(unresponsive_ms: u64, hang_threshold_ms: u64) -> HealthStatus {
    if unresponsive_ms == 0 {
        HealthStatus::Responsive
    } else if unresponsive_ms < hang_threshold_ms {
        HealthStatus::Degraded
    } else {
        HealthStatus::Hung
    }
}

/// Classify the child from how long its readiness signal has gone
/// unanswered.
pub fn classify_health(unresponsive_ms: u64, hang_threshold_ms: u64) -> (h: HealthStatus)
    ensures
        h == classify_health_spec(unresponsive_ms, hang_threshold_ms),
        h is Responsive <==> unresponsive_ms == 0,
        h is Hung <==> unresponsive_ms > 0 && unresponsive_ms >= hang_threshold_ms,
{
    if unresponsive_ms == 0 {
        HealthStatus::Responsive
    } else if unresponsive_ms < hang_threshold_ms {
        HealthStatus::Degraded
    } else {
        HealthStatus::Hung
    }
}

/// Whether the child has survived past the stability threshold, at
/// which point the restart budget is restored.
pub fn is_stable(alive_ms: u64, stability_threshold_ms: u64) -> (r: bool)
    ensures
        r <==> alive_ms >= stability_threshold_ms,
{
    alive_ms >= stability_threshold_ms
}

} // verus!

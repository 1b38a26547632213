//! Launch configuration: everything the supervisor needs to bring the
//! backend up, constructed once at startup and never mutated.

use vstd::prelude::*;

verus! {

/// Immutable launch configuration for the backend process.
#[derive(Clone, Debug)]
pub struct LaunchSpec {
    /// Executable path, relative to the shell's installation anchor.
    pub executable: String,
    /// Arguments handed to the executable.
    pub args: Vec<String>,
    /// Working directory, relative to the shell's installation anchor.
    pub working_dir: String,
    /// How long the readiness prober waits in all, in milliseconds.
    pub readiness_timeout_ms: u64,
    /// How long the prober sleeps between polls, in milliseconds.
    pub poll_interval_ms: u64,
    /// How long a cooperative shutdown may take before the child is
    /// terminated forcibly, in milliseconds.
    pub grace_period_ms: u64,
    /// Launch attempts permitted within one stability window.
    pub max_attempts: u32,
    /// Backoff delay after the first crash, in milliseconds.
    pub base_backoff_ms: u64,
    /// Upper bound on the backoff delay, in milliseconds.
    pub backoff_cap_ms: u64,
    /// How long the child must survive before the restart budget is
    /// restored, in milliseconds.
    pub stability_threshold_ms: u64,
    /// How long an unanswered readiness signal is tolerated on a
    /// once-ready child before it counts as hung, in milliseconds.
    pub hang_threshold_ms: u64,
}

impl LaunchSpec {
    /// A usable configuration: the prober and the shutdown wait must
    /// make progress each tick, their windows must be representable,
    /// and at least one launch attempt must be permitted.
    pub open spec fn wf(self) -> bool {
        &&& self.poll_interval_ms >= 1
        &&& self.readiness_timeout_ms + self.poll_interval_ms <= u64::MAX
        &&& self.grace_period_ms + self.poll_interval_ms <= u64::MAX
        &&& self.max_attempts >= 1
    }

    /// Check the configuration before the supervisor is started.
    pub fn validate(&self) -> (r: bool)
        ensures
            r == self.wf(),
    {
        self.poll_interval_ms >= 1 && self.readiness_timeout_ms <= u64::MAX
            - self.poll_interval_ms && self.grace_period_ms <= u64::MAX - self.poll_interval_ms
            && self.max_attempts >= 1
    }
}

} // verus!

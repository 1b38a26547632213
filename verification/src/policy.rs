//! Restart policy: bounded retries with capped exponential backoff.
//!
//! The budget counts launch attempts since the last stability reset. A
//! crash of a child consumes one attempt; a child that survives past the
//! stability threshold restores the full budget. A clean, requested exit
//! never triggers a restart.

use vstd::prelude::*;

verus! {

/// How the child's exit came about: asked for by the shutdown
/// coordinator, or on the child's own account.
#[derive(Clone, Copy, Debug, PartialEq, Eq, Structural)]
pub enum ExitIntent {
    /// The shutdown coordinator asked the child to stop.
    Requested,
    /// The child exited (or hung) without being asked to.
    Unexpected,
}

/// The policy's answer to a child exit.
#[derive(Clone, Copy, Debug, PartialEq, Eq, Structural)]
pub enum RestartDecision {
    /// Relaunch after the given delay in milliseconds.
    Restart(u64),
    /// The budget is exhausted: give up and surface the failure.
    GiveUp,
    /// The exit was requested: never restart.
    NoRestart,
}

/// Launch attempts spent within the current stability window.
#[derive(Clone, Copy, Debug, PartialEq, Eq, Structural)]
pub struct RestartBudget {
    /// Launch attempts permitted within one stability window.
    pub max_attempts: u32,
    /// Launch attempts spent since the last stability reset.
    pub used: u32,
}

impl RestartBudget {
    /// The budget never records more attempts than are permitted.
    pub open spec fn wf(self) -> bool {
        self.used <= self.max_attempts
    }

    /// No attempt is left: a further crash must give up.
    pub open spec fn exhausted_spec(self) -> bool {
        self.used >= self.max_attempts
    }

    pub fn new(max_attempts: u32) -> (b: RestartBudget)
        ensures
            b.max_attempts == max_attempts,
            b.used == 0,
            b.wf(),
    {
        RestartBudget { max_attempts, used: 0 }
    }

    /// Spend one attempt on a launch.
    pub fn record_launch(&mut self)
        requires
            old(self).used < old(self).max_attempts,
        ensures
            final(self).used == old(self).used + 1,
            final(self).max_attempts == old(self).max_attempts,
            final(self).wf(),
    {
        self.used = self.used + 1;
    }

    /// The child survived past the stability threshold: restore the
    /// full budget.
    pub fn record_stable(&mut self)
        ensures
            final(self).used == 0,
            final(self).max_attempts == old(self).max_attempts,
            final(self).wf(),
    {
        self.used = 0;
    }

    pub fn exhausted(&self) -> (r: bool)
        ensures
            r == self.exhausted_spec(),
    {
        self.used >= self.max_attempts
    }
}

/// Delay before the relaunch that follows the crash of launch number
/// `attempt`: the base delay, doubled for each further consecutive
/// failure, and never above the cap.
pub open spec fn backoff_spec(base: u64, cap: u64, attempt: u32) -> int
    decreases attempt,
{
    if attempt <= 1 {
        if base <= cap {
            base as int
        } else {
            cap as int
        }
    } else {
        let prev = backoff_spec(base, cap, (attempt - 1) as u32);
        if prev * 2 <= cap {
            prev * 2
        } else {
            cap as int
        }
    }
}

/// Compute the backoff delay for the given consecutive-failure count.
pub fn backoff_delay(base: u64, cap: u64, attempt: u32) -> (d: u64)
    ensures
        d as int == backoff_spec(base, cap, attempt),
        d <= cap,
{
    let count: u32 = if attempt == 0 {
        1
    } else {
        attempt
    };
    let mut d: u64 = if base <= cap {
        base
    } else {
        cap
    };
    let mut k: u32 = 1;
    while k < count
        invariant
            1 <= k <= count,
            d as int == backoff_spec(base, cap, k),
            d <= cap,
        decreases count - k,
    {
        if cap - d <= d {
            d = cap;
        } else {
            d = d + d;
        }
        k = k + 1;
    }
    assert(backoff_spec(base, cap, 0) == backoff_spec(base, cap, 1));
    d
}

/// What the policy answers when the child exits: a requested exit never
/// restarts; an unexpected one restarts with backoff while attempts
/// remain, and gives up once the budget is exhausted.
pub open spec fn decide_restart_spec(
    intent: ExitIntent,
    b: RestartBudget,
    base: u64,
    cap: u64,
) -> RestartDecision {
    match intent {
        ExitIntent::Requested => RestartDecision::NoRestart,
        ExitIntent::Unexpected => {
            if b.used < b.max_attempts {
                RestartDecision::Restart(backoff_spec(base, cap, b.used) as u64)
            } else {
                RestartDecision::GiveUp
            }
        },
    }
}

/// Decide whether to relaunch the child after an exit.
pub fn decide_restart(intent: ExitIntent, b: &RestartBudget, base: u64, cap: u64) -> (d:
    RestartDecision)
    ensures
        d == decide_restart_spec(intent, *b, base, cap),
        intent is Requested ==> d is NoRestart,
        intent is Unexpected && !b.exhausted_spec() ==> d is Restart,
        intent is Unexpected && b.exhausted_spec() ==> d is GiveUp,
{
    match intent {
        ExitIntent::Requested => RestartDecision::NoRestart,
        ExitIntent::Unexpected => {
            if b.used < b.max_attempts {
                RestartDecision::Restart(backoff_delay(base, cap, b.used))
            } else {
                RestartDecision::GiveUp
            }
        },
    }
}

/// The budget after one unexpected crash is answered: while an attempt
/// remains the relaunch spends it; an exhausted budget is left as it is.
pub open spec fn crash_round(b: RestartBudget) -> RestartBudget {
    if b.used < b.max_attempts {
        RestartBudget { max_attempts: b.max_attempts, used: (b.used + 1) as u32 }
    } else {
        b
    }
}

/// The budget after `n` consecutive unexpected crashes with no stability
/// reset in between.
pub open spec fn after_crash_rounds(b: RestartBudget, n: nat) -> RestartBudget
    decreases n,
{
    if n == 0 {
        b
    } else {
        crash_round(after_crash_rounds(b, (n - 1) as nat))
    }
}

/// The budget after a stability reset.
pub open spec fn restored(b: RestartBudget) -> RestartBudget {
    RestartBudget { max_attempts: b.max_attempts, used: 0 }
}

/// The budget after `n` rounds in each of which the child first survives
/// past the stability threshold and then crashes, and the crash is
/// answered by a relaunch.
pub open spec fn stabilize_then_crash_rounds(b: RestartBudget, n: nat) -> RestartBudget
    decreases n,
{
    if n == 0 {
        b
    } else {
        crash_round(restored(stabilize_then_crash_rounds(b, (n - 1) as nat)))
    }
}

/// Consecutive crashes with no stability reset strictly consume the
/// budget: while attempts remain every crash is answered with Restart,
/// and the crash that finds the budget exhausted — after exactly
/// `max_attempts` launches in a row have crashed — is answered with
/// GiveUp, so no further launch is attempted.
pub proof fn lemma_consecutive_crashes_exhaust(b: RestartBudget, base: u64, cap: u64, n: nat)
    requires
        b.wf(),
        n <= b.max_attempts - b.used,
    ensures
        after_crash_rounds(b, n).max_attempts == b.max_attempts,
        after_crash_rounds(b, n).used == b.used + n,
        n < b.max_attempts - b.used ==> decide_restart_spec(
            ExitIntent::Unexpected,
            after_crash_rounds(b, n),
            base,
            cap,
        ) is Restart,
        n == b.max_attempts - b.used ==> decide_restart_spec(
            ExitIntent::Unexpected,
            after_crash_rounds(b, n),
            base,
            cap,
        ) is GiveUp,
    decreases n,
{
    if n > 0 {
        lemma_consecutive_crashes_exhaust(b, base, cap, (n - 1) as nat);
    }
}

/// A child that survives past the stability threshold restores the full
/// restart budget: if every crash is preceded by a stability reset, the
/// policy answers Restart at every crash, however many rounds occur —
/// the budget is never exhausted at a decision point.
pub proof fn lemma_stability_resets_budget(b: RestartBudget, base: u64, cap: u64, n: nat)
    requires
        b.max_attempts >= 1,
    ensures
        stabilize_then_crash_rounds(b, n).max_attempts == b.max_attempts,
        n > 0 ==> stabilize_then_crash_rounds(b, n).used == 1,
        forall|k: nat|
            k < n ==> decide_restart_spec(
                ExitIntent::Unexpected,
                restored(stabilize_then_crash_rounds(b, k)),
                base,
                cap,
            ) is Restart,
    decreases n,
{
    if n > 0 {
        lemma_stability_resets_budget(b, base, cap, (n - 1) as nat);
        assert(restored(stabilize_then_crash_rounds(b, (n - 1) as nat)).used == 0);
    }
}

} // verus!

//! Health checking: how a single probe's outcome is judged against its
//! timeout, and how a cycle of probe results updates the registry, with
//! optional flap damping.
//!
//! Probing itself is network work done by the surrounding runtime; it hands
//! this module plain observations (did a reply arrive, was it good, how many
//! milliseconds have passed) and applies the verdicts this module returns.

use vstd::prelude::*;
use crate::registry::Health;
use crate::registry::Registry;

verus! {

/// The state of one probe at one instant of its wait.
#[derive(Clone, Copy, PartialEq, Eq, Structural, Debug)]
pub enum ProbeStatus {
    /// No reply yet and the timeout has not elapsed: keep waiting.
    Pending,
    /// A good reply arrived within the timeout.
    Success,
    /// A bad reply arrived, or the timeout elapsed with no reply.
    Failure,
}

/// What one finished probe of one backend yielded: success or failure, and
/// the observed latency when there was a reply to measure.
pub struct HealthCheckResult {
    pub success: bool,
    pub latency_ms: Option<u64>,
}

/// The verdict on a probe that has waited `elapsed_ms` of its `timeout_ms`
/// budget. `reply` is `None` while nothing has come back, and otherwise
/// tells whether the reply was the expected one (a completed TCP connect,
/// the expected HTTP status).
pub open spec fn probe_verdict(reply: Option<bool>, elapsed_ms: u64, timeout_ms: u64) -> ProbeStatus {
    match reply {
        Some(good) => if good && elapsed_ms <= timeout_ms {
            ProbeStatus::Success
        } else {
            ProbeStatus::Failure
        },
        None => if elapsed_ms < timeout_ms {
            ProbeStatus::Pending
        } else {
            ProbeStatus::Failure
        },
    }
}

/// Judge one probe observation. A probe that never responds stays
/// `Pending` strictly until its timeout elapses and is a `Failure` from
/// that instant on; a good reply within the timeout is a `Success`.
pub fn evaluate_probe(reply: Option<bool>, elapsed_ms: u64, timeout_ms: u64) -> (r: ProbeStatus)
    ensures
        r == probe_verdict(reply, elapsed_ms, timeout_ms),
{
    match reply {
        Some(good) => if good && elapsed_ms <= timeout_ms {
            ProbeStatus::Success
        } else {
            ProbeStatus::Failure
        },
        None => if elapsed_ms < timeout_ms {
            ProbeStatus::Pending
        } else {
            ProbeStatus::Failure
        },
    }
}

/// A silent probe is judged `Failure` exactly when its timeout has
/// elapsed: never before, and from the first such instant on — it is not
/// left pending indefinitely.
pub proof fn lemma_silent_probe_fails_at_timeout(elapsed_ms: u64, timeout_ms: u64)
    ensures
        elapsed_ms < timeout_ms ==> probe_verdict(None, elapsed_ms, timeout_ms)
            == ProbeStatus::Pending,
        elapsed_ms >= timeout_ms ==> probe_verdict(None, elapsed_ms, timeout_ms)
            == ProbeStatus::Failure,
{
}

/// Wrap a finished probe's status as the result handed to the checker.
/// Latency is reported exactly for successful probes.
pub fn finish_probe(status: ProbeStatus, elapsed_ms: u64) -> (r: HealthCheckResult)
    requires
        status != ProbeStatus::Pending,
    ensures
        r.success == (status == ProbeStatus::Success),
        r.success ==> r.latency_ms == Some(elapsed_ms),
        !r.success ==> r.latency_ms == None::<u64>,
{
    if status == ProbeStatus::Success {
        HealthCheckResult { success: true, latency_ms: Some(elapsed_ms) }
    } else {
        HealthCheckResult { success: false, latency_ms: None }
    }
}

/// The failure streak of one backend after one more probe result: a
/// success clears it, a failure lengthens it (saturating at the machine
/// limit).
pub open spec fn next_streak(streak: u64, success: bool) -> u64 {
    if success {
        0u64
    } else if streak == u64::MAX {
        streak
    } else {
        (streak + 1) as u64
    }
}

/// A backend's health after one more probe result, under flap damping with
/// the given threshold: a success is immediately `Healthy`; a failure flips
/// to `Unhealthy` only once the streak of consecutive failures has reached
/// the threshold, and leaves the status alone below it.
pub open spec fn next_health(prev: Health, streak_after: u64, success: bool, threshold: u64) -> Health {
    if success {
        Health::Healthy
    } else if streak_after >= threshold {
        Health::Unhealthy
    } else {
        prev
    }
}

/// The health checker's own state: its cadence, the probe timeout, and one
/// consecutive-failure streak per backend for flap damping. A threshold of
/// 1 is the baseline behaviour — a single failed probe flips a backend to
/// `Unhealthy`.
pub struct HealthChecker {
    /// Milliseconds between the starts of two probe cycles.
    pub interval_ms: u64,
    /// Milliseconds each single probe may take before it counts as failed.
    pub timeout_ms: u64,
    /// Consecutive failures needed to flip a backend to `Unhealthy`.
    pub fail_threshold: u64,
    /// `streaks[i]` is backend `i`'s current run of consecutive failures.
    pub streaks: Vec<u64>,
}

impl HealthChecker {
    /// A checker for a pool of `pool_len` backends, with no failures
    /// recorded yet.
    pub fn new(pool_len: usize, interval_ms: u64, timeout_ms: u64, fail_threshold: u64) -> (r:
        HealthChecker)
        requires
            fail_threshold >= 1,
        ensures
            r.interval_ms == interval_ms,
            r.timeout_ms == timeout_ms,
            r.fail_threshold == fail_threshold,
            r.streaks@.len() == pool_len,
            forall|i: int| 0 <= i < pool_len ==> r.streaks@[i] == 0u64,
    {
        let mut streaks: Vec<u64> = Vec::new();
        let mut i: usize = 0;
        while i < pool_len
            invariant
                i <= pool_len,
                streaks@.len() == i,
                forall|k: int| 0 <= k < i ==> streaks@[k] == 0u64,
            decreases pool_len - i,
        {
            streaks.push(0);
            i = i + 1;
        }
        HealthChecker { interval_ms, timeout_ms, fail_threshold, streaks }
    }

    /// Apply one full probe cycle to the registry: `results[i]` is whether
    /// backend `i`'s probe succeeded. Every backend's streak and health move
    /// by the damping rule; no address changes; no failure of one backend
    /// touches another. The call never fails: a probe failure is data here,
    /// not an error.
    pub fn apply_cycle(&mut self, registry: &mut Registry, results: &Vec<bool>)
        requires
            old(registry)@.len() == old(self).streaks@.len(),
            results@.len() == old(registry)@.len(),
        ensures
            final(self).interval_ms == old(self).interval_ms,
            final(self).timeout_ms == old(self).timeout_ms,
            final(self).fail_threshold == old(self).fail_threshold,
            final(self).streaks@.len() == old(self).streaks@.len(),
            final(registry)@.len() == old(registry)@.len(),
            forall|i: int|
                0 <= i < final(registry)@.len() ==> final(self).streaks@[i] == next_streak(
                    old(self).streaks@[i],
                    results@[i],
                ),
            forall|i: int|
                0 <= i < final(registry)@.len() ==> final(registry)@[i].addr == old(
                    registry,
                )@[i].addr,
            forall|i: int|
                0 <= i < final(registry)@.len() ==> final(registry)@[i].health == next_health(
                    old(registry)@[i].health,
                    next_streak(old(self).streaks@[i], results@[i]),
                    results@[i],
                    old(self).fail_threshold,
                ),
    {
        let mut i: usize = 0;
        while i < results.len()
            invariant
                i <= results@.len(),
                results@.len() == old(registry)@.len(),
                self.interval_ms == old(self).interval_ms,
                self.timeout_ms == old(self).timeout_ms,
                self.fail_threshold == old(self).fail_threshold,
                self.streaks@.len() == old(self).streaks@.len(),
                old(registry)@.len() == old(self).streaks@.len(),
                registry@.len() == old(registry)@.len(),
                forall|k: int| i <= k < registry@.len() ==> self.streaks@[k] == old(self).streaks@[k],
                forall|k: int| i <= k < registry@.len() ==> registry@[k] == old(registry)@[k],
                forall|k: int|
                    0 <= k < i ==> self.streaks@[k] == next_streak(
                        old(self).streaks@[k],
                        results@[k],
                    ),
                forall|k: int| 0 <= k < i ==> registry@[k].addr == old(registry)@[k].addr,
                forall|k: int|
                    0 <= k < i ==> registry@[k].health == next_health(
                        old(registry)@[k].health,
                        next_streak(old(self).streaks@[k], results@[k]),
                        results@[k],
                        old(self).fail_threshold,
                    ),
            decreases results@.len() - i,
        {
            let success = results[i];
            let streak: u64 = if success {
                0
            } else if self.streaks[i] == u64::MAX {
                u64::MAX
            } else {
                self.streaks[i] + 1
            };
            self.streaks[i] = streak;
            if success {
                registry.set_health(i, Health::Healthy);
            } else if streak >= self.fail_threshold {
                registry.set_health(i, Health::Unhealthy);
            }
            i = i + 1;
        }
    }
}

} // verus!

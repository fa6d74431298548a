//! Retry spacing for registration attempts: grows by half on each hard
//! failure, up to a cap, and returns to the base on success or reconnect.

use vstd::prelude::*;

verus! {

/// Interval before the first registration attempt, and after any reset.
pub const BASE_BACKOFF_MS: u64 = 2000;

/// Largest interval between two registration attempts.
pub const BACKOFF_CAP_MS: u64 = 60000;

/// The interval that follows `interval` after one more hard failure:
/// `min(interval * 1.5, cap)`, in whole milliseconds.
pub open spec fn escalated(interval: nat) -> nat {
    let grown = interval * 3 / 2;
    if grown < BACKOFF_CAP_MS as nat {
        grown
    } else {
        BACKOFF_CAP_MS as nat
    }
}

/// The interval after `n` consecutive hard failures starting from `interval`.
pub open spec fn escalated_times(interval: nat, n: nat) -> nat
    decreases n,
{
    if n == 0 {
        interval
    } else {
        escalated(escalated_times(interval, (n - 1) as nat))
    }
}

/// Backoff state: the current interval and the number of consecutive hard failures.
#[derive(Clone, Copy, Debug, PartialEq, Eq)]
pub struct Backoff {
    pub interval_ms: u64,
    pub attempts: u32,
}

impl Backoff {
    pub open spec fn wf(&self) -> bool {
        BASE_BACKOFF_MS <= self.interval_ms <= BACKOFF_CAP_MS
    }

    /// The initial state: base interval, no failures counted.
    pub fn new() -> (b: Backoff)
        ensures
            b.wf(),
            b.interval_ms == BASE_BACKOFF_MS,
            b.attempts == 0,
    {
        Backoff { interval_ms: BASE_BACKOFF_MS, attempts: 0 }
    }

    /// Records one hard failure: one more attempt counted (saturating), interval escalated.
    pub fn escalate(&mut self)
        requires
            old(self).wf(),
        ensures
            final(self).wf(),
            final(self).interval_ms == escalated(old(self).interval_ms as nat),
            final(self).attempts == (if old(self).attempts < u32::MAX {
                old(self).attempts + 1
            } else {
                old(self).attempts as int
            }),
    {
        let grown = self.interval_ms / 2 * 3 + (self.interval_ms % 2) * 3 / 2;
        assert(grown == self.interval_ms * 3 / 2);
        self.interval_ms = if grown < BACKOFF_CAP_MS {
            grown
        } else {
            BACKOFF_CAP_MS
        };
        if self.attempts < u32::MAX {
            self.attempts = self.attempts + 1;
        }
    }

    /// Returns the interval to the base; the attempt counter is left as it is.
    pub fn reset_interval(&mut self)
        ensures
            final(self).wf(),
            final(self).interval_ms == BASE_BACKOFF_MS,
            final(self).attempts == old(self).attempts,
    {
        self.interval_ms = BASE_BACKOFF_MS;
    }

    /// Returns the interval to the base and clears the attempt counter.
    pub fn reset(&mut self)
        ensures
            final(self).wf(),
            final(self).interval_ms == BASE_BACKOFF_MS,
            final(self).attempts == 0,
    {
        self.interval_ms = BASE_BACKOFF_MS;
        self.attempts = 0;
    }
}

/// One escalation never shrinks an interval that lies in the allowed range,
/// and never leaves that range.
pub proof fn lemma_escalated_grows(interval: nat)
    requires
        BASE_BACKOFF_MS <= interval <= BACKOFF_CAP_MS,
    ensures
        interval <= escalated(interval) <= BACKOFF_CAP_MS,
        BASE_BACKOFF_MS <= escalated(interval),
{
}

/// Over any run of consecutive hard failures the interval is non-decreasing
/// and bounded by the cap: after `m` failures it is at most what it is after
/// `n >= m` failures, which is at most the cap.
pub proof fn lemma_backoff_monotone(interval: nat, m: nat, n: nat)
    requires
        BASE_BACKOFF_MS <= interval <= BACKOFF_CAP_MS,
        m <= n,
    ensures
        BASE_BACKOFF_MS <= escalated_times(interval, m),
        escalated_times(interval, m) <= escalated_times(interval, n) <= BACKOFF_CAP_MS,
    decreases n,
{
    if n > m {
        lemma_backoff_monotone(interval, m, (n - 1) as nat);
        lemma_escalated_grows(escalated_times(interval, (n - 1) as nat));
    } else if n > 0 {
        lemma_backoff_monotone(interval, (n - 1) as nat, (n - 1) as nat);
        lemma_escalated_grows(escalated_times(interval, (n - 1) as nat));
    }
}

} // verus!

//! A repeating countdown timer driven by elapsed milliseconds.

use vstd::prelude::*;

verus! {

/// A repeating timer: it fires each time the accumulated time reaches its
/// duration, and keeps the remainder towards the next period. A timer of
/// duration zero fires on every tick.
pub struct RepeatingTimer {
    pub duration_ms: u64,
    pub elapsed_ms: u64,
}

/// Elapsed time after `delta` more milliseconds on a timer of period `duration`.
pub open spec fn elapsed_after(duration: nat, elapsed: nat, delta: nat) -> nat {
    if duration == 0 {
        0
    } else {
        ((elapsed + delta) as int % (duration as int)) as nat
    }
}

impl RepeatingTimer {
    pub open spec fn wf(&self) -> bool {
        &&& self.duration_ms == 0 ==> self.elapsed_ms == 0
        &&& self.duration_ms > 0 ==> self.elapsed_ms < self.duration_ms
    }

    /// A timer of the given period with no time accumulated yet.
    pub fn new(duration_ms: u64) -> (t: RepeatingTimer)
        ensures
            t.wf(),
            t.duration_ms == duration_ms,
            t.elapsed_ms == 0,
    {
        RepeatingTimer { duration_ms, elapsed_ms: 0 }
    }

    /// Advances the timer by `delta_ms`; returns whether it fired during this tick.
    pub fn tick(&mut self, delta_ms: u64) -> (fired: bool)
        requires
            old(self).wf(),
        ensures
            final(self).wf(),
            final(self).duration_ms == old(self).duration_ms,
            fired == (old(self).elapsed_ms + delta_ms >= old(self).duration_ms),
            final(self).elapsed_ms == elapsed_after(
                old(self).duration_ms as nat,
                old(self).elapsed_ms as nat,
                delta_ms as nat,
            ),
    {
        if self.duration_ms == 0 {
            return true;
        }
        let room = self.duration_ms - self.elapsed_ms;
        if delta_ms >= room {
            let rest = (delta_ms - room) % self.duration_ms;
            proof {
                let d = self.duration_ms as int;
                let e = self.elapsed_ms as int;
                let x = delta_ms as int;
                assert((e + x) % d == (x - (d - e)) % d) by {
                    vstd::arithmetic::div_mod::lemma_mod_add_multiples_vanish(x - (d - e), d);
                }
            }
            self.elapsed_ms = rest;
            true
        } else {
            self.elapsed_ms = self.elapsed_ms + delta_ms;
            proof {
                vstd::arithmetic::div_mod::lemma_small_mod(
                    (old(self).elapsed_ms + delta_ms) as nat,
                    self.duration_ms as nat,
                );
            }
            false
        }
    }

    /// Clears the accumulated time.
    pub fn reset(&mut self)
        requires
            old(self).wf(),
        ensures
            final(self).wf(),
            final(self).duration_ms == old(self).duration_ms,
            final(self).elapsed_ms == 0,
    {
        self.elapsed_ms = 0;
    }

    /// Changes the period and clears the accumulated time.
    pub fn restart_with(&mut self, duration_ms: u64)
        ensures
            final(self).wf(),
            final(self).duration_ms == duration_ms,
            final(self).elapsed_ms == 0,
    {
        self.duration_ms = duration_ms;
        self.elapsed_ms = 0;
    }
}

} // verus!

//! Fixed-period tick timers: an elapsed-time accumulator that fires
//! each time it reaches its period, keeping the remainder.

use vstd::prelude::*;

verus! {

/// A repeating timer.  `elapsed_ms` accumulates frame time; when it
/// reaches `period_ms` the timer fires and keeps the remainder.
#[derive(Clone, Copy, PartialEq, Eq, Structural, Debug)]
pub struct TickTimer {
    pub period_ms: u64,
    pub elapsed_ms: u64,
}

impl TickTimer {
    /// A positive period, with the accumulator strictly below it.
    pub open spec fn wf(self) -> bool {
        self.period_ms >= 1 && self.elapsed_ms < self.period_ms
    }

    /// Whether adding `delta_ms` of frame time makes the timer fire.
    pub open spec fn fires(self, delta_ms: u64) -> bool {
        self.elapsed_ms + delta_ms >= self.period_ms
    }

    /// A fresh, just-armed timer.
    pub fn new(period_ms: u64) -> (t: TickTimer)
        requires
            period_ms >= 1,
        ensures
            t.wf(),
            t == (TickTimer { period_ms, elapsed_ms: 0 }),
    {
        TickTimer { period_ms, elapsed_ms: 0 }
    }

    /// Advance the accumulator by `delta_ms`; report whether the
    /// period elapsed, and on firing keep the remainder.
    pub fn tick(&mut self, delta_ms: u64) -> (fired: bool)
        requires
            old(self).wf(),
            old(self).elapsed_ms + delta_ms <= u64::MAX,
        ensures
            final(self).wf(),
            final(self).period_ms == old(self).period_ms,
            fired == old(self).fires(delta_ms),
            fired ==> final(self).elapsed_ms
                == (old(self).elapsed_ms + delta_ms) % (old(self).period_ms as int),
            !fired ==> final(self).elapsed_ms == old(self).elapsed_ms + delta_ms,
    {
        let total = self.elapsed_ms + delta_ms;
        if total >= self.period_ms {
            self.elapsed_ms = total % self.period_ms;
            true
        } else {
            self.elapsed_ms = total;
            false
        }
    }
}

} // verus!

//! Monotonic countdown timers gating the polling loop.

use vstd::prelude::*;

verus! {

/// A monotonic countdown timer: it fires once when polled at or past its
/// deadline and immediately restarts with the same period, measured from
/// the firing time rather than from the missed deadline (no drift
/// compensation).
pub struct CountdownTimer {
    /// The restart period, in the caller's time unit.
    pub period: u64,
    /// The instant at or after which the next poll fires.
    pub deadline: u64,
}

impl CountdownTimer {
    /// Starts a timer that will first fire `period` after `now`.
    pub fn new(period: u64, now: u64) -> (timer: CountdownTimer)
        requires
            now + period <= u64::MAX,
        ensures
            timer.period == period,
            timer.deadline == now + period,
    {
        CountdownTimer { period, deadline: now + period }
    }

    /// Polls the timer at instant `now`: fires exactly when the deadline has
    /// been reached, and then restarts relative to `now`; otherwise leaves
    /// the timer untouched.
    pub fn poll(&mut self, now: u64) -> (fired: bool)
        requires
            now + old(self).period <= u64::MAX,
        ensures
            fired == (now >= old(self).deadline),
            final(self).period == old(self).period,
            fired ==> final(self).deadline == now + old(self).period,
            !fired ==> final(self).deadline == old(self).deadline,
    {
        if now >= self.deadline {
            self.deadline = now + self.period;
            true
        } else {
            false
        }
    }
}

} // verus!

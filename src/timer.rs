//! A repeating timer driven by explicit elapsed-time ticks.
use vstd::prelude::*;

verus! {

/// A timer that fires each time the accumulated time reaches its interval and
/// keeps the remainder. Times are in nanoseconds.
pub struct RepeatingTimer {
    interval: u64,
    elapsed: u64,
    finished: bool,
}

impl RepeatingTimer {
    pub closed spec fn spec_interval(&self) -> int {
        self.interval as int
    }

    pub closed spec fn spec_elapsed(&self) -> int {
        self.elapsed as int
    }

    pub closed spec fn spec_finished(&self) -> bool {
        self.finished
    }

    /// The interval is positive and the accumulated time stays below it.
    pub closed spec fn wf(&self) -> bool {
        self.interval > 0 && self.elapsed < self.interval
    }

    /// A timer with the given interval that has accumulated nothing.
    pub fn new(interval: u64) -> (r: RepeatingTimer)
        requires
            interval > 0,
        ensures
            r.wf(),
            r.spec_interval() == interval,
            r.spec_elapsed() == 0,
            !r.spec_finished(),
    {
        RepeatingTimer { interval, elapsed: 0, finished: false }
    }

    /// Advance by `delta`; the timer has finished this tick when the
    /// accumulated time reached the interval.
    pub fn tick(&mut self, delta: u64)
        requires
            old(self).wf(),
        ensures
            final(self).wf(),
            final(self).spec_interval() == old(self).spec_interval(),
            final(self).spec_finished() == (old(self).spec_elapsed() + delta
                >= old(self).spec_interval()),
            final(self).spec_elapsed() == (old(self).spec_elapsed() + delta) % old(
                self,
            ).spec_interval(),
    {
        let total: u128 = self.elapsed as u128 + delta as u128;
        let rest: u128 = total % (self.interval as u128);
        self.finished = total >= self.interval as u128;
        self.elapsed = rest as u64;
    }

    /// Whether the last tick reached the interval.
    pub fn is_finished(&self) -> (r: bool)
        ensures
            r == self.spec_finished(),
    {
        self.finished
    }

    pub fn interval(&self) -> (r: u64)
        ensures
            r == self.spec_interval(),
    {
        self.interval
    }

    pub fn elapsed(&self) -> (r: u64)
        ensures
            r == self.spec_elapsed(),
    {
        self.elapsed
    }
}

} // verus!

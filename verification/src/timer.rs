//! The interval timer that paces the host's clock.
//!
//! The timer itself reads no clock and calls nothing: the host reads its
//! clock, asks the timer whether the interval has come round, and acts.

use vstd::prelude::*;

verus! {

/// A timer that is due every `interval` milliseconds.
pub struct Timer(u128);

impl Timer {
    /// The interval in milliseconds, in contracts.
    pub closed spec fn interval(self) -> u128 {
        self.0
    }

    /// A timer with the given interval.
    pub fn new(interval_ms: u128) -> (timer: Timer)
        ensures
            timer.interval() == interval_ms,
    {
        Timer(interval_ms)
    }

    /// The interval in milliseconds.
    pub fn interval_ms(&self) -> (interval: u128)
        ensures
            interval == self.interval(),
    {
        self.0
    }

    /// One pass of the timer: whether the callback is due when the clock
    /// shows `elapsed_ms`. It is due at every whole multiple of the interval.
    /// A timer with interval zero is never to be run.
    pub fn run(&self, elapsed_ms: u128) -> (due: bool)
        requires
            self.interval() != 0,
        ensures
            due == (elapsed_ms % self.interval() == 0),
    {
        (elapsed_ms % self.0) == 0
    }
}

} // verus!

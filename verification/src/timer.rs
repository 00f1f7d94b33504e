//! A deadline timer over milliseconds of simulated time: one-shot when a
//! target is set by hand, repeating when advanced by a fixed interval.

use vstd::prelude::*;

verus! {

/// A deadline in simulated milliseconds, with an optional repeat interval.
#[derive(Clone, Copy, Debug, PartialEq, Eq, Structural)]
pub struct Timer {
    /// The instant the timer fires.
    pub target: u64,
    /// The period `next_if_done` advances by.
    pub interval: u64,
    /// A disabled timer never reads as ready.
    pub enabled: bool,
}

impl Timer {
    /// A disabled timer with no deadline.
    pub fn disabled() -> (r: Timer)
        ensures
            r == (Timer { target: 0u64, interval: 0u64, enabled: false }),
    {
        Timer { target: 0, interval: 0, enabled: false }
    }

    /// A repeating timer with the given period, due at once.
    pub fn new(interval: u64) -> (r: Timer)
        ensures
            r == (Timer { target: 0u64, interval, enabled: true }),
    {
        Timer { target: 0, interval, enabled: true }
    }

    /// Arms the timer to fire at `target`.
    pub fn set(&mut self, target: u64)
        ensures
            *final(self) == (Timer { target, interval: old(self).interval, enabled: true }),
    {
        self.target = target;
        self.enabled = true;
    }

    /// Disarms the timer; the deadline is kept but stops counting.
    pub fn disable(&mut self)
        ensures
            *final(self) == (Timer { enabled: false, ..*old(self) }),
    {
        self.enabled = false;
    }

    /// Whether the timer is armed.
    pub fn is_enabled(&self) -> (r: bool)
        ensures
            r == self.enabled,
    {
        self.enabled
    }

    /// Whether the timer is armed and its deadline has come.
    pub fn is_ready_and_enabled(&self, now: u64) -> (r: bool)
        ensures
            r == (self.enabled && now >= self.target),
    {
        self.enabled && now >= self.target
    }

    /// If the timer is armed and due, pushes the deadline one interval past
    /// `now` and reports true; otherwise leaves the timer alone.
    pub fn next_if_done(&mut self, now: u64) -> (r: bool)
        requires
            now <= 1_000_000_000_000,
            old(self).interval <= 1_000_000_000,
        ensures
            r == (old(self).enabled && now >= old(self).target),
            r ==> *final(self) == (Timer {
                target: (now + old(self).interval) as u64,
                ..*old(self)
            }),
            !r ==> *final(self) == *old(self),
    {
        if self.enabled && now >= self.target {
            self.target = now + self.interval;
            true
        } else {
            false
        }
    }
}

} // verus!

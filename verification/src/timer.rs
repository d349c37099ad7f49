//! Timers over the millisecond clock of the controller.
//!
//! A timer is a pair of plain instants; the current time enters every
//! query as an argument, read from the hardware clock by the caller.
//! Deadlines built this way feed the scheduler's `WaitUntil` state.

use vstd::prelude::*;

verus! {

/// A basic timer: a start instant and an end instant, in milliseconds.
#[derive(Copy, Clone, Debug, PartialEq, Eq, Structural)]
pub struct Timer {
    /// When the timer ends.
    ends: u32,
    /// When the timer started.
    starts: u32,
}

impl Timer {
    /// The instant the timer was started at.
    pub closed spec fn start_time(self) -> u32 {
        self.starts
    }

    /// The instant the timer ends at.
    pub closed spec fn end_time(self) -> u32 {
        self.ends
    }

    /// A timer never ends before it starts.
    pub open spec fn wf(self) -> bool {
        self.start_time() <= self.end_time()
    }

    /// Creates a timer that lasts `t` milliseconds from `now`.
    pub fn new(t: u32, now: u32) -> (r: Timer)
        requires
            now + t <= u32::MAX,
        ensures
            r.wf(),
            r.start_time() == now,
            r.end_time() == now + t,
    {
        Timer { starts: now, ends: now + t }
    }

    /// Creates a timer that lasts until the instant `t`, which must not
    /// lie in the past.
    pub fn new_until(t: u32, now: u32) -> (r: Timer)
        requires
            now <= t,
        ensures
            r.wf(),
            r.start_time() == now,
            r.end_time() == t,
    {
        Timer { starts: now, ends: t }
    }

    /// Whether the timer has elapsed at the instant `now`.
    pub fn is_elapsed(&self, now: u32) -> (r: bool)
        ensures
            r == (now >= self.end_time()),
    {
        now >= self.ends
    }

    /// The instant the timer ends at.
    pub fn get_end_time(&self) -> (r: u32)
        ensures
            r == self.end_time(),
    {
        self.ends
    }

    /// The instant the timer was started at.
    pub fn get_start_time(&self) -> (r: u32)
        ensures
            r == self.start_time(),
    {
        self.starts
    }

    /// How much longer until the timer ends: zero once it has elapsed.
    pub fn get_remaining(&self, now: u32) -> (r: u32)
        ensures
            r == if now >= self.end_time() {
                0int
            } else {
                self.end_time() - now
            },
    {
        if self.is_elapsed(now) {
            0
        } else {
            self.ends - now
        }
    }

    /// How much time has elapsed: the full span once the timer has ended,
    /// and the time since the start before that.
    pub fn get_elapsed(&self, now: u32) -> (r: u32)
        requires
            self.wf(),
            now >= self.start_time(),
        ensures
            r == if now >= self.end_time() {
                self.end_time() - self.start_time()
            } else {
                now - self.start_time()
            },
    {
        if self.is_elapsed(now) {
            self.ends - self.starts
        } else {
            now - self.starts
        }
    }
}

} // verus!

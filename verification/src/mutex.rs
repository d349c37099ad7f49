//! A cooperative mutex built entirely on top of the scheduler.
//!
//! The lock contains no busy wait beyond cooperative yielding: a task that
//! finds the lock taken enqueues itself and sleeps until the release wakes
//! it.  Waiters are queued first-in first-out, and a release hands the
//! processor to the woken waiter at once, so the hand-off latency is a
//! single scheduler step.
//!
//! A blocked `acquire` is a suspension point: the call enqueues the task,
//! puts it to sleep and returns without the guard.  Once a release has
//! switched back into the task, `resume_acquire` finishes the protocol —
//! in the running system the two calls are the two halves of one blocking
//! acquire, separated by the context switch.

use std::collections::VecDeque;
use vstd::prelude::*;
use crate::runtime::{Runtime, yield_transition, wake_transition, MAX_TASKS};
use crate::task::{TaskState, WakeSignal};

verus! {

/// The waiter a release wakes: the task at the front of the queue, the one
/// that has waited longest.
pub open spec fn wake_target(waiters: Seq<usize>) -> Option<usize> {
    if waiters.len() == 0 {
        None
    } else {
        Some(waiters[0])
    }
}

/// A token witnessing that its holder took the lock.  Only an acquire
/// constructs one, and a release consumes it; the release must be invoked
/// exactly once on every exit path, which the process-wide wrapper around
/// this crate does by dropping the token in a scope guard.
pub struct MutexGuard {
    owner: usize,
}

impl MutexGuard {
    /// The id of the task that acquired the lock.
    pub closed spec fn task(self) -> int {
        self.owner as int
    }
}

/// A basic cooperative mutex protecting a value of type `T`.
pub struct Mutex<T> {
    /// Whether the lock is currently taken.
    lock: bool,
    /// The tasks waiting on the lock, oldest first.
    queue: VecDeque<usize>,
    /// The protected value.
    data: T,
    /// The task holding the guard, tracked for the mutual-exclusion
    /// argument; the lock flag is set exactly while some task holds it.
    owner: Ghost<Option<int>>,
}

impl<T> Mutex<T> {
    /// Whether the lock is currently taken.
    pub closed spec fn locked(self) -> bool {
        self.lock
    }

    /// The queue of waiting task ids, oldest first.
    pub closed spec fn waiters(self) -> Seq<usize> {
        self.queue@
    }

    /// The protected value.
    pub closed spec fn contents(self) -> T {
        self.data
    }

    /// The task currently holding the guard, if any.
    pub closed spec fn holder(self) -> Option<int> {
        self.owner@
    }

    /// True while task `t` holds a live guard of this mutex.
    pub open spec fn holds(self, t: int) -> bool {
        self.holder() == Some(t)
    }

    /// The lock invariant: the flag is set exactly while some task holds
    /// the guard.
    pub open spec fn wf(self) -> bool {
        self.locked() <==> self.holder() is Some
    }

    /// Creates a new, unlocked mutex around `data`.
    pub fn new(data: T) -> (m: Mutex<T>)
        ensures
            m.wf(),
            !m.locked(),
            m.waiters() == Seq::<usize>::empty(),
            m.contents() == data,
    {
        Mutex { lock: false, queue: VecDeque::new(), data, owner: Ghost(None) }
    }

    /// Whether the lock is currently taken.
    pub fn is_taken(&self) -> (r: bool)
        ensures
            r == self.locked(),
    {
        self.lock
    }

    /// Attempts to take the lock for the current task.  When the lock is
    /// free and nobody is queued, the fast path takes it without yielding
    /// and returns the guard.  Otherwise the task enqueues itself at the
    /// back of the queue and sleeps until the release signal; the call
    /// then returns nothing, and `resume_acquire` completes the protocol
    /// once the task runs again.
    pub fn acquire(&mut self, rt: &mut Runtime, now: u32) -> (r: Option<MutexGuard>)
        requires
            old(self).wf(),
            old(rt).wf(),
        ensures
            final(self).wf(),
            final(rt).wf(),
            final(self).contents() == old(self).contents(),
            (r is Some) == (!old(self).locked() && old(self).waiters().len() == 0),
            r is Some ==> {
                &&& final(self).locked()
                &&& final(self).holds(old(rt).current_id())
                &&& r->0.task() == old(rt).current_id()
                &&& final(self).waiters() == old(self).waiters()
                &&& *final(rt) == *old(rt)
            },
            r is None ==> {
                &&& final(self).locked() == old(self).locked()
                &&& final(self).holder() == old(self).holder()
                &&& final(self).waiters() == old(self).waiters().push(
                    old(rt).current_id() as usize,
                )
                &&& yield_transition(
                    *old(rt),
                    *final(rt),
                    TaskState::AwaitWake(WakeSignal::MutexRelease),
                    now,
                )
            },
    {
        if !self.lock && self.queue.len() == 0 {
            self.lock = true;
            proof {
                self.owner@ = Some(rt.current_id());
            }
            return Some(MutexGuard { owner: rt.current_task() });
        }
        let id = rt.current_task();
        self.queue.push_back(id);
        rt.await_wake(WakeSignal::MutexRelease, now);
        None
    }

    /// The continuation of a blocked `acquire`, run once the task has been
    /// woken: the release already removed the task from the queue, so if
    /// the lock is free the task takes it and the guard is returned.
    /// Should the lock be observed taken after all, the task goes back to
    /// sleep awaiting one more release signal.
    pub fn resume_acquire(&mut self, rt: &mut Runtime, now: u32) -> (r: Option<MutexGuard>)
        requires
            old(self).wf(),
            old(rt).wf(),
        ensures
            final(self).wf(),
            final(rt).wf(),
            final(self).contents() == old(self).contents(),
            final(self).waiters() == old(self).waiters(),
            (r is Some) == !old(self).locked(),
            r is Some ==> {
                &&& final(self).locked()
                &&& final(self).holds(old(rt).current_id())
                &&& r->0.task() == old(rt).current_id()
                &&& *final(rt) == *old(rt)
            },
            r is None ==> {
                &&& final(self).locked()
                &&& final(self).holder() == old(self).holder()
                &&& yield_transition(
                    *old(rt),
                    *final(rt),
                    TaskState::AwaitWake(WakeSignal::MutexRelease),
                    now,
                )
            },
    {
        if self.lock {
            rt.await_wake(WakeSignal::MutexRelease, now);
            return None;
        }
        self.lock = true;
        proof {
            self.owner@ = Some(rt.current_id());
        }
        Some(MutexGuard { owner: rt.current_task() })
    }

    /// Releases the lock, consuming the guard.  The lock is cleared; then,
    /// when the queue is not empty, the waiter that has waited longest is
    /// popped and woken, which switches into it at once.  A popped waiter
    /// that no longer awaits the release signal (it was killed meanwhile)
    /// is dropped silently and nothing else changes.
    pub fn release(&mut self, guard: MutexGuard, rt: &mut Runtime)
        requires
            old(self).wf(),
            old(rt).wf(),
            old(self).holds(guard.task()),
        ensures
            final(self).wf(),
            final(rt).wf(),
            !final(self).locked(),
            final(self).holder() is None,
            final(self).contents() == old(self).contents(),
            match wake_target(old(self).waiters()) {
                None => final(self).waiters() == old(self).waiters() && *final(rt) == *old(rt),
                Some(w) => {
                    &&& final(self).waiters() == old(self).waiters().drop_first()
                    &&& if w < MAX_TASKS && old(rt).states()[w as int] == TaskState::AwaitWake(
                        WakeSignal::MutexRelease,
                    ) {
                        wake_transition(*old(rt), *final(rt), w as int)
                    } else {
                        *final(rt) == *old(rt)
                    }
                },
            },
    {
        let _ = guard;
        self.lock = false;
        proof {
            self.owner@ = None;
        }
        let next = self.queue.pop_front();
        match next {
            Some(id) => {
                rt.wake(id, WakeSignal::MutexRelease);
                proof {
                    assert(final(self).waiters() =~= old(self).waiters().drop_first());
                }
            },
            None => {},
        }
    }

    /// Shared access to the protected value, permitted while the caller's
    /// task holds the guard.
    pub fn get<'a>(&'a self, guard: &MutexGuard) -> (r: &'a T)
        requires
            self.wf(),
            self.holds(guard.task()),
        ensures
            r == self.contents(),
    {
        let _ = guard;
        &self.data
    }

    /// Swaps the protected value for `v`, returning the previous one;
    /// permitted while the caller's task holds the guard.
    pub fn replace(&mut self, guard: &MutexGuard, v: T) -> (r: T)
        requires
            old(self).wf(),
            old(self).holds(guard.task()),
        ensures
            final(self).wf(),
            r == old(self).contents(),
            final(self).contents() == v,
            final(self).locked() == old(self).locked(),
            final(self).holder() == old(self).holder(),
            final(self).waiters() == old(self).waiters(),
    {
        let _ = guard;
        let mut v = v;
        core::mem::swap(&mut self.data, &mut v);
        v
    }
}

impl<T: Default> Default for Mutex<T> {
    /// An unlocked mutex around the default value of the payload type.
    fn default() -> (m: Mutex<T>)
        ensures
            m.wf(),
            !m.locked(),
            m.waiters() == Seq::<usize>::empty(),
    {
        Mutex::new(T::default())
    }
}

/// Mutual exclusion: the lock records at most one holder, and a guard is
/// live exactly while the lock records its owner, so for any two tasks
/// holding a live guard of the same mutex at the same instant the tasks
/// are one and the same.
pub proof fn lemma_mutual_exclusion<T>(m: Mutex<T>, t1: int, t2: int)
    requires
        m.holds(t1),
        m.holds(t2),
    ensures
        t1 == t2,
{
}

/// While a guard is live no acquire succeeds: the fast path demands the
/// lock free, so every attempt by another task only joins the queue until
/// the holder releases.
pub proof fn lemma_acquire_fails_while_held<T>(m: Mutex<T>, t: int)
    requires
        m.wf(),
        m.holds(t),
    ensures
        m.locked(),
        !(!m.locked() && m.waiters().len() == 0),
{
}

/// First-in first-out fairness: when `t1` and then `t2` block on the same
/// mutex, the queue holds `t1` ahead of `t2`; the next release wakes `t1`,
/// and only a release after that reaches `t2`.
pub proof fn lemma_fifo_wake_order(waiters: Seq<usize>, t1: usize, t2: usize)
    requires
        waiters.len() >= 2,
        waiters[0] == t1,
        waiters[1] == t2,
        t1 != t2,
    ensures
        wake_target(waiters) == Some(t1),
        wake_target(waiters) != Some(t2),
        wake_target(waiters.drop_first()) == Some(t2),
{
}

} // verus!

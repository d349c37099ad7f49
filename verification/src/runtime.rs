//! The scheduler: a round-robin runtime over a fixed pool of tasks.
//!
//! The runtime owns a bounded table of tasks and the index of the running
//! one.  Scheduling is strictly cooperative: a task leaves the processor
//! only by yielding, and the scheduler then scans forward from the next
//! slot, wrapping around, for the first task that is ready or whose
//! deadline has elapsed.  Every operation is a single explicit transition
//! with an exact contract; the machine-level register save and restore is
//! the one primitive left outside the model, and it neither reads nor
//! changes any state described here.
//!
//! Slot zero belongs to the supervising task: it is created running and no
//! kill operation accepts it.

use vstd::prelude::*;
use crate::task::{Task, TaskContext, TaskState, WakeSignal};

verus! {

/// Number of slots in the task table; the pool is never resized.
pub const MAX_TASKS: usize = 8;

/// A task state counts as runnable at time `now` when the scheduler's scan
/// may select it: it is ready, or it is sleeping and its deadline has been
/// reached (such a task is promoted as part of being selected).
pub open spec fn runnable(s: TaskState, now: u32) -> bool {
    ||| s == TaskState::Ready
    ||| (s matches TaskState::WaitUntil(d) && now >= d)
}

/// A task state counts as waiting at time `now` when it is sleeping and its
/// deadline has not been reached yet.
pub open spec fn waiting(s: TaskState, now: u32) -> bool {
    s matches TaskState::WaitUntil(d) && now < d
}

/// The scan order of the round-robin scheduler: starting just after
/// `current` and wrapping, the first slot among the `k`-th through `last`-th
/// successors whose state satisfies `pred`, if any.
pub open spec fn scan_from(
    states: Seq<TaskState>,
    current: int,
    pred: spec_fn(TaskState) -> bool,
    k: int,
    last: int,
) -> Option<int>
    decreases last + 1 - k,
{
    if k < 1 || k > last || states.len() == 0 {
        None
    } else {
        let i = (current + k) % (states.len() as int);
        if pred(states[i]) {
            Some(i)
        } else {
            scan_from(states, current, pred, k + 1, last)
        }
    }
}

/// What a scan returns always satisfies its predicate and is a valid slot.
pub proof fn lemma_scan_hit(
    states: Seq<TaskState>,
    current: int,
    pred: spec_fn(TaskState) -> bool,
    k: int,
    last: int,
)
    requires
        current >= 0,
        scan_from(states, current, pred, k, last) is Some,
    ensures
        ({
            let i = scan_from(states, current, pred, k, last)->0;
            0 <= i < states.len() && pred(states[i])
        }),
    decreases last + 1 - k,
{
    if !(k < 1 || k > last || states.len() == 0) {
        let i = (current + k) % (states.len() as int);
        if pred(states[i]) {
        } else {
            lemma_scan_hit(states, current, pred, k + 1, last);
        }
    }
}

/// When the predicate holds at the `k0`-th successor of `current`, a scan
/// that starts at or before `k0` finds a slot.
pub proof fn lemma_scan_finds_some(
    states: Seq<TaskState>,
    current: int,
    pred: spec_fn(TaskState) -> bool,
    k: int,
    k0: int,
    last: int,
)
    requires
        states.len() > 0,
        1 <= k <= k0 <= last,
        pred(states[(current + k0) % (states.len() as int)]),
    ensures
        scan_from(states, current, pred, k, last) is Some,
    decreases k0 - k,
{
    if k < k0 {
        if pred(states[(current + k) % (states.len() as int)]) {
        } else {
            lemma_scan_finds_some(states, current, pred, k + 1, k0, last);
        }
    }
}

/// When the predicate fails everywhere but possibly at the `k0`-th
/// successor, the scan can only return that slot.
pub proof fn lemma_scan_unique(
    states: Seq<TaskState>,
    current: int,
    pred: spec_fn(TaskState) -> bool,
    k: int,
    k0: int,
    last: int,
)
    requires
        states.len() > 0,
        current >= 0,
        1 <= k <= k0 <= last,
        forall|j: int|
            k <= j <= last && j != k0 ==> !pred(
                #[trigger] states[(current + j) % (states.len() as int)],
            ),
        pred(states[(current + k0) % (states.len() as int)]),
    ensures
        scan_from(states, current, pred, k, last) == Some(
            (current + k0) % (states.len() as int),
        ),
    decreases k0 - k,
{
    if k < k0 {
        assert(!pred(states[(current + k) % (states.len() as int)]));
        lemma_scan_unique(states, current, pred, k + 1, k0, last);
    }
}

/// The predicate the yield scan uses at time `now`.
pub open spec fn runnable_pred(now: u32) -> spec_fn(TaskState) -> bool {
    |s: TaskState| runnable(s, now)
}

/// The predicate the spawn scan uses.
pub open spec fn available_pred() -> spec_fn(TaskState) -> bool {
    |s: TaskState| s == TaskState::Available
}

/// The slot the scheduler switches to when the current task yields: the
/// first runnable slot among the `MAX_TASKS` successors of `current` in
/// cyclic order (the scan comes back around to `current` itself last).
pub open spec fn next_runnable(states: Seq<TaskState>, current: int, now: u32) -> Option<int> {
    scan_from(states, current, runnable_pred(now), 1, MAX_TASKS as int)
}

/// The slot a spawn reuses: the first available slot strictly between
/// `current` and its wrap-around back to `current`.
pub open spec fn next_available(states: Seq<TaskState>, current: int) -> Option<int> {
    scan_from(states, current, available_pred(), 1, MAX_TASKS as int - 1)
}

/// The transition a yield performs: the current task is first marked with
/// `new_state`; then, if the scan finds a runnable slot, that slot becomes
/// the running task, and otherwise nothing further changes and the call is
/// a no-op apart from the marking.
pub open spec fn yield_transition(pre: Runtime, post: Runtime, new_state: TaskState, now: u32) -> bool {
    let marked = pre.states().update(pre.current_id(), new_state);
    &&& states_only_transition(pre.table(), post.table())
    &&& match next_runnable(marked, pre.current_id(), now) {
        Some(n) => post.current_id() == n && post.states() == marked.update(n, TaskState::Running),
        None => post.current_id() == pre.current_id() && post.states() == marked,
    }
}

/// The transition a successful wake performs: the caller is suspended as
/// ready and the woken task becomes the running one at once.
pub open spec fn wake_transition(pre: Runtime, post: Runtime, id: int) -> bool {
    &&& states_only_transition(pre.table(), post.table())
    &&& post.current_id() == id
    &&& post.states() == pre.states().update(pre.current_id(), TaskState::Ready).update(
        id,
        TaskState::Running,
    )
}

/// Two tasks that may differ in their lifecycle state but in nothing else.
pub open spec fn same_task_but_state(a: Task, b: Task) -> bool {
    &&& a.id == b.id
    &&& a.stack == b.stack
    &&& a.context == b.context
}

/// A table transition that touches only lifecycle states: every slot keeps
/// its identity, stack and saved context.
pub open spec fn states_only_transition(pre: Seq<Task>, post: Seq<Task>) -> bool {
    &&& post.len() == pre.len()
    &&& forall|i: int|
        0 <= i < pre.len() ==> same_task_but_state(#[trigger] pre[i], #[trigger] post[i])
}

/// Deadline promotion, first half: a task sleeping until `d` is never
/// selected by the scheduler's scan while the clock has not reached `d`.
pub proof fn lemma_deadline_respected(
    states: Seq<TaskState>,
    current: int,
    now: u32,
    i: int,
    d: u32,
)
    requires
        states.len() == MAX_TASKS,
        0 <= current < MAX_TASKS as int,
        0 <= i < MAX_TASKS as int,
        states[i] == TaskState::WaitUntil(d),
        now < d,
    ensures
        next_runnable(states, current, now) != Some(i),
{
    if next_runnable(states, current, now) == Some(i) {
        lemma_scan_hit(states, current, runnable_pred(now), 1, MAX_TASKS as int);
        assert(runnable_pred(now)(states[i]));
        assert(runnable(states[i], now));
        assert(false);
    }
}

/// Deadline promotion, second half: once the clock reaches the deadline
/// the sleeping task is eligible — when nothing else is runnable, the very
/// next scan selects it (and promotion is part of being selected).
pub proof fn lemma_deadline_eligible(
    states: Seq<TaskState>,
    current: int,
    now: u32,
    i: int,
    d: u32,
)
    requires
        states.len() == MAX_TASKS,
        0 <= current < MAX_TASKS as int,
        0 <= i < MAX_TASKS as int,
        states[i] == TaskState::WaitUntil(d),
        now >= d,
        forall|j: int|
            0 <= j < MAX_TASKS as int && j != i ==> !runnable(#[trigger] states[j], now),
    ensures
        next_runnable(states, current, now) == Some(i),
{
    let n = MAX_TASKS as int;
    let k0 = if i > current {
        i - current
    } else {
        i - current + n
    };
    assert(1 <= k0 <= n);
    assert((current + k0) % n == i);
    assert(runnable_pred(now)(states[i]));
    assert forall|j: int| 1 <= j <= n && j != k0 implies !runnable_pred(now)(
        #[trigger] states[(current + j) % n],
    ) by {
        let m = (current + j) % n;
        assert(0 <= m < n);
        assert(m != i);
        assert(!runnable(states[m], now));
    }
    lemma_scan_unique(states, current, runnable_pred(now), 1, k0, n);
}

/// The slot after `c` in the fixed cyclic order of the pool.
pub open spec fn rr_successor(c: int) -> int {
    if c + 1 == MAX_TASKS as int {
        0
    } else {
        c + 1
    }
}

/// The running slot after `k` consecutive plain yields starting from `c`,
/// when every slot stays live the whole time.  That each such yield moves
/// the running slot to `rr_successor` of the previous one is what
/// `lemma_yield_all_ready` states of the scan.
pub open spec fn rr_after(c: int, k: nat) -> int
    decreases k,
{
    if k == 0 {
        c
    } else {
        rr_successor(rr_after(c, (k - 1) as nat))
    }
}

/// A plain yield with every slot live selects exactly the next slot in the
/// fixed cyclic order: the scan starts just after the current slot and
/// ties are broken by slot index.
pub proof fn lemma_yield_all_ready(states: Seq<TaskState>, c: int, now: u32)
    requires
        states.len() == MAX_TASKS,
        0 <= c < MAX_TASKS as int,
        forall|i: int| 0 <= i < MAX_TASKS as int ==> #[trigger] states[i] == TaskState::Ready,
    ensures
        next_runnable(states, c, now) == Some(rr_successor(c)),
{
    let n = MAX_TASKS as int;
    assert((c + 1) % n == rr_successor(c));
    assert(runnable_pred(now)(states[(c + 1) % n]));
}

/// Unrolled form of `rr_after`: within one lap the running slot advances
/// by exactly one slot per yield, wrapping once at the end of the table.
pub proof fn lemma_rr_after_unrolled(c: int, k: nat)
    requires
        0 <= c < MAX_TASKS as int,
        k <= MAX_TASKS as nat,
    ensures
        rr_after(c, k) == if c + k < MAX_TASKS as int {
            c + k
        } else {
            c + k - MAX_TASKS as int
        },
    decreases k,
{
    if k > 0 {
        lemma_rr_after_unrolled(c, (k - 1) as nat);
    }
}

/// Starvation freedom under round robin: with every task live and
/// re-yielding, each slot `i` becomes the running one within `MAX_TASKS`
/// consecutive yields from any starting slot `c`; the returned count says
/// after how many.
pub proof fn lemma_no_starvation(c: int, i: int) -> (k: nat)
    requires
        0 <= c < MAX_TASKS as int,
        0 <= i < MAX_TASKS as int,
    ensures
        1 <= k <= MAX_TASKS as nat,
        rr_after(c, k) == i,
{
    let n = MAX_TASKS as int;
    let d = if i > c {
        i - c
    } else {
        i - c + n
    };
    lemma_rr_after_unrolled(c, d as nat);
    d as nat
}

/// Round-robin progress of the executable yield: when every task is live
/// — the caller re-marks itself ready and every other slot is ready too —
/// a yield hands the processor to exactly the next slot in cyclic order.
/// Together with `lemma_no_starvation` this is starvation freedom: within
/// `MAX_TASKS` such yields every slot has been the running one.
pub proof fn lemma_yield_round_robin(pre: Runtime, post: Runtime, now: u32)
    requires
        pre.wf(),
        yield_transition(pre, post, TaskState::Ready, now),
        forall|i: int|
            0 <= i < MAX_TASKS && i != pre.current_id() ==> #[trigger] pre.states()[i]
                == TaskState::Ready,
    ensures
        post.current_id() == rr_successor(pre.current_id()),
{
    let marked = pre.states().update(pre.current_id(), TaskState::Ready);
    assert(forall|i: int| 0 <= i < MAX_TASKS ==> #[trigger] marked[i] == TaskState::Ready);
    lemma_yield_all_ready(marked, pre.current_id(), now);
}

/// Deadline respect of the executable yield: a task sleeping until `d`
/// is never the one a yield switches into while the clock reads earlier
/// than `d`.
pub proof fn lemma_yield_never_runs_early(
    pre: Runtime,
    post: Runtime,
    new_state: TaskState,
    now: u32,
    i: int,
    d: u32,
)
    requires
        pre.wf(),
        yield_transition(pre, post, new_state, now),
        0 <= i < MAX_TASKS as int,
        i != pre.current_id(),
        pre.states()[i] == TaskState::WaitUntil(d),
        now < d,
    ensures
        post.current_id() != i,
{
    let marked = pre.states().update(pre.current_id(), new_state);
    assert(marked[i] == TaskState::WaitUntil(d));
    lemma_deadline_respected(marked, pre.current_id(), now, i, d);
}

/// Sets the lifecycle state of one slot, leaving everything else untouched.
fn set_task_state(tasks: &mut Vec<Task>, i: usize, s: TaskState)
    requires
        i < old(tasks).len(),
    ensures
        final(tasks)@.len() == old(tasks)@.len(),
        final(tasks)@[i as int].state == s,
        same_task_but_state(old(tasks)@[i as int], final(tasks)@[i as int]),
        forall|j: int|
            0 <= j < old(tasks)@.len() && j != i ==> final(tasks)@[j] == old(tasks)@[j],
{
    let mut t = Task {
        id: 0,
        stack: Vec::new(),
        context: TaskContext { sp: 0 },
        state: TaskState::Available,
    };
    tasks.set_and_swap(i, &mut t);
    t.state = s;
    tasks.set(i, t);
}

/// A very simple round-robin scheduler over a fixed pool of tasks.
pub struct Runtime {
    /// The task table.  Slot zero is the supervising task.
    pub tasks: Vec<Task>,
    /// The index of the running task.
    current: usize,
}

impl Runtime {
    /// The task table as a sequence, slot by slot.
    pub closed spec fn table(self) -> Seq<Task> {
        self.tasks@
    }

    /// The lifecycle states of the table, slot by slot.
    pub open spec fn states(self) -> Seq<TaskState> {
        self.table().map(|i: int, t: Task| t.state)
    }

    /// The index of the running task.
    pub closed spec fn current_id(self) -> int {
        self.current as int
    }

    /// Structural soundness of the scheduler: the table has its fixed size,
    /// the current index is in range, every task is sound, each task's id
    /// equals its slot, and no task but the current one is marked running.
    pub open spec fn wf(self) -> bool {
        &&& self.table().len() == MAX_TASKS
        &&& 0 <= self.current_id() < MAX_TASKS
        &&& forall|i: int| 0 <= i < MAX_TASKS ==> (#[trigger] self.table()[i]).wf()
        &&& forall|i: int| 0 <= i < MAX_TASKS ==> (#[trigger] self.table()[i]).id == i
        &&& forall|i: int|
            0 <= i < MAX_TASKS && (#[trigger] self.table()[i]).state == TaskState::Running ==> i
                == self.current_id()
    }

    /// Creates a new runtime: the supervising task occupies slot zero and
    /// is running; every other slot is empty.
    pub fn new() -> (rt: Runtime)
        ensures
            rt.wf(),
            rt.current_id() == 0,
            rt.states()[0] == TaskState::Running,
            forall|i: int| 1 <= i < MAX_TASKS ==> rt.states()[i] == TaskState::Available,
    {
        let mut tasks: Vec<Task> = Vec::new();
        let mut base = Task::new(0);
        base.state = TaskState::Running;
        tasks.push(base);
        let mut i: usize = 1;
        while i < MAX_TASKS
            invariant
                1 <= i <= MAX_TASKS,
                tasks@.len() == i,
                tasks@[0].state == TaskState::Running,
                forall|j: int| 0 <= j < i ==> (#[trigger] tasks@[j]).wf(),
                forall|j: int| 0 <= j < i ==> (#[trigger] tasks@[j]).id == j,
                forall|j: int| 1 <= j < i ==> (#[trigger] tasks@[j]).state == TaskState::Available,
            decreases MAX_TASKS - i,
        {
            tasks.push(Task::new(i));
            i += 1;
        }
        Runtime { tasks, current: 0 }
    }

    /// The id of the running task.
    pub fn current_task(&self) -> (id: usize)
        ensures
            id as int == self.current_id(),
    {
        self.current
    }

    /// Whether the task in slot `id` may be selected by a scan at time
    /// `now`: it is ready, or sleeping with its deadline reached.
    pub fn task_ready(&self, id: usize, now: u32) -> (r: bool)
        requires
            self.wf(),
        ensures
            r == (id < MAX_TASKS && runnable(self.states()[id as int], now)),
    {
        if id >= MAX_TASKS {
            return false;
        }
        match self.tasks[id].state {
            TaskState::Ready => true,
            TaskState::WaitUntil(d) => now >= d,
            _ => false,
        }
    }

    /// Whether the task in slot `id` is sleeping with its deadline still in
    /// the future at time `now`.
    pub fn task_waiting(&self, id: usize, now: u32) -> (r: bool)
        requires
            self.wf(),
        ensures
            r == (id < MAX_TASKS && waiting(self.states()[id as int], now)),
    {
        if id >= MAX_TASKS {
            return false;
        }
        match self.tasks[id].state {
            TaskState::WaitUntil(d) => now < d,
            _ => false,
        }
    }

    /// The scheduler's scan: the first slot after the current one, in
    /// cyclic order and coming back around to the current slot itself last,
    /// that is ready or whose deadline has elapsed at time `now`.
    fn find_next(&self, now: u32) -> (r: Option<usize>)
        requires
            self.wf(),
        ensures
            match r {
                Some(i) => i < MAX_TASKS && next_runnable(self.states(), self.current_id(), now)
                    == Some(i as int),
                None => next_runnable(self.states(), self.current_id(), now) is None,
            },
    {
        let mut k: usize = 1;
        while k <= MAX_TASKS
            invariant
                self.wf(),
                1 <= k <= MAX_TASKS + 1,
                next_runnable(self.states(), self.current_id(), now) == scan_from(
                    self.states(),
                    self.current_id(),
                    runnable_pred(now),
                    k as int,
                    MAX_TASKS as int,
                ),
            decreases MAX_TASKS + 1 - k,
        {
            let pos = (self.current + k) % MAX_TASKS;
            let hit = match self.tasks[pos].state {
                TaskState::Ready => true,
                TaskState::WaitUntil(d) => now >= d,
                _ => false,
            };
            proof {
                assert(self.states().len() == MAX_TASKS);
                assert(pos as int == (self.current_id() + k) % (self.states().len() as int));
                assert(self.states()[pos as int] == self.table()[pos as int].state);
                assert(runnable_pred(now)(self.states()[pos as int]) == runnable(
                    self.states()[pos as int],
                    now,
                ));
                assert(hit == runnable(self.states()[pos as int], now));
            }
            if hit {
                return Some(pos);
            }
            k += 1;
        }
        None
    }

    /// Switches away from the current task, leaving it in `new_state`: the
    /// scan selects the next runnable slot (possibly the current one again,
    /// when it marked itself ready) and makes it the running task.  When
    /// nothing is runnable the call changes no schedule beyond the marking
    /// and reports that no switch happened; with a state that cannot run
    /// again by itself this is the degenerate "nothing runnable" condition,
    /// and the caller is expected to try `reschedule` at a later time.
    fn yield_as(&mut self, new_state: TaskState, now: u32) -> (switched: bool)
        requires
            old(self).wf(),
            !(new_state is Running),
            !(new_state is Available),
        ensures
            final(self).wf(),
            yield_transition(*old(self), *final(self), new_state, now),
            switched == (next_runnable(
                old(self).states().update(old(self).current_id(), new_state),
                old(self).current_id(),
                now,
            ) is Some),
    {
        let cur = self.current;
        set_task_state(&mut self.tasks, cur, new_state);
        proof {
            assert(self.states() =~= old(self).states().update(
                old(self).current_id(),
                new_state,
            ));
        }
        let next = self.find_next(now);
        match next {
            Some(n) => {
                // In the running system the register save, the move of the
                // stack pointer and the restore happen at this point; they
                // touch no state of the model.
                set_task_state(&mut self.tasks, n, TaskState::Running);
                self.current = n;
                proof {
                    assert(self.states() =~= old(self).states().update(
                        old(self).current_id(),
                        new_state,
                    ).update(n as int, TaskState::Running));
                }
                true
            },
            None => false,
        }
    }

    /// Yields the current task, leaving it ready to be returned to on the
    /// next pass.  Reports whether a switch happened (a plain yield always
    /// finds at least the caller itself again).
    pub fn yield_t(&mut self, now: u32) -> (switched: bool)
        requires
            old(self).wf(),
        ensures
            final(self).wf(),
            yield_transition(*old(self), *final(self), TaskState::Ready, now),
            switched,
    {
        let r = self.yield_as(TaskState::Ready, now);
        proof {
            let marked = old(self).states().update(old(self).current_id(), TaskState::Ready);
            lemma_scan_finds_some(
                marked,
                old(self).current_id(),
                runnable_pred(now),
                1,
                MAX_TASKS as int,
                MAX_TASKS as int,
            );
        }
        r
    }

    /// Yields the current task, leaving it ready; the same operation as
    /// `yield_t` under the name the callers of the wake interface use.
    pub fn yield_next(&mut self, now: u32) -> (switched: bool)
        requires
            old(self).wf(),
        ensures
            final(self).wf(),
            yield_transition(*old(self), *final(self), TaskState::Ready, now),
            switched,
    {
        self.yield_t(now)
    }

    /// Yields the current task until the given time has been reached.  The
    /// task becomes eligible again only once some later scan passes it
    /// after its deadline; there is no asynchronous preemption.
    pub fn yield_until(&mut self, t: u32, now: u32) -> (switched: bool)
        requires
            old(self).wf(),
        ensures
            final(self).wf(),
            yield_transition(*old(self), *final(self), TaskState::WaitUntil(t), now),
            switched == (next_runnable(
                old(self).states().update(old(self).current_id(), TaskState::WaitUntil(t)),
                old(self).current_id(),
                now,
            ) is Some),
    {
        self.yield_as(TaskState::WaitUntil(t), now)
    }

    /// Yields the current task until the given delay has elapsed, counted
    /// from `now`.
    pub fn yield_for(&mut self, t: u32, now: u32) -> (switched: bool)
        requires
            old(self).wf(),
            now + t <= u32::MAX,
        ensures
            final(self).wf(),
            yield_transition(*old(self), *final(self), TaskState::WaitUntil((now + t) as u32), now),
            switched == (next_runnable(
                old(self).states().update(
                    old(self).current_id(),
                    TaskState::WaitUntil((now + t) as u32),
                ),
                old(self).current_id(),
                now,
            ) is Some),
    {
        self.yield_as(TaskState::WaitUntil(now + t), now)
    }

    /// Puts the current task to sleep until a wake call with the matching
    /// signal arrives.
    pub fn await_wake(&mut self, signal: WakeSignal, now: u32) -> (switched: bool)
        requires
            old(self).wf(),
        ensures
            final(self).wf(),
            yield_transition(*old(self), *final(self), TaskState::AwaitWake(signal), now),
            switched == (next_runnable(
                old(self).states().update(
                    old(self).current_id(),
                    TaskState::AwaitWake(signal),
                ),
                old(self).current_id(),
                now,
            ) is Some),
    {
        self.yield_as(TaskState::AwaitWake(signal), now)
    }

    /// Wakes task `id`, valid only while that task awaits exactly this
    /// signal.  On a match the scheduler switches into the woken task at
    /// once — not merely a state flip — suspending the caller as ready;
    /// this bounds the hand-off latency to a single scheduler step.
    /// Returns whether the wake matched; on a mismatch nothing changes.
    pub fn wake(&mut self, id: usize, signal: WakeSignal) -> (r: bool)
        requires
            old(self).wf(),
        ensures
            final(self).wf(),
            r == (id < MAX_TASKS && old(self).states()[id as int] == TaskState::AwaitWake(
                signal,
            )),
            r ==> wake_transition(*old(self), *final(self), id as int),
            !r ==> *final(self) == *old(self),
    {
        if id >= MAX_TASKS {
            return false;
        }
        let matched = match self.tasks[id].state {
            TaskState::AwaitWake(s) => s == signal,
            _ => false,
        };
        proof {
            assert(self.states()[id as int] == self.table()[id as int].state);
        }
        if !matched {
            return false;
        }
        let cur = self.current;
        set_task_state(&mut self.tasks, cur, TaskState::Ready);
        set_task_state(&mut self.tasks, id, TaskState::Running);
        self.current = id;
        proof {
            assert(self.states() =~= old(self).states().update(
                old(self).current_id(),
                TaskState::Ready,
            ).update(id as int, TaskState::Running));
        }
        true
    }

    /// Spawns a new task: the scan reuses the first available slot after
    /// the current one, re-initializing its stack for `entry` with `guard`
    /// as the return catcher, and marks it ready.  When every other slot is
    /// taken the call is a no-op and returns nothing — pool exhaustion is
    /// accepted input, not an error surfaced to the caller.
    pub fn spawn(&mut self, entry: u32, guard: u32) -> (r: Option<usize>)
        requires
            old(self).wf(),
        ensures
            final(self).wf(),
            final(self).current_id() == old(self).current_id(),
            match next_available(old(self).states(), old(self).current_id()) {
                Some(p) => {
                    &&& r == Some(p as usize)
                    &&& final(self).table()[p].freshly_initialized(entry, guard)
                    &&& final(self).table()[p].id == p
                    &&& forall|j: int|
                        0 <= j < MAX_TASKS && j != p ==> final(self).table()[j] == old(self).table()[j]
                },
                None => r is None && *final(self) == *old(self),
            },
    {
        let mut k: usize = 1;
        while k <= MAX_TASKS - 1
            invariant
                self.wf(),
                *self == *old(self),
                1 <= k <= MAX_TASKS,
                next_available(self.states(), self.current_id()) == scan_from(
                    self.states(),
                    self.current_id(),
                    available_pred(),
                    k as int,
                    MAX_TASKS as int - 1,
                ),
            decreases MAX_TASKS - k,
        {
            let pos = (self.current + k) % MAX_TASKS;
            let avail = match self.tasks[pos].state {
                TaskState::Available => true,
                _ => false,
            };
            proof {
                assert(self.states().len() == MAX_TASKS);
                assert(pos as int == (self.current_id() + k) % (self.states().len() as int));
                assert(self.states()[pos as int] == self.table()[pos as int].state);
                assert(available_pred()(self.states()[pos as int]) == (self.states()[pos as int]
                    == TaskState::Available));
            }
            if avail {
                let t = Task::new_ready(pos, entry, guard);
                self.tasks.set(pos, t);
                return Some(pos);
            }
            k += 1;
        }
        None
    }

    /// One more scan on behalf of a task that is no longer running (it
    /// blocked, slept or was killed) after an earlier scan found nothing
    /// runnable: in the running system the scheduler keeps scanning as time
    /// advances, and this is one step of that search.  On a hit the found
    /// task becomes the running one; otherwise nothing changes.
    pub fn reschedule(&mut self, now: u32) -> (switched: bool)
        requires
            old(self).wf(),
            !(old(self).states()[old(self).current_id()] is Running),
        ensures
            final(self).wf(),
            states_only_transition(old(self).table(), final(self).table()),
            match next_runnable(old(self).states(), old(self).current_id(), now) {
                Some(n) => switched && final(self).current_id() == n && final(self).states()
                    == old(self).states().update(n, TaskState::Running),
                None => !switched && *final(self) == *old(self),
            },
    {
        let next = self.find_next(now);
        match next {
            Some(n) => {
                set_task_state(&mut self.tasks, n, TaskState::Running);
                self.current = n;
                proof {
                    assert(self.states() =~= old(self).states().update(
                        n as int,
                        TaskState::Running,
                    ));
                }
                true
            },
            None => false,
        }
    }

    /// Frees the slot of the running task.  The slot becomes available for
    /// reuse and no context switch happens; the caller is expected to yield
    /// next.  The supervising task never kills itself this way.
    pub fn kill_current(&mut self)
        requires
            old(self).wf(),
            old(self).current_id() != 0,
        ensures
            final(self).wf(),
            final(self).current_id() == old(self).current_id(),
            states_only_transition(old(self).table(), final(self).table()),
            final(self).states() == old(self).states().update(
                old(self).current_id(),
                TaskState::Available,
            ),
    {
        let cur = self.current;
        set_task_state(&mut self.tasks, cur, TaskState::Available);
        proof {
            assert(self.states() =~= old(self).states().update(
                old(self).current_id(),
                TaskState::Available,
            ));
        }
    }

    /// Frees the slot of task `id` unconditionally, whatever its state.  No
    /// context switch happens.  Slot zero, the supervising task, is not an
    /// acceptable target.
    pub fn kill_task(&mut self, id: usize)
        requires
            old(self).wf(),
            0 < id < MAX_TASKS,
        ensures
            final(self).wf(),
            final(self).current_id() == old(self).current_id(),
            states_only_transition(old(self).table(), final(self).table()),
            final(self).states() == old(self).states().update(id as int, TaskState::Available),
    {
        set_task_state(&mut self.tasks, id, TaskState::Available);
        proof {
            assert(self.states() =~= old(self).states().update(id as int, TaskState::Available));
        }
    }
}

/// Sleeps for `t` milliseconds counted from `now`: yields the current
/// task until the delay has elapsed.
pub fn sleep(rt: &mut Runtime, t: u32, now: u32) -> (switched: bool)
    requires
        old(rt).wf(),
        now + t <= u32::MAX,
    ensures
        final(rt).wf(),
        yield_transition(*old(rt), *final(rt), TaskState::WaitUntil((now + t) as u32), now),
{
    rt.yield_for(t, now)
}

} // verus!

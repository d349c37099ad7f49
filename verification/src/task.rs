//! Tasks: the execution units of the runtime.
//!
//! A task owns a fixed-size stack, a saved context (a single stack-pointer
//! offset) and a lifecycle state.  Initializing a task lays out its stack so
//! that the first restore of the saved context lands execution at the task's
//! entry routine, and so that a return from the entry routine lands in a
//! guard routine rather than in undefined memory.  Only the offset from the
//! end of the stack is persisted, never an absolute address, so the backing
//! storage may be relocated while the task is suspended.

use vstd::prelude::*;
use vstd::pervasive::VecAdditionalExecFns;

verus! {

/// Size in bytes of one stack slot that holds a saved register or an address.
pub const WORD_BYTES: usize = 4;

/// Number of words a context switch saves on the suspended task's stack:
/// thirteen general-purpose registers, the link register and the program
/// counter.
pub const CONTEXT_WORDS: usize = 15;

/// Size in bytes of every task stack.
pub const DEFAULT_STACK_SIZE: usize = 4096;

/// The reason a blocked task may be woken.  A task blocked in
/// `TaskState::AwaitWake` is resumed only by a wake call carrying the same
/// signal, which prevents a task from being woken for the wrong reason.
#[derive(Clone, Copy, Debug, PartialEq, Eq, Structural)]
pub enum WakeSignal {
    /// Sent by a mutex release to the first waiter in its queue.
    MutexRelease,
}

/// The lifecycle state of a task.  The state determines when the scheduler
/// may enter the task again and whether its slot can be reused.
#[derive(Clone, Copy, Debug, PartialEq, Eq, Structural)]
pub enum TaskState {
    /// Waiting for its turn on the scheduler.
    Ready,
    /// The currently executing task.
    Running,
    /// Nothing is assigned to the slot; spawn may reuse it.
    Available,
    /// Not eligible to run before the given time (in milliseconds).
    WaitUntil(u32),
    /// Blocked until woken with the matching signal.
    AwaitWake(WakeSignal),
}

/// The saved context of a suspended task: the stack-pointer offset, counted
/// in bytes back from the end of the task's stack.
#[derive(Clone, Copy, Debug, PartialEq, Eq, Structural)]
pub struct TaskContext {
    /// Offset in bytes from the end of the stack to the saved stack pointer.
    pub sp: u32,
}

impl Default for TaskContext {
    /// An empty context: no saved registers, the stack pointer at the very
    /// end of the stack.
    fn default() -> (r: TaskContext)
        ensures
            r.sp == 0,
    {
        TaskContext { sp: 0 }
    }
}

/// The value of the four-byte little-endian word stored at offset `i` of a
/// byte sequence.
pub open spec fn word_at(s: Seq<u8>, i: int) -> int {
    (s[i] as int) + 0x100 * (s[i + 1] as int) + 0x1_0000 * (s[i + 2] as int) + 0x100_0000 * (
    s[i + 3] as int)
}

/// Writes `w` as a four-byte little-endian word at offset `i`, leaving every
/// other byte unchanged.
fn store_word(stack: &mut Vec<u8>, i: usize, w: u32)
    requires
        i + WORD_BYTES <= old(stack).len(),
    ensures
        final(stack)@.len() == old(stack)@.len(),
        word_at(final(stack)@, i as int) == w as int,
        forall|j: int|
            0 <= j < final(stack)@.len() && !(i <= j < i + WORD_BYTES) ==> final(stack)@[j]
                == old(stack)@[j],
{
    proof {
        assert(w & 0xff < 0x100 && (w >> 8) & 0xff < 0x100 && (w >> 16) & 0xff < 0x100 && (w >> 24)
            & 0xff < 0x100) by (bit_vector);
    }
    let b0: u8 = (w & 0xff) as u8;
    let b1: u8 = ((w >> 8) & 0xff) as u8;
    let b2: u8 = ((w >> 16) & 0xff) as u8;
    let b3: u8 = ((w >> 24) & 0xff) as u8;
    stack.set(i, b0);
    stack.set(i + 1, b1);
    stack.set(i + 2, b2);
    stack.set(i + 3, b3);
    proof {
        assert((w & 0xff) as u64 + 0x100 * (((w >> 8) & 0xff) as u64) + 0x1_0000 * (((w >> 16)
            & 0xff) as u64) + 0x100_0000 * (((w >> 24) & 0xff) as u64) == w as u64) by (bit_vector);
    }
}

/// A task: a single unit of execution with its own stack, a saved context
/// and a lifecycle state.
#[derive(Clone, Debug)]
pub struct Task {
    /// The task's id; equal to its slot index in the scheduler's table.
    pub id: usize,
    /// The task's private stack storage.
    pub stack: Vec<u8>,
    /// The saved context of the task while it is suspended.
    pub context: TaskContext,
    /// The lifecycle state of the task.
    pub state: TaskState,
}

impl Task {
    /// Structural soundness of a task: the stack has its fixed size and the
    /// saved stack pointer lies within it.
    pub open spec fn wf(self) -> bool {
        &&& self.stack@.len() == DEFAULT_STACK_SIZE
        &&& self.context.sp <= DEFAULT_STACK_SIZE
    }

    /// True when the stack is laid out for a first entry: the word nearest
    /// the end of the stack is the entry address, the word below it is the
    /// guard address, every other byte is zero, and the saved context covers
    /// exactly the words a context switch restores.
    pub open spec fn freshly_initialized(self, entry: u32, guard: u32) -> bool {
        &&& self.wf()
        &&& self.state == TaskState::Ready
        &&& self.context.sp == CONTEXT_WORDS * WORD_BYTES
        &&& word_at(self.stack@, DEFAULT_STACK_SIZE - WORD_BYTES) == entry as int
        &&& word_at(self.stack@, DEFAULT_STACK_SIZE - 2 * WORD_BYTES) == guard as int
        &&& forall|j: int|
            0 <= j < DEFAULT_STACK_SIZE - 2 * WORD_BYTES ==> self.stack@[j] == 0
    }

    /// Creates a new, empty task for the given slot.
    pub fn new(id: usize) -> (t: Task)
        ensures
            t.wf(),
            t.id == id,
            t.state == TaskState::Available,
            t.context.sp == 0,
            forall|j: int| 0 <= j < DEFAULT_STACK_SIZE ==> t.stack@[j] == 0,
    {
        Task { id, stack: vec![0u8; DEFAULT_STACK_SIZE], context: TaskContext { sp: 0 }, state: TaskState::Available }
    }

    /// Resets the task's stack and lays it out for a fresh entry: the stack
    /// is re-zeroed, the entry address is written at the top so that the
    /// earliest restore lands execution exactly at `entry`, and the guard
    /// address is written below it so that a return from `entry` lands in
    /// the guard routine.  The saved context is the offset of the restored
    /// words, not an absolute address, so the stack may move in memory while
    /// the task is suspended.
    pub fn initialize(&mut self, entry: u32, guard: u32)
        ensures
            final(self).id == old(self).id,
            final(self).freshly_initialized(entry, guard),
    {
        self.stack = vec![0u8; DEFAULT_STACK_SIZE];
        store_word(&mut self.stack, DEFAULT_STACK_SIZE - WORD_BYTES, entry);
        store_word(&mut self.stack, DEFAULT_STACK_SIZE - 2 * WORD_BYTES, guard);
        self.context = TaskContext { sp: (CONTEXT_WORDS * WORD_BYTES) as u32 };
        self.state = TaskState::Ready;
    }

    /// Creates a new task already laid out and ready to run `entry`.
    pub fn new_ready(id: usize, entry: u32, guard: u32) -> (t: Task)
        ensures
            t.id == id,
            t.freshly_initialized(entry, guard),
    {
        let mut t = Task::new(id);
        t.initialize(entry, guard);
        t
    }

    /// The task's live stack pointer, as an offset in bytes from the base of
    /// the stack: the length of the stack minus the persisted offset from
    /// its end.  Computing the pointer this way lets the stack storage move
    /// in memory between suspensions without invalidating the saved context.
    pub fn get_sp(&self) -> (sp: usize)
        requires
            self.wf(),
        ensures
            sp == DEFAULT_STACK_SIZE - self.context.sp,
    {
        self.stack.len() - self.context.sp as usize
    }
}

} // verus!

use vexrs::runtime::{Runtime, MAX_TASKS};
use vexrs::task::{Task, TaskState, WakeSignal, CONTEXT_WORDS, DEFAULT_STACK_SIZE, WORD_BYTES};

const ENTRY: u32 = 0x1234_5678;
const GUARD: u32 = 0x9ABC_DEF0;

#[test]
fn new_runtime_has_supervisor_running() {
    let rt = Runtime::new();
    assert_eq!(rt.current_task(), 0);
    assert_eq!(rt.tasks.len(), MAX_TASKS);
    assert_eq!(rt.tasks[0].state, TaskState::Running);
    for i in 1..MAX_TASKS {
        assert_eq!(rt.tasks[i].state, TaskState::Available);
        assert_eq!(rt.tasks[i].id, i);
    }
}

#[test]
fn spawn_lays_out_the_stack() {
    let mut rt = Runtime::new();
    let slot = rt.spawn(ENTRY, GUARD);
    assert_eq!(slot, Some(1));
    let t = &rt.tasks[1];
    assert_eq!(t.state, TaskState::Ready);
    assert_eq!(t.context.sp as usize, CONTEXT_WORDS * WORD_BYTES);
    assert_eq!(t.stack.len(), DEFAULT_STACK_SIZE);
    // entry address, little endian, in the last word
    assert_eq!(
        &t.stack[DEFAULT_STACK_SIZE - 4..],
        &[0x78, 0x56, 0x34, 0x12]
    );
    // guard address in the word below it
    assert_eq!(
        &t.stack[DEFAULT_STACK_SIZE - 8..DEFAULT_STACK_SIZE - 4],
        &[0xF0, 0xDE, 0xBC, 0x9A]
    );
    // everything below is zeroed
    assert!(t.stack[..DEFAULT_STACK_SIZE - 8].iter().all(|b| *b == 0));
    assert_eq!(t.get_sp(), DEFAULT_STACK_SIZE - CONTEXT_WORDS * WORD_BYTES);
}

#[test]
fn spawn_fills_slots_in_order_and_exhausts_silently() {
    let mut rt = Runtime::new();
    for expect in 1..MAX_TASKS {
        assert_eq!(rt.spawn(ENTRY, GUARD), Some(expect));
    }
    // the pool is full: a further spawn is a silent no-op
    assert_eq!(rt.spawn(ENTRY, GUARD), None);
    for i in 1..MAX_TASKS {
        assert_eq!(rt.tasks[i].state, TaskState::Ready);
    }
}

#[test]
fn round_robin_visits_every_live_task_once_per_lap() {
    let mut rt = Runtime::new();
    for _ in 1..MAX_TASKS {
        rt.spawn(ENTRY, GUARD);
    }
    // with all eight slots live, eight yields come back to the start
    let mut seen = Vec::new();
    for _ in 0..MAX_TASKS {
        assert!(rt.yield_t(0));
        seen.push(rt.current_task());
    }
    assert_eq!(seen, vec![1, 2, 3, 4, 5, 6, 7, 0]);
}

#[test]
fn plain_yield_with_nothing_else_keeps_running() {
    let mut rt = Runtime::new();
    assert!(rt.yield_t(0));
    assert_eq!(rt.current_task(), 0);
    assert_eq!(rt.tasks[0].state, TaskState::Running);
}

#[test]
fn sleeping_task_is_not_selected_before_its_deadline() {
    let mut rt = Runtime::new();
    rt.spawn(ENTRY, GUARD);
    assert!(rt.yield_t(0));
    assert_eq!(rt.current_task(), 1);
    // the spawned task sleeps until 100
    assert!(rt.yield_until(100, 0));
    assert_eq!(rt.current_task(), 0);
    assert_eq!(rt.tasks[1].state, TaskState::WaitUntil(100));
    // before the deadline the scan passes it by
    assert!(rt.yield_t(50));
    assert_eq!(rt.current_task(), 0);
    assert_eq!(rt.tasks[1].state, TaskState::WaitUntil(100));
    // at the deadline it is promoted as part of being selected
    assert!(rt.yield_t(100));
    assert_eq!(rt.current_task(), 1);
    assert_eq!(rt.tasks[1].state, TaskState::Running);
}

#[test]
fn yield_for_counts_from_now() {
    let mut rt = Runtime::new();
    rt.spawn(ENTRY, GUARD);
    rt.yield_t(0);
    assert_eq!(rt.current_task(), 1);
    rt.yield_for(30, 70);
    assert_eq!(rt.tasks[1].state, TaskState::WaitUntil(100));
}

#[test]
fn wake_needs_the_matching_signal() {
    let mut rt = Runtime::new();
    rt.spawn(ENTRY, GUARD);
    rt.yield_t(0);
    assert_eq!(rt.current_task(), 1);
    assert!(rt.await_wake(WakeSignal::MutexRelease, 0));
    assert_eq!(rt.current_task(), 0);
    assert_eq!(
        rt.tasks[1].state,
        TaskState::AwaitWake(WakeSignal::MutexRelease)
    );
    // waking a task that is not awaiting fails and changes nothing
    assert!(!rt.wake(0, WakeSignal::MutexRelease));
    assert!(!rt.wake(5, WakeSignal::MutexRelease));
    assert!(!rt.wake(MAX_TASKS, WakeSignal::MutexRelease));
    // the matching wake switches into the woken task at once
    assert!(rt.wake(1, WakeSignal::MutexRelease));
    assert_eq!(rt.current_task(), 1);
    assert_eq!(rt.tasks[1].state, TaskState::Running);
    assert_eq!(rt.tasks[0].state, TaskState::Ready);
}

#[test]
fn kill_frees_the_slot_without_switching() {
    let mut rt = Runtime::new();
    rt.spawn(ENTRY, GUARD);
    rt.spawn(ENTRY, GUARD);
    rt.kill_task(2);
    assert_eq!(rt.tasks[2].state, TaskState::Available);
    assert_eq!(rt.current_task(), 0);
    rt.yield_t(0);
    assert_eq!(rt.current_task(), 1);
    rt.kill_current();
    assert_eq!(rt.tasks[1].state, TaskState::Available);
    assert_eq!(rt.current_task(), 1);
    // nothing is running until the next scan
    assert!(rt.reschedule(0));
    assert_eq!(rt.current_task(), 0);
}

#[test]
fn reschedule_reports_the_degenerate_state() {
    let mut rt = Runtime::new();
    rt.spawn(ENTRY, GUARD);
    rt.yield_t(0);
    rt.kill_task(0);
    assert_eq!(rt.current_task(), 1);
    rt.kill_current();
    // nothing runnable: the system stays alive but makes no progress
    assert!(!rt.reschedule(0));
    assert_eq!(rt.current_task(), 1);
}

#[test]
fn task_ready_and_waiting_follow_the_clock() {
    let mut rt = Runtime::new();
    rt.spawn(ENTRY, GUARD);
    rt.yield_t(0);
    rt.yield_until(200, 0);
    assert!(!rt.task_ready(1, 100));
    assert!(rt.task_waiting(1, 100));
    assert!(rt.task_ready(1, 200));
    assert!(!rt.task_waiting(1, 200));
    // the running task is neither ready nor waiting
    assert!(!rt.task_ready(0, 100));
    assert!(!rt.task_waiting(0, 100));
    // out-of-range ids are neither
    assert!(!rt.task_ready(MAX_TASKS, 0));
    assert!(!rt.task_waiting(MAX_TASKS, 0));
}

#[test]
fn sleep_yields_until_the_delay_elapses() {
    let mut rt = Runtime::new();
    rt.spawn(ENTRY, GUARD);
    rt.yield_t(0);
    assert_eq!(rt.current_task(), 1);
    vexrs::runtime::sleep(&mut rt, 25, 5);
    assert_eq!(rt.current_task(), 0);
    assert_eq!(rt.tasks[1].state, TaskState::WaitUntil(30));
}

#[test]
fn tasks_can_be_reinitialized_by_hand() {
    let mut t = Task::new(3);
    assert_eq!(t.state, TaskState::Available);
    t.initialize(ENTRY, GUARD);
    assert_eq!(t.state, TaskState::Ready);
    assert_eq!(t.id, 3);
    let ready = Task::new_ready(4, ENTRY, GUARD);
    assert_eq!(ready.state, TaskState::Ready);
    assert_eq!(ready.stack, t.stack);
}

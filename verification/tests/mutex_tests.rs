use vexrs::mutex::Mutex;
use vexrs::runtime::Runtime;
use vexrs::task::{TaskState, WakeSignal};

const ENTRY: u32 = 0x2000;
const GUARD: u32 = 0x3000;

#[test]
fn fast_path_takes_a_free_lock_without_yielding() {
    let mut rt = Runtime::new();
    let mut m = Mutex::new(41u32);
    assert!(!m.is_taken());
    let g = m.acquire(&mut rt, 0).expect("free lock");
    assert!(m.is_taken());
    assert_eq!(rt.current_task(), 0);
    assert_eq!(*m.get(&g), 41);
    let old = m.replace(&g, 42);
    assert_eq!(old, 41);
    assert_eq!(*m.get(&g), 42);
    m.release(g, &mut rt);
    assert!(!m.is_taken());
}

#[test]
fn contended_acquire_blocks_the_caller() {
    let mut rt = Runtime::new();
    rt.spawn(ENTRY, GUARD);
    let mut m = Mutex::new(());
    let g = m.acquire(&mut rt, 0).expect("free lock");
    // the spawned task runs and finds the lock taken
    rt.yield_t(0);
    assert_eq!(rt.current_task(), 1);
    assert!(m.acquire(&mut rt, 0).is_none());
    // the blocked task sleeps awaiting the release signal
    assert_eq!(
        rt.tasks[1].state,
        TaskState::AwaitWake(WakeSignal::MutexRelease)
    );
    assert_eq!(rt.current_task(), 0);
    // releasing wakes it and switches into it at once
    m.release(g, &mut rt);
    assert_eq!(rt.current_task(), 1);
    assert_eq!(rt.tasks[1].state, TaskState::Running);
    // the woken task completes the acquire
    let g1 = m.resume_acquire(&mut rt, 0).expect("handed off");
    assert!(m.is_taken());
    m.release(g1, &mut rt);
    assert!(!m.is_taken());
}

#[test]
fn waiters_are_woken_first_in_first_out() {
    let mut rt = Runtime::new();
    rt.spawn(ENTRY, GUARD);
    rt.spawn(ENTRY, GUARD);
    let mut m = Mutex::new(());
    let g = m.acquire(&mut rt, 0).expect("free lock");
    // task 1 blocks first, task 2 second
    rt.yield_t(0);
    assert_eq!(rt.current_task(), 1);
    assert!(m.acquire(&mut rt, 0).is_none());
    assert_eq!(rt.current_task(), 2);
    assert!(m.acquire(&mut rt, 0).is_none());
    assert_eq!(rt.current_task(), 0);
    // the first release wakes task 1, strictly before task 2
    m.release(g, &mut rt);
    assert_eq!(rt.current_task(), 1);
    assert_eq!(
        rt.tasks[2].state,
        TaskState::AwaitWake(WakeSignal::MutexRelease)
    );
    let g1 = m.resume_acquire(&mut rt, 0).expect("first waiter");
    // only the release after that reaches task 2
    m.release(g1, &mut rt);
    assert_eq!(rt.current_task(), 2);
    let g2 = m.resume_acquire(&mut rt, 0).expect("second waiter");
    m.release(g2, &mut rt);
    assert!(!m.is_taken());
}

#[test]
fn acquire_queues_behind_existing_waiters_even_when_free() {
    let mut rt = Runtime::new();
    rt.spawn(ENTRY, GUARD);
    rt.spawn(ENTRY, GUARD);
    let mut m = Mutex::new(());
    let g = m.acquire(&mut rt, 0).expect("free lock");
    rt.yield_t(0);
    assert!(m.acquire(&mut rt, 0).is_none());
    // task 1 waits; the holder releases while running as task 2
    assert_eq!(rt.current_task(), 2);
    m.release(g, &mut rt);
    // the release switched into task 1; it has not retaken the lock yet
    assert_eq!(rt.current_task(), 1);
    assert!(!m.is_taken());
    // a newcomer running now still cannot take the fast path:
    // the queue was emptied by the wake, so this is a fresh fast path
    let g1 = m.resume_acquire(&mut rt, 0).expect("woken waiter");
    assert!(m.is_taken());
    m.release(g1, &mut rt);
}

#[test]
fn release_with_a_killed_waiter_drops_it_silently() {
    let mut rt = Runtime::new();
    rt.spawn(ENTRY, GUARD);
    let mut m = Mutex::new(());
    let g = m.acquire(&mut rt, 0).expect("free lock");
    rt.yield_t(0);
    assert!(m.acquire(&mut rt, 0).is_none());
    // the waiter is killed while blocked; its guard never existed
    rt.kill_task(1);
    m.release(g, &mut rt);
    // the wake found no matching sleeper: the lock is simply free
    assert!(!m.is_taken());
    assert_eq!(rt.current_task(), 0);
}

/// The hand-off scenario: a pool with the supervisor in slot zero and two
/// spawned tasks; the first takes the mutex, the second blocks on it, and
/// the release hands the lock over.
#[test]
fn mutex_handoff_scenario() {
    let mut rt = Runtime::new();
    let a = rt.spawn(ENTRY, GUARD).expect("slot for task a");
    let b = rt.spawn(ENTRY, GUARD).expect("slot for task b");
    assert_eq!((a, b), (1, 2));
    let mut m = Mutex::new(0u32);

    // task a runs and takes the mutex
    rt.yield_t(0);
    assert_eq!(rt.current_task(), a);
    let ga = m.acquire(&mut rt, 0).expect("a takes the lock");
    assert!(m.is_taken());

    // task b runs, attempts the acquire and blocks
    rt.yield_t(0);
    assert_eq!(rt.current_task(), b);
    assert!(m.acquire(&mut rt, 0).is_none());
    assert_eq!(
        rt.tasks[b].state,
        TaskState::AwaitWake(WakeSignal::MutexRelease)
    );

    // back in task a: the release must make b ready and run it
    assert_eq!(rt.current_task(), 0);
    rt.yield_t(0);
    assert_eq!(rt.current_task(), a);
    m.release(ga, &mut rt);
    assert_eq!(rt.current_task(), b);
    assert_eq!(rt.tasks[b].state, TaskState::Running);

    // once scheduled, b completes the acquire and observes the lock taken
    let gb = m.resume_acquire(&mut rt, 0).expect("b takes the lock");
    assert!(m.is_taken());

    // b completes and releases: the lock is free with an empty queue
    m.release(gb, &mut rt);
    assert!(!m.is_taken());
    assert!(m.acquire(&mut rt, 0).is_some());
}

#[test]
fn default_mutex_is_unlocked() {
    let mut rt = Runtime::new();
    let mut m: Mutex<u32> = Default::default();
    assert!(!m.is_taken());
    let g = m.acquire(&mut rt, 0).expect("free lock");
    m.release(g, &mut rt);
}

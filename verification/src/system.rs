//! The supervisor's periodic duties.
//!
//! The supervising task in slot zero watches the competition state on
//! every pass of its loop: whenever the state changes, every other task
//! is killed and the user program is started afresh.  Reading the state
//! word, drawing the display and ticking the devices happen around this
//! decision, on the hardware side.

use vstd::prelude::*;
use crate::competition::CompetitionStatus;
use crate::runtime::{Runtime, MAX_TASKS, same_task_but_state};
use crate::task::TaskState;

verus! {

/// One pass of the supervisor's competition watch, with the freshly read
/// state: while the state is unchanged nothing happens; on a change every
/// task but the supervisor is killed unconditionally and the user program
/// is spawned afresh — landing in the first slot after the supervisor.
/// Returns the state to remember for the next pass.
pub fn competition_step(
    rt: &mut Runtime,
    prev: CompetitionStatus,
    current: CompetitionStatus,
    user_entry: u32,
    guard: u32,
) -> (r: CompetitionStatus)
    requires
        old(rt).wf(),
        old(rt).current_id() == 0,
    ensures
        final(rt).wf(),
        r == current,
        prev == current ==> *final(rt) == *old(rt),
        prev != current ==> {
            &&& final(rt).current_id() == 0
            &&& final(rt).states()[0] == old(rt).states()[0]
            &&& final(rt).table()[1].freshly_initialized(user_entry, guard)
            &&& final(rt).table()[1].id == 1
            &&& forall|i: int|
                2 <= i < MAX_TASKS ==> #[trigger] final(rt).states()[i] is Available
        },
{
    if prev == current {
        return current;
    }
    let cur = rt.current_task();
    let mut i: usize = 1;
    while i < MAX_TASKS
        invariant
            rt.wf(),
            rt.current_id() == 0,
            cur == 0,
            1 <= i <= MAX_TASKS,
            rt.table().len() == MAX_TASKS,
            forall|j: int|
                0 <= j < MAX_TASKS ==> same_task_but_state(
                    #[trigger] old(rt).table()[j],
                    #[trigger] rt.table()[j],
                ),
            rt.states()[0] == old(rt).states()[0],
            forall|j: int| 1 <= j < i ==> #[trigger] rt.states()[j] is Available,
        decreases MAX_TASKS - i,
    {
        let ghost pre = *rt;
        if i != cur {
            rt.kill_task(i);
        }
        proof {
            assert forall|j: int| 0 <= j < MAX_TASKS implies same_task_but_state(
                old(rt).table()[j],
                rt.table()[j],
            ) by {
                assert(same_task_but_state(old(rt).table()[j], pre.table()[j]));
                assert(same_task_but_state(pre.table()[j], rt.table()[j]));
            }
        }
        i += 1;
    }
    let ghost pre_spawn = *rt;
    proof {
        let states = rt.states();
        assert(states.len() == rt.table().len());
        assert(states.len() == MAX_TASKS);
        assert((0int + 1int) % (states.len() as int) == 1);
        assert(crate::runtime::available_pred()(states[1]));
        assert(crate::runtime::next_available(states, 0) == Some(1int));
    }
    let _ = rt.spawn(user_entry, guard);
    proof {
        assert(rt.table()[0] == pre_spawn.table()[0]);
        assert(rt.states()[0] == rt.table()[0].state);
        assert(pre_spawn.states()[0] == pre_spawn.table()[0].state);
        assert forall|i: int| 2 <= i < MAX_TASKS implies rt.states()[i] is Available by {
            assert(rt.table()[i] == pre_spawn.table()[i]);
            assert(rt.states()[i] == rt.table()[i].state);
            assert(pre_spawn.states()[i] == pre_spawn.table()[i].state);
        }
    }
    current
}

} // verus!

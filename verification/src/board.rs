//! What the tasks and the timer interrupt of a board share.

use vstd::prelude::*;

use crate::clock::Ticks;
use crate::executor::{ExecutorAction, ReadyFlags, RoundState};
use crate::messages::{MsgIndex, MESSAGE_COUNT};

verus! {

/// State shared between the tasks and the timer interrupt.
pub struct Board {
    pub clock: Ticks,
    pub ready: ReadyFlags,
    pub shown: MsgIndex,
}

impl Board {
    /// The state on boot: no tick yet, all tasks ready, no message.
    pub fn new() -> (board: Board)
        ensures
            board.clock.count == 0,
            board.ready@ == crate::executor::all_up(),
            board.shown@ == MESSAGE_COUNT,
    {
        Board { clock: Ticks::new(), ready: ReadyFlags::new(), shown: MsgIndex::new() }
    }

    /// The timer interrupt: counts a tick and makes all tasks ready.
    pub fn timer_fired(&mut self)
        ensures
            final(self).clock.count == crate::clock::count_after(old(self).clock.count, 1),
            final(self).ready@ == crate::executor::all_up(),
            final(self).shown == old(self).shown,
    {
        self.clock.advance();
        self.ready.wake_all();
    }
}

/// A pending wait is polled again after the next tick: a timer interrupt leaves all tasks
/// ready, so wherever the executor stands it then polls each of them within as many steps as
/// there are tasks and one more, without a sleep before that.
pub proof fn law_tick_polls_every_task(
    from: RoundState,
    wakes: spec_fn(nat) -> (spec_fn(int) -> bool),
    i: int,
)
    requires
        from.wf(),
        0 <= i < from.count,
    ensures
        exists|k: nat|
            {
                &&& k <= from.count
                &&& #[trigger] crate::executor::action_at(
                    from,
                    crate::executor::all_up(),
                    wakes,
                    k,
                ) == ExecutorAction::Poll(i as usize)
                &&& forall|j: nat|
                    j < k ==> #[trigger] crate::executor::action_at(
                        from,
                        crate::executor::all_up(),
                        wakes,
                        j,
                    ) != ExecutorAction::Sleep
            },
{
    crate::executor::law_no_wake_is_lost(from, crate::executor::all_up(), wakes, i);
}

} // verus!

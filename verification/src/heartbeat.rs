//! The heartbeat task: logs the tick count on every timer interrupt, to show that the
//! executor and the timer are alive.

use vstd::prelude::*;

use crate::clock::{Ticks, WaitForTick};

verus! {

/// Ticks between two heartbeats.
pub const HEARTBEAT_PAUSE: u32 = 1;

/// What has happened since the last step.
#[derive(Clone, Copy, Debug)]
pub enum HeartbeatEvent {
    /// The task starts, or its pause is over.
    Resumed,
    /// The tick count has been logged.
    Logged,
}

/// What the task does next.
#[derive(Clone, Copy, Debug, PartialEq, Eq, Structural)]
pub enum HeartbeatAction {
    /// Log this tick count.
    Log(u32),
    /// Wait for this many ticks.
    Pause(u32),
}

/// What a step at tick count `count` asks for.
pub open spec fn heartbeat_action(event: HeartbeatEvent, count: u32) -> HeartbeatAction {
    match event {
        HeartbeatEvent::Resumed => HeartbeatAction::Log(count),
        HeartbeatEvent::Logged => HeartbeatAction::Pause(HEARTBEAT_PAUSE),
    }
}

/// A step of the heartbeat task.
pub fn heartbeat_step(event: HeartbeatEvent, clock: &Ticks) -> (action: HeartbeatAction)
    ensures
        action == heartbeat_action(event, clock.count),
{
    match event {
        HeartbeatEvent::Resumed => HeartbeatAction::Log(clock.count),
        HeartbeatEvent::Logged => HeartbeatAction::Pause(HEARTBEAT_PAUSE),
    }
}

/// A heartbeat task in its pause.
pub struct Heartbeat {
    /// The tick counts that it has logged.
    pub lines: Seq<u32>,
    /// The pause that it is in.
    pub pause: WaitForTick,
}

impl Heartbeat {
    /// After the steps from a resumption at `count` to the pause that they ask for.
    pub open spec fn resumed(lines: Seq<u32>, count: u32) -> Heartbeat {
        Heartbeat {
            lines: match heartbeat_action(HeartbeatEvent::Resumed, count) {
                HeartbeatAction::Log(tick) => lines.push(tick),
                HeartbeatAction::Pause(_) => lines,
            },
            pause: match heartbeat_action(HeartbeatEvent::Logged, count) {
                HeartbeatAction::Pause(ticks) => WaitForTick::begun_at(count, ticks),
                HeartbeatAction::Log(_) => WaitForTick::begun_at(count, 0),
            },
        }
    }

    /// After a poll at `count`.
    pub open spec fn polled(self, count: u32) -> Heartbeat {
        if self.pause.over_at(count) {
            Heartbeat::resumed(self.lines, count)
        } else {
            self
        }
    }

    /// A task that is first polled at `start`, and then once after each of `fired` timer
    /// interrupts.
    pub open spec fn after(start: u32, fired: nat) -> Heartbeat
        decreases fired,
    {
        if fired == 0 {
            Heartbeat::resumed(Seq::empty(), start)
        } else {
            Heartbeat::after(start, (fired - 1) as nat).polled(
                crate::clock::count_after(start, fired),
            )
        }
    }
}

/// The heart beats on every timer interrupt: a task that is first polled at `start`, and then
/// once after each of `fired` interrupts, has logged one line at the start and one at each
/// interrupt, with the tick count of that moment. It is then in a pause that is not over, so
/// a second poll before the next interrupt logs nothing.
pub proof fn law_beats_on_every_tick(start: u32, fired: nat)
    ensures
        Heartbeat::after(start, fired).lines == Seq::new(
            fired + 1,
            |i: int| crate::clock::count_after(start, i as nat),
        ),
        Heartbeat::after(start, fired).pause == WaitForTick::begun_at(
            crate::clock::count_after(start, fired),
            HEARTBEAT_PAUSE,
        ),
        !Heartbeat::after(start, fired).pause.over_at(crate::clock::count_after(start, fired)),
    decreases fired,
{
    if fired > 0 {
        law_beats_on_every_tick(start, (fired - 1) as nat);
    }
}

/// A resumed task logs the tick count of that moment, and pauses for one tick once it has
/// logged, whatever the count.
pub proof fn law_logs_the_moment(event: HeartbeatEvent, count: u32)
    ensures
        event is Resumed ==> (heartbeat_action(event, count) matches HeartbeatAction::Log(tick)
            && tick == count),
        event is Logged ==> (heartbeat_action(event, count) matches HeartbeatAction::Pause(ticks)
            && ticks == 1),
{
}

} // verus!

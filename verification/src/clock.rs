//! The tick counter and waits for it.

use vstd::prelude::*;

verus! {

/// Milliseconds between two timer interrupts.
pub const TICK_PERIOD: u64 = 100;

/// Values that a 32-bit counter runs through before it starts over.
pub open spec fn lap() -> int {
    0x1_0000_0000
}

/// A 32-bit counter that stood at `count`, after `fired` more ticks.
pub open spec fn count_after(count: u32, fired: nat) -> u32 {
    ((count + fired) % lap()) as u32
}

/// Number of timer interrupts so far, modulo 2^32.
pub struct Ticks {
    pub count: u32,
}

impl Ticks {
    /// A counter that has seen no interrupt.
    pub fn new() -> (ticks: Ticks)
        ensures
            ticks.count == 0,
    {
        Ticks { count: 0 }
    }

    /// Counts one interrupt.
    pub fn advance(&mut self)
        ensures
            final(self).count == count_after(old(self).count, 1),
    {
        self.count = self.count.wrapping_add(1);
    }
}

/// Whether a wait is over.
#[derive(Clone, Copy, Debug, PartialEq, Eq, Structural)]
pub enum Progress {
    Ready,
    Pending,
}

/// A wait, begun at count `begun`, until the tick counter reaches `target`.
///
/// Both are counts of a counter that starts over, so progress is measured from `begun` on.
/// No waker is stored: every timer interrupt makes all tasks ready, so a pending wait is
/// polled again after the next one.
#[derive(Clone, Copy, Debug)]
pub struct WaitForTick {
    pub begun: u32,
    pub target: u32,
}

impl WaitForTick {
    /// The wait of `ticks` ticks that begins at `count`.
    pub open spec fn begun_at(count: u32, ticks: u32) -> WaitForTick {
        WaitForTick { begun: count, target: count_after(count, ticks as nat) }
    }

    /// The wait is over once the counter has come as far from the beginning as the target is.
    pub open spec fn over_at(self, count: u32) -> bool {
        (count - self.begun) % lap() >= (self.target - self.begun) % lap()
    }

    /// A wait that lasts for `ticks` more interrupts.
    pub fn after(clock: &Ticks, ticks: u32) -> (wait: WaitForTick)
        ensures
            wait == WaitForTick::begun_at(clock.count, ticks),
    {
        WaitForTick { begun: clock.count, target: clock.count.wrapping_add(ticks) }
    }

    /// Looks at the counter.
    pub fn poll(&self, clock: &Ticks) -> (progress: Progress)
        ensures
            progress == (if self.over_at(clock.count) {
                Progress::Ready
            } else {
                Progress::Pending
            }),
    {
        if clock.count.wrapping_sub(self.begun) >= self.target.wrapping_sub(self.begun) {
            Progress::Ready
        } else {
            Progress::Pending
        }
    }
}

/// Ticks add up: `a` of them and then `b` more are `a + b`.
pub proof fn law_ticks_add_up(count: u32, a: nat, b: nat)
    ensures
        count_after(count_after(count, a), b) == count_after(count, a + b),
        count_after(count, 0) == count,
{
}

/// A wait is over exactly when at least its ticks have fired since it began, wherever in its
/// lap the counter stood then. Left out is a wait that is first looked at after a whole lap,
/// when the counter is short of the target again.
pub proof fn law_wait_lasts_its_ticks(begun: u32, ticks: u32, fired: nat)
    requires
        fired < lap() || fired as int % lap() >= ticks,
    ensures
        WaitForTick::begun_at(begun, ticks).over_at(count_after(begun, fired)) <==> fired >= ticks,
{
}

/// A tick moves the counter on by one, and from its last value to 0. With `law_ticks_add_up`
/// this fixes the counter after any number of ticks.
pub proof fn law_tick_counts_one(count: u32)
    ensures
        count < 0xFFFF_FFFF ==> count_after(count, 1) == count + 1,
        count == 0xFFFF_FFFF ==> count_after(count, 1) == 0,
        count_after(count, 0x1_0000_0000) == count,
{
}

/// Of two waits begun at the same count the shorter is over first: whenever the longer one is
/// over, the shorter one is too, and right after it began only a wait for no tick is over.
pub proof fn law_shorter_wait_is_over_first(begun: u32, short: u32, long: u32, count: u32)
    requires
        short <= long,
    ensures
        WaitForTick::begun_at(begun, long).over_at(count) ==> WaitForTick::begun_at(
            begun,
            short,
        ).over_at(count),
        WaitForTick::begun_at(begun, long).over_at(begun) <==> long == 0,
{
}

} // verus!

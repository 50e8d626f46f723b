//! Round-robin polling of a few tasks by ready flags.
//!
//! Every task has a numbered slot and a flag that says whether it should be polled. Wakers
//! and interrupts raise flags; the executor goes round the slots, takes each flag down and
//! polls the task where the flag was up. It sleeps until the next interrupt after a round
//! without a poll, unless a flag has come up behind it meanwhile.

use vstd::prelude::*;

verus! {

/// Slots for tasks.
pub const MAX_TASKS: usize = 4;

/// One "should poll" flag per slot.
pub struct ReadyFlags {
    pub flags: [bool; MAX_TASKS],
}

impl View for ReadyFlags {
    type V = Seq<bool>;

    open spec fn view(&self) -> Seq<bool> {
        self.flags@
    }
}

/// Flags that are all up.
pub open spec fn all_up() -> Seq<bool> {
    Seq::new(MAX_TASKS as nat, |i: int| true)
}

/// Whether the flag of one of the first `count` slots is up.
pub open spec fn any_up(ready: Seq<bool>, count: int) -> bool {
    exists|i: int| 0 <= i < count && #[trigger] ready[i]
}

impl ReadyFlags {
    /// All flags are up, so that each task gets a first poll.
    pub fn new() -> (ready: ReadyFlags)
        ensures
            ready@ == all_up(),
    {
        ReadyFlags { flags: [true, true, true, true] }
    }

    /// Raises the flag of one slot and no other.
    pub fn wake(&mut self, slot: usize)
        requires
            slot < MAX_TASKS,
        ensures
            final(self)@ == old(self)@.update(slot as int, true),
    {
        self.flags[slot] = true;
    }

    /// Raises all flags.
    pub fn wake_all(&mut self)
        ensures
            final(self)@ == all_up(),
    {
        let mut slot: usize = 0;
        while slot < MAX_TASKS
            invariant
                slot <= MAX_TASKS,
                forall|i: int| 0 <= i < slot ==> #[trigger] self.flags@[i],
            decreases MAX_TASKS - slot,
        {
            self.flags[slot] = true;
            slot = slot + 1;
        }
    }

    /// Takes the flag of one slot down and tells whether it was up.
    pub fn take(&mut self, slot: usize) -> (was_up: bool)
        requires
            slot < MAX_TASKS,
        ensures
            was_up == old(self)@[slot as int],
            final(self)@ == old(self)@.update(slot as int, false),
    {
        let was_up: bool = self.flags[slot];
        self.flags[slot] = false;
        was_up
    }

    /// Whether the flag of one of the first `count` slots is up.
    pub fn is_any_up(&self, count: usize) -> (up: bool)
        requires
            count <= MAX_TASKS,
        ensures
            up == any_up(self@, count as int),
    {
        let mut slot: usize = 0;
        while slot < count
            invariant
                slot <= count <= MAX_TASKS,
                forall|i: int| 0 <= i < slot ==> !#[trigger] self@[i],
            decreases count - slot,
        {
            if self.flags[slot] {
                assert(self@[slot as int]);
                return true;
            }
            slot = slot + 1;
        }
        false
    }
}

/// What is to be done after a step of the executor.
#[derive(Clone, Copy, Debug, PartialEq, Eq, Structural)]
pub enum ExecutorAction {
    /// Poll the task in this slot.
    Poll(usize),
    /// Nothing: the task of this step has not been woken.
    Skip,
    /// Nothing: a round is over, and a task was polled in it or is ready now.
    NextRound,
    /// Sleep until an interrupt: a round without a poll is over, and no task is ready. The
    /// flags must not change between this step and the sleep.
    Sleep,
}

/// Where the executor stands in its round.
pub struct RoundState {
    /// Number of tasks.
    pub count: int,
    /// The slot to visit next; `count` at the end of a round.
    pub slot: int,
    /// Whether a task has been polled in this round.
    pub any_polled: bool,
}

impl RoundState {
    pub open spec fn wf(self) -> bool {
        0 <= self.slot <= self.count <= MAX_TASKS
    }

    /// The beginning of a round over `count` tasks.
    pub open spec fn start(count: int) -> RoundState {
        RoundState { count, slot: 0, any_polled: false }
    }

    /// The state after a step that finds `ready`.
    pub open spec fn next(self, ready: Seq<bool>) -> RoundState {
        if self.slot < self.count {
            RoundState {
                slot: self.slot + 1,
                any_polled: self.any_polled || ready[self.slot],
                ..self
            }
        } else {
            RoundState::start(self.count)
        }
    }

    /// The flags after a step that finds `ready`: the visited one is down.
    pub open spec fn leaves(self, ready: Seq<bool>) -> Seq<bool> {
        if self.slot < self.count {
            ready.update(self.slot, false)
        } else {
            ready
        }
    }

    /// What a step that finds `ready` asks for.
    pub open spec fn action(self, ready: Seq<bool>) -> ExecutorAction {
        if self.slot < self.count {
            if ready[self.slot] {
                ExecutorAction::Poll(self.slot as usize)
            } else {
                ExecutorAction::Skip
            }
        } else if self.any_polled || any_up(ready, self.count) {
            ExecutorAction::NextRound
        } else {
            ExecutorAction::Sleep
        }
    }
}

/// The executor.
pub struct RoundRobin {
    count: usize,
    slot: usize,
    any_polled: bool,
}

impl View for RoundRobin {
    type V = RoundState;

    closed spec fn view(&self) -> RoundState {
        RoundState {
            count: self.count as int,
            slot: self.slot as int,
            any_polled: self.any_polled,
        }
    }
}

impl RoundRobin {
    #[verifier::type_invariant]
    spec fn wf(self) -> bool {
        self.slot <= self.count <= MAX_TASKS
    }

    /// An executor for `count` tasks, in slots `0..count`.
    pub fn new(count: usize) -> (executor: RoundRobin)
        requires
            count <= MAX_TASKS,
        ensures
            executor@ == RoundState::start(count as int),
    {
        RoundRobin { count, slot: 0, any_polled: false }
    }

    /// Visits the next slot, or ends the round after the last one.
    pub fn step(&mut self, ready: &mut ReadyFlags) -> (action: ExecutorAction)
        ensures
            final(self)@.wf(),
            final(self)@ == old(self)@.next(old(ready)@),
            final(ready)@ == old(self)@.leaves(old(ready)@),
            action == old(self)@.action(old(ready)@),
    {
        proof {
            use_type_invariant(&*self);
        }
        if self.slot < self.count {
            let slot: usize = self.slot;
            self.slot = slot + 1;
            if ready.take(slot) {
                self.any_polled = true;
                ExecutorAction::Poll(slot)
            } else {
                ExecutorAction::Skip
            }
        } else {
            let busy: bool = self.any_polled || ready.is_any_up(self.count);
            self.slot = 0;
            self.any_polled = false;
            if busy {
                ExecutorAction::NextRound
            } else {
                ExecutorAction::Sleep
            }
        }
    }
}

/// `ready` with the flags raised that `wakes` names.
pub open spec fn raised(ready: Seq<bool>, wakes: spec_fn(int) -> bool) -> Seq<bool> {
    Seq::new(ready.len(), |i: int| ready[i] || wakes(i))
}

/// State and flags after `steps` steps from `from` and `ready`, where wakers and interrupts
/// raise the flags `wakes(k)` before step `k`.
pub open spec fn run(
    from: RoundState,
    ready: Seq<bool>,
    wakes: spec_fn(nat) -> (spec_fn(int) -> bool),
    steps: nat,
) -> (RoundState, Seq<bool>)
    decreases steps,
{
    if steps == 0 {
        (from, ready)
    } else {
        let k = (steps - 1) as nat;
        let (state, left) = run(from, ready, wakes, k);
        let found = raised(left, wakes(k));
        (state.next(found), state.leaves(found))
    }
}

/// The flags that step `k` of such a run finds.
pub open spec fn found_at(
    from: RoundState,
    ready: Seq<bool>,
    wakes: spec_fn(nat) -> (spec_fn(int) -> bool),
    k: nat,
) -> Seq<bool> {
    raised(run(from, ready, wakes, k).1, wakes(k))
}

/// What step `k` of such a run asks for.
pub open spec fn action_at(
    from: RoundState,
    ready: Seq<bool>,
    wakes: spec_fn(nat) -> (spec_fn(int) -> bool),
    k: nat,
) -> ExecutorAction {
    run(from, ready, wakes, k).0.action(found_at(from, ready, wakes, k))
}

/// Whether a visit among the first `k` of a round finds its flag up.
pub open spec fn any_found(
    count: int,
    ready: Seq<bool>,
    wakes: spec_fn(nat) -> (spec_fn(int) -> bool),
    k: int,
) -> bool {
    exists|i: nat| i < k && #[trigger] found_at(RoundState::start(count), ready, wakes, i)[i as int]
}

proof fn lemma_round_prefix(
    count: int,
    ready: Seq<bool>,
    wakes: spec_fn(nat) -> (spec_fn(int) -> bool),
    k: nat,
)
    requires
        k <= count <= MAX_TASKS,
        ready.len() == MAX_TASKS,
    ensures
        run(RoundState::start(count), ready, wakes, k).0 == (RoundState {
            count,
            slot: k as int,
            any_polled: any_found(count, ready, wakes, k as int),
        }),
        run(RoundState::start(count), ready, wakes, k).1.len() == MAX_TASKS,
    decreases k,
{
    if k > 0 {
        let j = (k - 1) as nat;
        lemma_round_prefix(count, ready, wakes, j);
        let found = found_at(RoundState::start(count), ready, wakes, j);
        assert(any_found(count, ready, wakes, k as int) == (any_found(
            count,
            ready,
            wakes,
            j as int,
        ) || found[j as int])) by {
            if any_found(count, ready, wakes, k as int) {
                let i = choose|i: nat|
                    i < k && #[trigger] found_at(
                        RoundState::start(count),
                        ready,
                        wakes,
                        i,
                    )[i as int];
                assert(i < j || i == j);
            }
        }
    }
}

/// A round visits every task once, in the order of the slots, and polls exactly those whose
/// flag it finds up. It ends with sleep if and only if it polled none and none is ready at
/// its end, and the next round begins.
pub proof fn law_round(
    count: int,
    ready: Seq<bool>,
    wakes: spec_fn(nat) -> (spec_fn(int) -> bool),
)
    requires
        0 <= count <= MAX_TASKS,
        ready.len() == MAX_TASKS,
    ensures
        forall|i: nat|
            i < count ==> #[trigger] action_at(RoundState::start(count), ready, wakes, i) == (
            if found_at(RoundState::start(count), ready, wakes, i)[i as int] {
                ExecutorAction::Poll(i as usize)
            } else {
                ExecutorAction::Skip
            }),
        action_at(RoundState::start(count), ready, wakes, count as nat) == (if any_found(
            count,
            ready,
            wakes,
            count,
        ) || any_up(found_at(RoundState::start(count), ready, wakes, count as nat), count) {
            ExecutorAction::NextRound
        } else {
            ExecutorAction::Sleep
        }),
        run(RoundState::start(count), ready, wakes, (count + 1) as nat).0 == RoundState::start(
            count,
        ),
{
    assert forall|i: nat| i < count implies #[trigger] action_at(
        RoundState::start(count),
        ready,
        wakes,
        i,
    ) == (if found_at(RoundState::start(count), ready, wakes, i)[i as int] {
        ExecutorAction::Poll(i as usize)
    } else {
        ExecutorAction::Skip
    }) by {
        lemma_round_prefix(count, ready, wakes, i);
    }
    lemma_round_prefix(count, ready, wakes, count as nat);
}

/// When all tasks are idle and none is woken during the round, the executor polls none of
/// them and sleeps.
pub proof fn law_idle_round_sleeps(
    count: int,
    ready: Seq<bool>,
    wakes: spec_fn(nat) -> (spec_fn(int) -> bool),
)
    requires
        0 <= count <= MAX_TASKS,
        ready.len() == MAX_TASKS,
        forall|i: int| 0 <= i < count ==> !ready[i],
        forall|k: nat, i: int|
            k <= count && 0 <= i < count ==> !#[trigger] (wakes(k))(i),
    ensures
        forall|i: nat|
            i < count ==> #[trigger] action_at(RoundState::start(count), ready, wakes, i)
                == ExecutorAction::Skip,
        action_at(RoundState::start(count), ready, wakes, count as nat) == ExecutorAction::Sleep,
{
    law_round(count, ready, wakes);
    assert forall|k: nat| k < count implies !#[trigger] found_at(
        RoundState::start(count),
        ready,
        wakes,
        k,
    )[k as int] by {
        lemma_idle_stays_idle(count, ready, wakes, k);
    }
    lemma_idle_stays_idle(count, ready, wakes, count as nat);
}

proof fn lemma_idle_stays_idle(
    count: int,
    ready: Seq<bool>,
    wakes: spec_fn(nat) -> (spec_fn(int) -> bool),
    k: nat,
)
    requires
        k <= count <= MAX_TASKS,
        ready.len() == MAX_TASKS,
        forall|i: int| 0 <= i < count ==> !ready[i],
        forall|k: nat, i: int|
            k <= count && 0 <= i < count ==> !#[trigger] (wakes(k))(i),
    ensures
        run(RoundState::start(count), ready, wakes, k).1.len() == MAX_TASKS,
        forall|i: int|
            0 <= i < count ==> !#[trigger] run(RoundState::start(count), ready, wakes, k).1[i],
    decreases k,
{
    if k > 0 {
        let j = (k - 1) as nat;
        lemma_idle_stays_idle(count, ready, wakes, j);
        lemma_round_prefix(count, ready, wakes, j);
    }
}

/// On boot every task is polled once, in the order of the slots, whatever is woken
/// meanwhile.
pub proof fn law_boot_polls_every_task(
    count: int,
    wakes: spec_fn(nat) -> (spec_fn(int) -> bool),
)
    requires
        0 < count <= MAX_TASKS,
    ensures
        forall|i: nat|
            i < count ==> #[trigger] action_at(RoundState::start(count), all_up(), wakes, i)
                == ExecutorAction::Poll(i as usize),
        action_at(RoundState::start(count), all_up(), wakes, count as nat)
            == ExecutorAction::NextRound,
{
    law_round(count, all_up(), wakes);
    assert forall|i: nat| i < count implies #[trigger] found_at(
        RoundState::start(count),
        all_up(),
        wakes,
        i,
    )[i as int] by {
        lemma_flag_stays_up(RoundState::start(count), all_up(), wakes, i as int, i);
    }
    assert(found_at(RoundState::start(count), all_up(), wakes, 0)[0]);
}

/// Steps from `from` until slot `i` is visited.
pub open spec fn distance(from: RoundState, i: int) -> int {
    if i >= from.slot {
        i - from.slot
    } else {
        from.count - from.slot + 1 + i
    }
}

proof fn lemma_flag_stays_up(
    from: RoundState,
    ready: Seq<bool>,
    wakes: spec_fn(nat) -> (spec_fn(int) -> bool),
    i: int,
    k: nat,
)
    requires
        from.wf(),
        ready.len() == MAX_TASKS,
        0 <= i < from.count,
        ready[i],
        k <= distance(from, i),
    ensures
        run(from, ready, wakes, k).0.count == from.count,
        run(from, ready, wakes, k).0.slot == (if from.slot + k <= from.count {
            from.slot + k
        } else {
            from.slot + k - from.count - 1
        }),
        run(from, ready, wakes, k).1.len() == MAX_TASKS,
        run(from, ready, wakes, k).1[i],
    decreases k,
{
    if k > 0 {
        lemma_flag_stays_up(from, ready, wakes, i, (k - 1) as nat);
    }
}

/// No wake is lost: wherever the executor stands, a task whose flag is up is polled within
/// as many steps as there are tasks and one more, without a sleep before that, whatever else
/// is woken meanwhile.
pub proof fn law_no_wake_is_lost(
    from: RoundState,
    ready: Seq<bool>,
    wakes: spec_fn(nat) -> (spec_fn(int) -> bool),
    i: int,
)
    requires
        from.wf(),
        ready.len() == MAX_TASKS,
        0 <= i < from.count,
        ready[i],
    ensures
        exists|k: nat|
            {
                &&& k <= from.count
                &&& #[trigger] action_at(from, ready, wakes, k) == ExecutorAction::Poll(i as usize)
                &&& forall|j: nat|
                    j < k ==> #[trigger] action_at(from, ready, wakes, j) != ExecutorAction::Sleep
            },
{
    let k = distance(from, i) as nat;
    lemma_flag_stays_up(from, ready, wakes, i, k);
    assert(action_at(from, ready, wakes, k) == ExecutorAction::Poll(i as usize));
    assert forall|j: nat| j < k implies #[trigger] action_at(from, ready, wakes, j)
        != ExecutorAction::Sleep by {
        lemma_flag_stays_up(from, ready, wakes, i, j);
        assert(found_at(from, ready, wakes, j)[i]);
    }
}

/// Four slots, whose flags are all up on boot and after a tick.
pub proof fn law_all_up()
    ensures
        MAX_TASKS == 4,
        all_up() == seq![true, true, true, true],
{
}

/// What a step does, for every state and all flags. A visit takes down the flag of its slot
/// and no other, asks for a poll if and only if that flag was up, and moves on by one slot. The
/// end of a round leaves the flags alone, asks for sleep if and only if nothing was polled in
/// the round and no task's flag is up, and goes back to the first slot.
pub proof fn law_step(state: RoundState, ready: Seq<bool>)
    requires
        0 <= state.slot <= state.count <= 4,
        ready.len() == 4,
    ensures
        state.leaves(ready).len() == 4,
        state.next(ready).count == state.count,
        forall|i: int|
            0 <= i < 4 && i != state.slot ==> #[trigger] state.leaves(ready)[i] == ready[i],
        state.slot < state.count ==> {
            &&& !state.leaves(ready)[state.slot]
            &&& ready[state.slot] ==> state.action(ready) == ExecutorAction::Poll(
                state.slot as usize,
            )
            &&& !ready[state.slot] ==> state.action(ready) is Skip
            &&& state.next(ready).slot == state.slot + 1
            &&& state.next(ready).any_polled <==> state.any_polled || ready[state.slot]
        },
        state.slot == state.count ==> {
            &&& state.leaves(ready) == ready
            &&& state.action(ready) is Sleep <==> !state.any_polled && forall|i: int|
                0 <= i < state.count ==> !#[trigger] ready[i]
            &&& state.action(ready) is Sleep || state.action(ready) is NextRound
            &&& state.next(ready).slot == 0
            &&& !state.next(ready).any_polled
        },
        RoundState::start(state.count).slot == 0,
        RoundState::start(state.count).count == state.count,
        !RoundState::start(state.count).any_polled,
{
}

proof fn lemma_run_wf(
    from: RoundState,
    ready: Seq<bool>,
    wakes: spec_fn(nat) -> (spec_fn(int) -> bool),
    k: nat,
)
    requires
        from.wf(),
        ready.len() == MAX_TASKS,
    ensures
        run(from, ready, wakes, k).0.wf(),
        run(from, ready, wakes, k).0.count == from.count,
        run(from, ready, wakes, k).1.len() == MAX_TASKS,
    decreases k,
{
    if k > 0 {
        lemma_run_wf(from, ready, wakes, (k - 1) as nat);
    }
}

/// A flag that is down after `down` steps and is not raised since is found down by step `k`.
proof fn lemma_flag_stays_down(
    from: RoundState,
    ready: Seq<bool>,
    wakes: spec_fn(nat) -> (spec_fn(int) -> bool),
    i: int,
    down: nat,
    k: nat,
)
    requires
        from.wf(),
        ready.len() == MAX_TASKS,
        0 <= i < MAX_TASKS,
        down <= k,
        !run(from, ready, wakes, down).1[i],
        forall|w: nat| down <= w <= k ==> !#[trigger] (wakes(w))(i),
    ensures
        !run(from, ready, wakes, k).1[i],
        !found_at(from, ready, wakes, k)[i],
    decreases k,
{
    lemma_run_wf(from, ready, wakes, k);
    assert(!(wakes(k))(i));
    if k > down {
        let j = (k - 1) as nat;
        lemma_run_wf(from, ready, wakes, j);
        lemma_flag_stays_down(from, ready, wakes, i, down, j);
    }
}

/// One wake, one poll: a task is polled only if its flag was up at first or has been raised,
/// and between two polls of the same task lies a wake of that task. The flag of a polled task
/// is down when the step is over.
pub proof fn law_polls_only_the_woken(
    from: RoundState,
    ready: Seq<bool>,
    wakes: spec_fn(nat) -> (spec_fn(int) -> bool),
    i: int,
    k: nat,
)
    requires
        from.wf(),
        ready.len() == MAX_TASKS,
        0 <= i < from.count,
        action_at(from, ready, wakes, k) == ExecutorAction::Poll(i as usize),
    ensures
        ready[i] || exists|w: nat| w <= k && #[trigger] (wakes(w))(i),
        forall|j: nat|
            j < k && #[trigger] action_at(from, ready, wakes, j) == ExecutorAction::Poll(
                i as usize,
            ) ==> exists|w: nat| j < w <= k && #[trigger] (wakes(w))(i),
        !run(from, ready, wakes, k + 1).1[i],
{
    lemma_run_wf(from, ready, wakes, k);
    if !ready[i] && forall|w: nat| w <= k ==> !#[trigger] (wakes(w))(i) {
        assert(!run(from, ready, wakes, 0).1[i]);
        lemma_flag_stays_down(from, ready, wakes, i, 0, k);
    }
    assert forall|j: nat|
        j < k && #[trigger] action_at(from, ready, wakes, j) == ExecutorAction::Poll(
            i as usize,
        ) implies exists|w: nat| j < w <= k && #[trigger] (wakes(w))(i) by {
        lemma_run_wf(from, ready, wakes, j);
        assert(!run(from, ready, wakes, j + 1).1[i]);
        if forall|w: nat| j < w <= k ==> !#[trigger] (wakes(w))(i) {
            lemma_flag_stays_down(from, ready, wakes, i, j + 1, k);
        }
    }
}

/// Without wakes, the first round takes down the flags of all tasks.
proof fn lemma_quiet_round(
    count: int,
    ready: Seq<bool>,
    wakes: spec_fn(nat) -> (spec_fn(int) -> bool),
    k: nat,
)
    requires
        k <= count + 1,
        0 <= count <= MAX_TASKS,
        ready.len() == MAX_TASKS,
        forall|w: nat, i: int|
            w <= 2 * count + 1 && 0 <= i < count ==> !#[trigger] (wakes(w))(i),
    ensures
        run(RoundState::start(count), ready, wakes, k).1.len() == MAX_TASKS,
        forall|i: int|
            0 <= i < count && i < k ==> !#[trigger] run(
                RoundState::start(count),
                ready,
                wakes,
                k,
            ).1[i],
    decreases k,
{
    if k > 0 {
        let j = (k - 1) as nat;
        lemma_quiet_round(count, ready, wakes, j);
        lemma_round_prefix(count, ready, wakes, j);
    }
}

/// Without wakes, the second round finds all flags down.
proof fn lemma_quiet_second_round(
    count: int,
    ready: Seq<bool>,
    wakes: spec_fn(nat) -> (spec_fn(int) -> bool),
    k: nat,
)
    requires
        k <= count,
        0 <= count <= MAX_TASKS,
        ready.len() == MAX_TASKS,
        forall|w: nat, i: int|
            w <= 2 * count + 1 && 0 <= i < count ==> !#[trigger] (wakes(w))(i),
    ensures
        run(RoundState::start(count), ready, wakes, (count + 1 + k) as nat).0 == (RoundState {
            count,
            slot: k as int,
            any_polled: false,
        }),
        run(RoundState::start(count), ready, wakes, (count + 1 + k) as nat).1.len() == MAX_TASKS,
        forall|i: int|
            0 <= i < count ==> !#[trigger] run(
                RoundState::start(count),
                ready,
                wakes,
                (count + 1 + k) as nat,
            ).1[i],
    decreases k,
{
    if k == 0 {
        law_round(count, ready, wakes);
        lemma_quiet_round(count, ready, wakes, (count + 1) as nat);
    } else {
        lemma_quiet_second_round(count, ready, wakes, (k - 1) as nat);
        assert((count + 1 + k) as nat - 1 == (count + 1 + (k - 1) as nat) as nat);
    }
}

/// Left alone, the executor comes to rest: from the start of a round with any flags and no
/// wakes, each task is polled at most once, exactly those whose flags are up in the first round
/// and none in the second, and the executor sleeps at the end of the second round if not of the
/// first.
pub proof fn law_rests_when_left_alone(
    count: int,
    ready: Seq<bool>,
    wakes: spec_fn(nat) -> (spec_fn(int) -> bool),
)
    requires
        0 <= count <= 4,
        ready.len() == 4,
        forall|w: nat, i: int|
            w <= 2 * count + 1 && 0 <= i < count ==> !#[trigger] (wakes(w))(i),
    ensures
        forall|i: nat|
            i < count ==> (#[trigger] action_at(RoundState::start(count), ready, wakes, i)
                == ExecutorAction::Poll(i as usize) <==> ready[i as int]),
        forall|k: nat|
            count < k <= 2 * count ==> #[trigger] action_at(
                RoundState::start(count),
                ready,
                wakes,
                k,
            ) is Skip,
        action_at(RoundState::start(count), ready, wakes, count as nat) is Sleep <==> forall|
            i: int,
        |
            0 <= i < count ==> !#[trigger] ready[i],
        action_at(RoundState::start(count), ready, wakes, (2 * count + 1) as nat) is Sleep,
{
    let start = RoundState::start(count);
    law_round(count, ready, wakes);
    assert forall|i: nat| i < count implies #[trigger] found_at(start, ready, wakes, i)[i as int]
        == ready[i as int] by {
        lemma_run_wf(start, ready, wakes, i);
        assert(!(wakes(i))(i as int));
        if ready[i as int] {
            lemma_flag_stays_up(start, ready, wakes, i as int, i);
        } else {
            assert(!run(start, ready, wakes, 0).1[i as int]);
            lemma_flag_stays_down(start, ready, wakes, i as int, 0, i);
        }
    }
    lemma_quiet_round(count, ready, wakes, count as nat);
    let end = found_at(start, ready, wakes, count as nat);
    assert forall|i: int| 0 <= i < count implies !#[trigger] end[i] by {
        assert(!(wakes(count as nat))(i));
    }
    assert(any_found(count, ready, wakes, count) == exists|i: int|
        0 <= i < count && #[trigger] ready[i]) by {
        if exists|i: int| 0 <= i < count && #[trigger] ready[i] {
            let i = choose|i: int| 0 <= i < count && #[trigger] ready[i];
            assert(found_at(start, ready, wakes, i as nat)[i as nat as int]);
        }
    }
    assert forall|k: nat| count < k <= 2 * count implies #[trigger] action_at(
        start,
        ready,
        wakes,
        k,
    ) is Skip by {
        let j = (k - count - 1) as nat;
        lemma_quiet_second_round(count, ready, wakes, j);
        assert((count + 1 + j) as nat == k);
        assert(!(wakes(k))(j as int));
        assert(!run(start, ready, wakes, k).1[j as int]);
    }
    lemma_quiet_second_round(count, ready, wakes, count as nat);
    let last = (2 * count + 1) as nat;
    assert((count + 1 + count as nat) as nat == last);
    assert forall|i: int| 0 <= i < count implies !#[trigger] found_at(
        start,
        ready,
        wakes,
        last,
    )[i] by {
        assert(!(wakes(last))(i));
        assert(!run(start, ready, wakes, last).1[i]);
    }
}

} // verus!

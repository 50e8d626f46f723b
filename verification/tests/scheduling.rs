use tickradio::board::Board;
use tickradio::clock::{Progress, Ticks, WaitForTick, TICK_PERIOD};
use tickradio::executor::{ExecutorAction, ReadyFlags, RoundRobin, MAX_TASKS};
use tickradio::heartbeat::{heartbeat_step, HeartbeatAction, HeartbeatEvent};

fn steps(executor: &mut RoundRobin, ready: &mut ReadyFlags, n: usize) -> Vec<ExecutorAction> {
    (0..n).map(|_| executor.step(ready)).collect()
}

#[test]
fn boot_polls_every_task_and_then_sleeps() {
    let mut board = Board::new();
    let mut executor = RoundRobin::new(3);
    assert_eq!(
        steps(&mut executor, &mut board.ready, 8),
        vec![
            ExecutorAction::Poll(0),
            ExecutorAction::Poll(1),
            ExecutorAction::Poll(2),
            ExecutorAction::NextRound,
            ExecutorAction::Skip,
            ExecutorAction::Skip,
            ExecutorAction::Skip,
            ExecutorAction::Sleep,
        ]
    );
    assert!(board.ready.flags[3]);
}

#[test]
fn a_waker_wakes_its_slot_alone() {
    let mut ready = ReadyFlags { flags: [false; MAX_TASKS] };
    ready.wake(2);
    assert_eq!(ready.flags, [false, false, true, false]);
    let mut executor = RoundRobin::new(4);
    assert_eq!(
        steps(&mut executor, &mut ready, 5),
        vec![
            ExecutorAction::Skip,
            ExecutorAction::Skip,
            ExecutorAction::Poll(2),
            ExecutorAction::Skip,
            ExecutorAction::NextRound,
        ]
    );
    assert_eq!(ready.flags, [false; 4]);
}

#[test]
fn a_wake_behind_the_executor_is_served_before_any_sleep() {
    let mut ready = ReadyFlags { flags: [false; MAX_TASKS] };
    let mut executor = RoundRobin::new(2);
    assert_eq!(executor.step(&mut ready), ExecutorAction::Skip);
    ready.wake(0);
    assert_eq!(
        steps(&mut executor, &mut ready, 3),
        vec![ExecutorAction::Skip, ExecutorAction::NextRound, ExecutorAction::Poll(0)]
    );
}

#[test]
fn a_wake_after_the_last_visit_is_served_before_any_sleep() {
    let mut ready = ReadyFlags { flags: [false; MAX_TASKS] };
    let mut executor = RoundRobin::new(2);
    assert_eq!(
        steps(&mut executor, &mut ready, 2),
        vec![ExecutorAction::Skip, ExecutorAction::Skip]
    );
    ready.wake(1);
    assert_eq!(
        steps(&mut executor, &mut ready, 3),
        vec![ExecutorAction::NextRound, ExecutorAction::Skip, ExecutorAction::Poll(1)]
    );
}

#[test]
fn flags_of_unused_slots_do_not_keep_the_executor_awake() {
    let mut ready = ReadyFlags { flags: [false, false, true, true] };
    assert!(!ready.is_any_up(2));
    assert!(ready.is_any_up(3));
    assert!(!ready.is_any_up(0));
    let mut executor = RoundRobin::new(2);
    assert_eq!(
        steps(&mut executor, &mut ready, 3),
        vec![ExecutorAction::Skip, ExecutorAction::Skip, ExecutorAction::Sleep]
    );
}

#[test]
fn taking_a_flag_clears_it() {
    let mut ready = ReadyFlags::new();
    assert!(ready.take(1));
    assert!(!ready.take(1));
    assert_eq!(ready.flags, [true, false, true, true]);
    ready.wake_all();
    assert_eq!(ready.flags, [true; 4]);
}

#[test]
fn without_tasks_the_executor_sleeps() {
    let mut ready = ReadyFlags::new();
    let mut executor = RoundRobin::new(0);
    assert_eq!(executor.step(&mut ready), ExecutorAction::Sleep);
    assert_eq!(executor.step(&mut ready), ExecutorAction::Sleep);
    assert_eq!(ready.flags, [true; 4]);
}

#[test]
fn a_tick_counts_and_wakes_all() {
    let mut board = Board::new();
    assert_eq!(board.clock.count, 0);
    board.ready.take(0);
    board.ready.take(3);
    board.timer_fired();
    assert_eq!(board.clock.count, 1);
    assert_eq!(board.ready.flags, [true; 4]);
    assert_eq!(board.shown.get(), 8);
    board.clock.count = u32::MAX;
    board.timer_fired();
    assert_eq!(board.clock.count, 0);
    assert_eq!(TICK_PERIOD, 100);
}

#[test]
fn a_wait_lasts_its_ticks() {
    let mut clock = Ticks { count: 40 };
    let wait = WaitForTick::after(&clock, 3);
    assert_eq!(wait.target, 43);
    for _ in 0..3 {
        assert_eq!(wait.poll(&clock), Progress::Pending);
        clock.advance();
    }
    assert_eq!(wait.poll(&clock), Progress::Ready);
    clock.advance();
    assert_eq!(wait.poll(&clock), Progress::Ready);
}

#[test]
fn a_wait_for_nothing_is_over() {
    let clock = Ticks::new();
    assert_eq!(WaitForTick::after(&clock, 0).poll(&clock), Progress::Ready);
}

#[test]
fn a_wait_lasts_its_ticks_over_the_end_of_the_counter() {
    let mut clock = Ticks { count: u32::MAX - 2 };
    let wait = WaitForTick::after(&clock, 10);
    assert_eq!((wait.begun, wait.target), (u32::MAX - 2, 7));
    for _ in 0..10 {
        assert_eq!(wait.poll(&clock), Progress::Pending);
        clock.advance();
    }
    assert_eq!(clock.count, 7);
    assert_eq!(wait.poll(&clock), Progress::Ready);
}

#[test]
fn a_wait_stays_over_when_the_counter_starts_over() {
    let mut clock = Ticks { count: u32::MAX - 1 };
    let wait = WaitForTick::after(&clock, 1);
    assert_eq!(wait.poll(&clock), Progress::Pending);
    for _ in 0..3 {
        clock.advance();
        assert_eq!(wait.poll(&clock), Progress::Ready);
    }
    assert_eq!(clock.count, 1);
}

#[test]
fn the_longest_wait_is_pending_to_its_last_tick() {
    let clock = Ticks { count: 5 };
    let wait = WaitForTick::after(&clock, u32::MAX);
    assert_eq!(wait.poll(&clock), Progress::Pending);
    assert_eq!(wait.poll(&Ticks { count: 3 }), Progress::Pending);
    assert_eq!(wait.poll(&Ticks { count: 4 }), Progress::Ready);
}

fn heartbeat_lines(mut clock: Ticks, interrupts: usize) -> Vec<u32> {
    let mut lines: Vec<u32> = Vec::new();
    for _ in 0..=interrupts {
        match heartbeat_step(HeartbeatEvent::Resumed, &clock) {
            HeartbeatAction::Log(count) => lines.push(count),
            HeartbeatAction::Pause(_) => panic!("no line"),
        }
        let pause = match heartbeat_step(HeartbeatEvent::Logged, &clock) {
            HeartbeatAction::Pause(ticks) => WaitForTick::after(&clock, ticks),
            HeartbeatAction::Log(_) => panic!("no pause"),
        };
        assert_eq!(pause.poll(&clock), Progress::Pending);
        clock.advance();
        assert_eq!(pause.poll(&clock), Progress::Ready);
    }
    lines
}

#[test]
fn heartbeat_logs_every_tick() {
    assert_eq!(heartbeat_lines(Ticks::new(), 4), vec![0, 1, 2, 3, 4]);
}

#[test]
fn heartbeat_logs_every_tick_over_the_end_of_the_counter() {
    assert_eq!(
        heartbeat_lines(Ticks { count: u32::MAX - 1 }, 3),
        vec![u32::MAX - 1, u32::MAX, 0, 1]
    );
}

use chip8::sched::{interval_from_hz, Clock, Scheduler};

#[test]
fn intervals_from_the_default_rates() {
    assert_eq!(interval_from_hz(700), 1_428_571);
    assert_eq!(interval_from_hz(60), 16_666_666);
    assert_eq!(interval_from_hz(120), 8_333_333);
    assert_eq!(interval_from_hz(1), 1_000_000_000);
}

#[test]
fn a_stall_of_three_intervals_runs_exactly_three_cycles() {
    let mut s = Scheduler::new(1_000, 100, 500, 700);
    assert_eq!(s.instructions_due(1_300), 3);
    assert_eq!(s.instructions_due(1_300), 0);
    assert_eq!(s.instructions_due(1_399), 0);
    assert_eq!(s.instructions_due(1_400), 1);
}

#[test]
fn catch_up_accumulates_without_drift() {
    let mut c = Clock::new(0, 100);
    assert_eq!(c.due(250), 2);
    assert_eq!(c.last_tick, 200);
    assert_eq!(c.due(299), 0);
    assert_eq!(c.due(300), 1);
    assert_eq!(c.last_tick, 300);
    assert_eq!(c.due(1_000_000), 9_997);
    assert_eq!(c.last_tick, 1_000_000);
}

#[test]
fn time_before_the_accumulator_counts_nothing() {
    let mut c = Clock::new(500, 100);
    assert_eq!(c.due(400), 0);
    assert_eq!(c.last_tick, 500);
}

#[test]
fn render_fires_only_with_a_pending_draw_and_a_due_tick() {
    let mut s = Scheduler::new(0, 100, 500, 700);
    assert!(!s.render_due(600, false));
    assert_eq!(s.render.last_tick, 0);
    assert!(!s.render_due(400, true));
    assert!(s.render_due(600, true));
    assert_eq!(s.render.last_tick, 500);
    assert!(!s.render_due(600, true));
}

#[test]
fn timer_ticks_catch_up_like_instructions() {
    let mut s = Scheduler::new(0, 100, 500, 700);
    assert_eq!(s.timers_due(2_100), 3);
    assert_eq!(s.timers_due(2_100), 0);
}

#[test]
fn sleep_runs_to_the_earliest_deadline() {
    let s = Scheduler::new(0, 100, 500, 700);
    assert_eq!(s.sleep_nanos(40), 60);
    assert_eq!(s.sleep_nanos(100), 0);
    assert_eq!(s.sleep_nanos(150), 0);

    let mut s = Scheduler::new(0, 100, 500, 700);
    let _ = s.instructions_due(105);
    assert_eq!(s.sleep_nanos(105), 95);
}

#[test]
fn next_tick_saturates_instead_of_wrapping() {
    let c = Clock::new(u64::MAX - 10, 100);
    assert_eq!(c.next_tick(), u64::MAX);
}

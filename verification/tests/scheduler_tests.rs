use feed_bot::scheduler::{LoopAction, LoopState, Scheduler, DEFAULT_INTERVAL_SECONDS};

#[test]
fn default_interval_is_two_hours() {
    assert_eq!(DEFAULT_INTERVAL_SECONDS, 7200);
}

#[test]
fn a_fresh_scheduler_starts_working_at_once() {
    let s = Scheduler::new(7200);
    assert_eq!(s.state, LoopState::Working);
    assert_eq!(s.interval_seconds, 7200);
}

#[test]
fn cycle_end_sleeps_for_the_full_interval() {
    let mut s = Scheduler::new(50);
    let action = s.on_cycle_end(100);
    assert_eq!(action, LoopAction::SleepUntil { until: 150 });
    assert_eq!(s.state, LoopState::Idle { wake_at: 150 });
}

#[test]
fn at_least_the_interval_elapses_between_cycles() {
    // Cycle work ends at 100 with a 50-second interval: no new cycle may
    // start before 150, however long the work itself took.
    let mut s = Scheduler::new(50);
    s.on_cycle_end(100);
    assert_eq!(s.on_timer(149), LoopAction::KeepWaiting);
    assert_eq!(s.state, LoopState::Idle { wake_at: 150 });
    assert_eq!(s.on_timer(150), LoopAction::RunCycle);
    assert_eq!(s.state, LoopState::Working);
}

#[test]
fn a_late_timer_still_starts_the_cycle() {
    let mut s = Scheduler::new(50);
    s.on_cycle_end(100);
    assert_eq!(s.on_timer(500), LoopAction::RunCycle);
}

#[test]
fn a_working_scheduler_never_overlaps_cycles() {
    let mut s = Scheduler::new(50);
    assert_eq!(s.state, LoopState::Working);
    assert_eq!(s.on_timer(1000), LoopAction::KeepWaiting);
    assert_eq!(s.state, LoopState::Working);
}

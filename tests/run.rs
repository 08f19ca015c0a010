use console_pauser::{
    finalize, Clock, ExecutionResult, PollAction, PollEvent, PollState, Poller, Status,
};

fn timed_out(flag: bool) -> PollEvent {
    PollEvent::TimedOut { interrupt_requested: flag }
}

#[test]
fn child_that_exits_is_reported_with_its_code() {
    let mut clock = Clock::start(5_000, 1_000);
    let mut poller = Poller::new();
    assert_eq!(poller.step(PollEvent::Signaled), PollAction::Report);
    assert_eq!(poller.state(), PollState::Exited);
    assert!(poller.is_done());
    let r = finalize(7, &mut clock, 5_250);
    assert_eq!(r.exit_code, 7);
    assert_eq!(r.elapsed_nanos, Some(250_000_000));
}

#[test]
fn two_second_child_reports_about_two_seconds() {
    let frequency: i64 = 10_000_000;
    let mut clock = Clock::start(123_456, frequency);
    let mut poller = Poller::new();
    assert_eq!(poller.step(timed_out(false)), PollAction::Wait);
    assert_eq!(poller.step(timed_out(false)), PollAction::Wait);
    assert_eq!(poller.step(PollEvent::Signaled), PollAction::Report);
    let r = finalize(0, &mut clock, 123_456 + 2 * frequency);
    assert_eq!(r, ExecutionResult { exit_code: 0, elapsed_nanos: Some(2_000_000_000) });
    let seconds = r.elapsed_nanos.unwrap() as f64 / 1e9;
    assert!((seconds - 2.0).abs() < 1e-9);
}

#[test]
fn interrupt_terminates_at_next_timeout() {
    let mut poller = Poller::new();
    assert_eq!(poller.step(timed_out(false)), PollAction::Wait);
    assert_eq!(poller.state(), PollState::Running);
    assert_eq!(poller.step(timed_out(true)), PollAction::Terminate { exit_code: 1 });
    assert_eq!(poller.state(), PollState::Interrupted);
    assert!(!poller.is_done());
    assert_eq!(poller.step(PollEvent::Terminated), PollAction::Report);
    assert_eq!(poller.state(), PollState::Exited);
    assert!(poller.is_done());
}

#[test]
fn interrupt_seen_many_times_terminates_once() {
    let mut poller = Poller::new();
    let events = vec![
        timed_out(false),
        timed_out(true),
        timed_out(true),
        timed_out(true),
        PollEvent::Terminated,
        timed_out(true),
        PollEvent::Signaled,
    ];
    let mut terminations = 0;
    for e in events {
        if let PollAction::Terminate { .. } = poller.step(e) {
            terminations += 1;
        }
    }
    assert_eq!(terminations, 1);
    assert_eq!(poller.state(), PollState::Exited);
}

#[test]
fn wait_failure_aborts_the_loop() {
    let mut poller = Poller::new();
    assert_eq!(poller.step(timed_out(false)), PollAction::Wait);
    assert_eq!(poller.step(PollEvent::WaitFailed), PollAction::Abort);
    assert_eq!(poller.state(), PollState::Failed);
    assert!(poller.is_done());
    assert_eq!(poller.step(timed_out(true)), PollAction::Abort);
    assert_eq!(poller.state(), PollState::Failed);
}

#[test]
fn terminated_while_running_changes_nothing() {
    let mut poller = Poller::new();
    assert_eq!(poller.step(PollEvent::Terminated), PollAction::Wait);
    assert_eq!(poller.state(), PollState::Running);
}

#[test]
fn exited_poller_keeps_reporting() {
    let mut poller = Poller::new();
    assert_eq!(poller.step(PollEvent::Signaled), PollAction::Report);
    assert_eq!(poller.step(timed_out(true)), PollAction::Report);
    assert_eq!(poller.step(PollEvent::WaitFailed), PollAction::Report);
    assert_eq!(poller.state(), PollState::Exited);
}

#[test]
fn clock_readings_never_go_back() {
    let mut clock = Clock::start(1_000, 100);
    let a = clock.now(1_500);
    let b = clock.now(1_200);
    let c = clock.now(1_700);
    assert_eq!(a, 1_500);
    assert_eq!(b, 1_500);
    assert_eq!(c, 1_700);
    assert!(b >= a && c >= b);
    assert_eq!(clock.start_tick(), 1_000);
    assert_eq!(clock.last_tick(), 1_700);
    assert_eq!(clock.frequency(), 100);
    assert_eq!(clock.elapsed_nanos(), Some(7_000_000_000));
}

#[test]
fn clock_reading_behind_start_counts_as_no_time() {
    let mut clock = Clock::start(1_000, 100);
    let r = finalize(3, &mut clock, 10);
    assert_eq!(r.elapsed_nanos, Some(0));
    assert_eq!(clock.last_tick(), 1_000);
}

#[test]
fn zero_frequency_gives_no_elapsed_time() {
    let mut clock = Clock::start(0, 0);
    let r = finalize(1, &mut clock, 1_000_000);
    assert_eq!(r, ExecutionResult { exit_code: 1, elapsed_nanos: None });
    let mut negative = Clock::start(0, -5);
    assert_eq!(finalize(1, &mut negative, 10).elapsed_nanos, None);
}

#[test]
fn elapsed_time_rounds_down() {
    let mut clock = Clock::start(0, 3);
    assert_eq!(finalize(0, &mut clock, 1).elapsed_nanos, Some(333_333_333));
}

#[test]
fn widest_clock_span_does_not_overflow() {
    let mut clock = Clock::start(i64::MIN, 1);
    let r = finalize(0, &mut clock, i64::MAX);
    assert_eq!(r.elapsed_nanos, Some(u64::MAX as u128 * 1_000_000_000));
}

#[test]
fn status_codes() {
    assert_eq!(i32::from(Status::SUCCESS), 0);
    assert_eq!(i32::from(Status::FAILURE), -1);
    let code: i32 = Status::FAILURE.into();
    assert_eq!(code, -1);
    assert_eq!(Status::SUCCESS.as_u32(), 0);
    assert_eq!(Status::FAILURE.as_u32(), 1);
}

use eb::backoff::JITTER_SCALE;
use eb::retry::{
    run_script, AttemptOutcome, AttemptRecord, ExitClassification, RetryLoop, RetryStatus,
};

const SECOND: u64 = 1_000_000_000;

fn success(elapsed_nanos: u64) -> AttemptRecord {
    AttemptRecord { classification: ExitClassification::Success, elapsed_nanos }
}

fn failure(code: i32, elapsed_nanos: u64) -> AttemptRecord {
    AttemptRecord { classification: ExitClassification::Failure(code), elapsed_nanos }
}

fn signal(elapsed_nanos: u64) -> AttemptRecord {
    AttemptRecord { classification: ExitClassification::SignalTerminated, elapsed_nanos }
}

#[test]
fn immediate_success_makes_one_attempt_and_never_sleeps() {
    let events = vec![success(SECOND)];
    let report = run_script(None, None, 10, JITTER_SCALE, &events);
    assert_eq!(report.attempts, 1);
    assert_eq!(report.delays, Vec::<u64>::new());
    assert_eq!(report.status, RetryStatus::Succeeded);
}

#[test]
fn two_failures_then_success_makes_three_attempts_and_two_delays() {
    let events = vec![failure(1, SECOND), failure(1, SECOND), success(SECOND)];
    let report = run_script(None, None, 10, JITTER_SCALE, &events);
    assert_eq!(report.attempts, 3);
    assert_eq!(report.delays, vec![SECOND, 3 * SECOND]);
    assert!(report.delays.iter().all(|d| *d > 0));
    assert_eq!(report.status, RetryStatus::Succeeded);
}

#[test]
fn always_failing_with_max_three_exhausts_after_two_delays() {
    let events = vec![failure(1, SECOND), failure(1, SECOND), failure(1, SECOND)];
    let report = run_script(Some(3), None, 10, JITTER_SCALE, &events);
    assert_eq!(report.attempts, 3);
    assert_eq!(report.delays, vec![SECOND, 3 * SECOND]);
    assert_eq!(report.status, RetryStatus::Exhausted);
}

#[test]
fn signal_on_first_attempt_is_fatal_with_no_delay() {
    let events = vec![signal(SECOND)];
    let report = run_script(None, None, 10, JITTER_SCALE, &events);
    assert_eq!(report.attempts, 1);
    assert_eq!(report.delays, Vec::<u64>::new());
    assert_eq!(report.status, RetryStatus::Fatal);
}

#[test]
fn max_of_zero_runs_nothing() {
    let events = vec![success(SECOND)];
    let report = run_script(Some(0), None, 10, JITTER_SCALE, &events);
    assert_eq!(report.attempts, 0);
    assert_eq!(report.delays, Vec::<u64>::new());
    assert_eq!(report.status, RetryStatus::Exhausted);
}

#[test]
fn user_specified_slot_time_prices_the_delays() {
    // Elapsed times differ wildly; the configured slot time must win.
    let events = vec![failure(7, 50 * SECOND), failure(7, 1), success(SECOND)];
    let report = run_script(None, Some(SECOND), 10, JITTER_SCALE, &events);
    assert_eq!(report.attempts, 3);
    assert_eq!(report.delays, vec![SECOND, 3 * SECOND]);
    assert_eq!(report.status, RetryStatus::Succeeded);
}

#[test]
fn script_running_out_reports_still_running() {
    let events = vec![failure(1, SECOND)];
    let report = run_script(None, None, 10, JITTER_SCALE, &events);
    assert_eq!(report.attempts, 1);
    assert_eq!(report.delays, vec![SECOND]);
    assert_eq!(report.status, RetryStatus::Running);
}

#[test]
fn stepwise_success_and_signal() {
    let mut engine = RetryLoop::new(None, None, 10);
    assert!(!engine.exhausted());
    let out = engine.record_attempt_with_jitter(ExitClassification::Success, SECOND, JITTER_SCALE);
    assert_eq!(out, AttemptOutcome::Succeeded);
    assert_eq!(engine.attempts, 1);

    let mut engine = RetryLoop::new(None, None, 10);
    let out = engine.record_attempt_with_jitter(
        ExitClassification::SignalTerminated,
        SECOND,
        JITTER_SCALE,
    );
    assert_eq!(out, AttemptOutcome::FatalSignal);
    assert_eq!(engine.attempts, 1);
}

#[test]
fn stepwise_failure_on_last_allowed_attempt_is_exhausted() {
    let mut engine = RetryLoop::new(Some(1), None, 10);
    assert!(!engine.exhausted());
    let out = engine.record_attempt_with_jitter(ExitClassification::Failure(2), SECOND, JITTER_SCALE);
    assert_eq!(out, AttemptOutcome::Exhausted);
    assert!(engine.exhausted());
}

#[test]
fn stepwise_sampled_failure_delay_stays_below_the_window() {
    let mut rng = rand::thread_rng();
    for _ in 0..20 {
        let mut engine = RetryLoop::new(None, None, 10);
        let out = engine.record_attempt(ExitClassification::Failure(1), 1_000, &mut rng);
        match out {
            // Seeded slot time is 1000 ns and the window after one attempt is
            // one slot, so a strict sub-scale jitter keeps the delay under it.
            AttemptOutcome::RetryAfter(d) => assert!(d < 1_000),
            other => panic!("unexpected outcome {:?}", other),
        }
    }
}

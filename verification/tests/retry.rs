use solana_cli_sentinel::retry::{RetrySchedule, RetryStep};

#[test]
fn three_attempts_wait_one_then_two_seconds() {
    let mut s = RetrySchedule::new(3);
    assert_eq!(s.attempt(), 1);
    assert_eq!(s.after_failure(), RetryStep::Retry { delay_secs: 1 });
    assert_eq!(s.attempt(), 2);
    assert_eq!(s.after_failure(), RetryStep::Retry { delay_secs: 2 });
    assert_eq!(s.attempt(), 3);
    assert_eq!(s.after_failure(), RetryStep::GiveUp);
    assert_eq!(s.attempt(), 3);
    assert_eq!(s.max_attempts(), 3);
}

#[test]
fn single_attempt_gives_up_at_once() {
    let mut s = RetrySchedule::new(1);
    assert_eq!(s.after_failure(), RetryStep::GiveUp);
}

#[test]
fn waits_double_up_to_two_to_the_62() {
    let mut s = RetrySchedule::new(64);
    for k in 0..63u32 {
        assert!(s.failure_fits());
        assert_eq!(s.after_failure(), RetryStep::Retry { delay_secs: 1u64 << k });
    }
    assert_eq!(s.attempt(), 64);
    assert!(s.failure_fits());
    assert_eq!(s.after_failure(), RetryStep::GiveUp);
}

#[test]
fn doubling_past_two_to_the_63_does_not_fit() {
    let mut s = RetrySchedule::new(100);
    for _ in 0..63 {
        s.after_failure();
    }
    assert_eq!(s.attempt(), 64);
    assert!(!s.failure_fits());
}

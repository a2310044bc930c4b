use std::time::Duration;

use regolith_inputd::retry::{
    retry_action, retry_fallible, Attempts, EVENT_MAX_RETRIES, EVENT_RETRY_DELAY, STARTUP_MAX_RETRIES,
    STARTUP_RETRY_DELAY,
};

#[test]
fn startup_retry_policy_has_sixty_retries_at_half_second_intervals() {
    assert_eq!(STARTUP_MAX_RETRIES, 60);
    assert_eq!(Duration::from_millis(STARTUP_RETRY_DELAY), Duration::from_millis(500));
}

#[test]
fn initial_event_stream_failure_is_returned_after_retries() {
    let mut attempts = 0;
    let result = retry_action(
        &mut Attempts::new(
            || {
                attempts += 1;
                Err::<swayipc::EventStream, _>("event subscription failed")
            },
            |_| {},
        ),
        STARTUP_MAX_RETRIES,
    );

    assert!(result.is_err());
    assert_eq!(
        result.err().map(|error| error.to_string()),
        Some("event subscription failed".to_string())
    );
    assert_eq!(attempts, STARTUP_MAX_RETRIES + 1);
}

#[test]
fn retries_after_failure() {
    let mut attempts = 0;
    let result = retry_fallible(
        &mut Attempts::new(
            || {
                attempts += 1;
                if attempts == 3 {
                    Ok(attempts)
                } else {
                    Err("temporary failure")
                }
            },
            |_| {},
        ),
        3,
    );
    assert_eq!(result, Ok(3));
    assert_eq!(attempts, 3);
}

#[test]
fn returns_final_error_after_retries() {
    let mut attempts = 0;
    let result: Result<(), &str> = retry_fallible(
        &mut Attempts::new(
            || {
                attempts += 1;
                Err("final failure")
            },
            |_| {},
        ),
        2,
    );
    assert_eq!(result.unwrap_err(), "final failure");
    assert_eq!(attempts, 3);
}

#[test]
fn returns_final_error_without_panicking_after_retries() {
    let mut attempts = 0;
    let result = retry_action(
        &mut Attempts::new(
            || {
                attempts += 1;
                Err::<(), _>("final failure")
            },
            |_| {},
        ),
        2,
    );

    assert_eq!(result, Err("final failure"));
    assert_eq!(attempts, 3);
}

#[test]
fn pauses_only_between_attempts() {
    let mut attempts = 0;
    let mut pauses = 0;
    let result: Result<(), u32> = retry_fallible(
        &mut Attempts::new(
            || {
                attempts += 1;
                Err(attempts)
            },
            |_| pauses += 1,
        ),
        4,
    );
    assert_eq!(result, Err(5));
    assert_eq!(attempts, 5);
    assert_eq!(pauses, 4);
}

#[test]
fn zero_retries_runs_once_and_success_stops_at_once() {
    let mut attempts = 0;
    let result: Result<(), &str> = retry_fallible(
        &mut Attempts::new(
            || {
                attempts += 1;
                Err("no")
            },
            |_| {},
        ),
        0,
    );
    assert_eq!(result, Err("no"));
    assert_eq!(attempts, 1);

    let mut attempts = 0;
    let mut pauses = 0;
    let result: Result<u8, &str> = retry_fallible(
        &mut Attempts::new(
            || {
                attempts += 1;
                Ok(7)
            },
            |_| pauses += 1,
        ),
        10,
    );
    assert_eq!(result, Ok(7));
    assert_eq!(attempts, 1);
    assert_eq!(pauses, 0);
}

#[test]
fn event_retry_policy_has_five_retries_at_half_second_intervals() {
    assert_eq!(EVENT_MAX_RETRIES, 5);
    assert_eq!(Duration::from_millis(EVENT_RETRY_DELAY), Duration::from_millis(500));
}

#[test]
fn one_record_serves_successive_retries() {
    let mut calls = 0;
    let mut pauses = 0;
    let mut steps = Attempts::new(
        || {
            calls += 1;
            if calls % 2 == 0 {
                Ok(calls)
            } else {
                Err(calls)
            }
        },
        |_| pauses += 1,
    );
    assert_eq!(retry_fallible(&mut steps, 3), Ok(2));
    assert_eq!(retry_fallible(&mut steps, 0), Err(3));
    drop(steps);
    assert_eq!(calls, 3);
    assert_eq!(pauses, 1);
}

#[test]
fn each_pause_is_handed_the_error_before_it() {
    let mut attempts = 0;
    let mut seen = Vec::new();
    let result: Result<(), u32> = retry_fallible(
        &mut Attempts::new(
            || {
                attempts += 1;
                Err(attempts)
            },
            |error: &u32| seen.push(*error),
        ),
        2,
    );
    assert_eq!(result, Err(3));
    assert_eq!(seen, vec![1, 2]);
}

use rs_crtsh::config::Config;
use rs_crtsh::retry::{
    backoff_delay, handle_request_error_retry, handle_retry_delay, next_step, retry_attempt_banner,
    run_attempts, should_retry_for_status, AttemptOutcome, ExecutionError, RetryStep, RunEnd,
};

fn config(retry: u32, retry_delay_nanos: u64, verbose: bool) -> Config {
    Config {
        retry,
        retry_delay_nanos,
        timeout: 30,
        timing: false,
        url: String::from("https://example.test/q"),
        verbose,
    }
}

fn response(status: u16) -> AttemptOutcome {
    AttemptOutcome::Response { status }
}

#[test]
fn retryable_statuses_are_server_errors_429_and_408() {
    assert!(should_retry_for_status(500));
    assert!(should_retry_for_status(599));
    assert!(should_retry_for_status(429));
    assert!(should_retry_for_status(408));
    assert!(!should_retry_for_status(404));
    assert!(!should_retry_for_status(200));
    assert!(!should_retry_for_status(301));
    assert!(!should_retry_for_status(499));
}

#[test]
fn every_status_is_classified_by_the_rule() {
    let mut status: u16 = 0;
    loop {
        let expected = (500..=599).contains(&status) || status == 429 || status == 408;
        assert_eq!(should_retry_for_status(status), expected, "status {}", status);
        if status == u16::MAX {
            break;
        }
        status += 1;
    }
}

#[test]
fn backoff_doubles_from_the_base_delay() {
    let second: u64 = 1_000_000_000;
    assert_eq!(backoff_delay(second, 1), 1_000_000_000);
    assert_eq!(backoff_delay(second, 2), 2_000_000_000);
    assert_eq!(backoff_delay(second, 3), 4_000_000_000);
    assert_eq!(backoff_delay(second, 4), 8_000_000_000);
    assert_eq!(backoff_delay(1_500_000_000, 3), 6_000_000_000);
}

#[test]
fn backoff_before_any_attempt_is_the_base_delay() {
    assert_eq!(backoff_delay(250, 0), 250);
    assert_eq!(backoff_delay(250, 1), 250);
}

#[test]
fn backoff_of_no_delay_is_no_delay() {
    assert_eq!(backoff_delay(0, 1), 0);
    assert_eq!(backoff_delay(0, 70), 0);
    assert_eq!(backoff_delay(0, u64::MAX), 0);
}

#[test]
fn backoff_is_cut_down_to_the_longest_delay() {
    assert_eq!(backoff_delay(1, 64), 1u64 << 63);
    assert_eq!(backoff_delay(1, 65), u64::MAX);
    assert_eq!(backoff_delay(3, 63), 3u64 << 62);
    assert_eq!(backoff_delay(3, 64), u64::MAX);
    assert_eq!(backoff_delay(1_000_000_000, 40), u64::MAX);
    assert_eq!(backoff_delay(u64::MAX, 1), u64::MAX);
    assert_eq!(backoff_delay(u64::MAX, 2), u64::MAX);
    assert_eq!(backoff_delay(7, u64::MAX), u64::MAX);
}

#[test]
fn retryable_response_is_retried_while_attempts_remain() {
    let c = config(2, 1_000_000_000, false);
    assert_eq!(next_step(&c, 1, &response(500)), RetryStep::Retry { delay_nanos: 1_000_000_000 });
    assert_eq!(next_step(&c, 2, &response(429)), RetryStep::Retry { delay_nanos: 2_000_000_000 });
    assert_eq!(next_step(&c, 3, &response(500)), RetryStep::Deliver);
}

#[test]
fn other_responses_are_delivered_at_once() {
    let c = config(5, 1_000_000_000, false);
    assert_eq!(next_step(&c, 1, &response(200)), RetryStep::Deliver);
    assert_eq!(next_step(&c, 1, &response(404)), RetryStep::Deliver);
    assert_eq!(next_step(&c, 2, &response(301)), RetryStep::Deliver);
}

#[test]
fn transport_error_is_retried_then_fails() {
    let c = config(1, 10, false);
    assert_eq!(next_step(&c, 1, &AttemptOutcome::TransportError), RetryStep::Retry { delay_nanos: 10 });
    assert_eq!(
        next_step(&c, 2, &AttemptOutcome::TransportError),
        RetryStep::Fail { error: ExecutionError::Transport }
    );
}

#[test]
fn request_that_cannot_be_copied_fails_at_once() {
    let c = config(3, 10, false);
    assert_eq!(
        next_step(&c, 1, &AttemptOutcome::CloneFailed),
        RetryStep::Fail { error: ExecutionError::RequestClone }
    );
}

#[test]
fn most_retries_do_not_overflow() {
    let c = config(u32::MAX, 1, false);
    let last = u32::MAX as u64 + 1;
    assert_eq!(next_step(&c, last - 1, &response(500)), RetryStep::Retry { delay_nanos: u64::MAX });
    assert_eq!(next_step(&c, last, &response(500)), RetryStep::Deliver);
    assert_eq!(
        next_step(&c, last, &AttemptOutcome::TransportError),
        RetryStep::Fail { error: ExecutionError::Transport }
    );
}

#[test]
fn run_stops_at_the_first_response_that_is_not_retried() {
    let c = config(3, 1_000_000_000, false);
    let run = run_attempts(&c, &vec![response(500), response(503), response(404), response(200)]);
    assert_eq!(run.attempts, 3);
    assert_eq!(run.delays, vec![1_000_000_000, 2_000_000_000]);
    assert_eq!(run.end, RunEnd::Delivered { status: 404 });
}

#[test]
fn run_delivers_a_failing_response_once_attempts_are_used_up() {
    let c = config(2, 5, false);
    let run = run_attempts(&c, &vec![response(500), response(500), response(502), response(200)]);
    assert_eq!(run.attempts, 3);
    assert_eq!(run.delays, vec![5, 10]);
    assert_eq!(run.end, RunEnd::Delivered { status: 502 });
}

#[test]
fn run_without_retry_makes_one_attempt() {
    let c = config(0, 1_000_000_000, false);
    for status in [500u16, 429, 408, 200, 404] {
        let run = run_attempts(&c, &vec![response(status), response(200)]);
        assert_eq!(run.attempts, 1);
        assert!(run.delays.is_empty());
        assert_eq!(run.end, RunEnd::Delivered { status });
    }
    let run = run_attempts(&c, &vec![AttemptOutcome::TransportError, response(200)]);
    assert_eq!(run.attempts, 1);
    assert!(run.delays.is_empty());
    assert_eq!(run.end, RunEnd::Failed { error: ExecutionError::Transport });
}

#[test]
fn run_retries_transport_errors_on_the_same_schedule() {
    let c = config(2, 100, false);
    let run = run_attempts(&c, &vec![AttemptOutcome::TransportError, response(500), response(200)]);
    assert_eq!(run.attempts, 3);
    assert_eq!(run.delays, vec![100, 200]);
    assert_eq!(run.end, RunEnd::Delivered { status: 200 });
    let failed = run_attempts(
        &c,
        &vec![AttemptOutcome::TransportError, AttemptOutcome::TransportError, AttemptOutcome::TransportError],
    );
    assert_eq!(failed.attempts, 3);
    assert_eq!(failed.delays, vec![100, 200]);
    assert_eq!(failed.end, RunEnd::Failed { error: ExecutionError::Transport });
}

#[test]
fn run_ends_when_the_request_cannot_be_copied() {
    let c = config(4, 100, false);
    let run = run_attempts(&c, &vec![response(500), AttemptOutcome::CloneFailed, response(200)]);
    assert_eq!(run.attempts, 2);
    assert_eq!(run.delays, vec![100]);
    assert_eq!(run.end, RunEnd::Failed { error: ExecutionError::RequestClone });
}

#[test]
fn run_is_pending_while_every_outcome_was_retried() {
    let c = config(4, 100, false);
    let run = run_attempts(&c, &vec![response(500), response(500)]);
    assert_eq!(run.attempts, 2);
    assert_eq!(run.delays, vec![100, 200]);
    assert_eq!(run.end, RunEnd::Pending);
    let none = run_attempts(&c, &vec![]);
    assert_eq!(none.attempts, 0);
    assert!(none.delays.is_empty());
    assert_eq!(none.end, RunEnd::Pending);
}

#[test]
fn run_never_makes_more_attempts_than_configured() {
    for retry in 0u32..6 {
        let c = config(retry, 1, false);
        let run = run_attempts(&c, &vec![response(500); 10]);
        assert_eq!(run.attempts, retry as usize + 1);
        assert_eq!(run.delays.len(), retry as usize);
        assert_eq!(run.end, RunEnd::Delivered { status: 500 });
        for (i, delay) in run.delays.iter().enumerate() {
            assert_eq!(*delay, 1u64 << i);
        }
    }
}

#[test]
fn retry_after_response_is_announced_when_verbose() {
    let pause = handle_retry_delay(&config(3, 1_000_000_000, true), 2, 503);
    assert_eq!(pause.message, Some(String::from("HTTP 503 - retrying after delay...")));
    assert_eq!(pause.delay_nanos, 2_000_000_000);
    let quiet = handle_retry_delay(&config(3, 1_000_000_000, false), 2, 503);
    assert_eq!(quiet.message, None);
    assert_eq!(quiet.delay_nanos, 2_000_000_000);
}

#[test]
fn retry_after_error_is_announced_when_verbose() {
    let pause = handle_request_error_retry(&config(3, 500, true), 1, "connection refused");
    assert_eq!(
        pause.message,
        Some(String::from("Request error: connection refused - retrying after delay..."))
    );
    assert_eq!(pause.delay_nanos, 500);
    let quiet = handle_request_error_retry(&config(3, 500, false), 3, "connection refused");
    assert_eq!(quiet.message, None);
    assert_eq!(quiet.delay_nanos, 2000);
}

#[test]
fn banner_numbers_the_retry() {
    assert_eq!(retry_attempt_banner(&config(3, 1, true), 1), None);
    assert_eq!(retry_attempt_banner(&config(3, 1, true), 2), Some(String::from("--- Retry Attempt 1 ---")));
    assert_eq!(retry_attempt_banner(&config(3, 1, true), 11), Some(String::from("--- Retry Attempt 10 ---")));
    assert_eq!(retry_attempt_banner(&config(3, 1, false), 2), None);
    assert_eq!(retry_attempt_banner(&config(3, 1, true), 0), None);
}

#[test]
fn execution_errors_have_a_message() {
    assert_eq!(ExecutionError::RequestClone.message(), "Failed to clone request for retry");
    assert_eq!(ExecutionError::Transport.message(), "Request failed in transport");
}

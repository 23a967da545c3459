use nested_timeouts::error::TaskError;
use nested_timeouts::race::{race, secs_to_ms, Winner};
use nested_timeouts::steps::{complex_task, network_request, process_data};
use nested_timeouts::text::decimal_string;

fn err(s: &str) -> TaskError {
    TaskError(s.to_string())
}

#[test]
fn race_work_wins_when_strictly_earlier() {
    assert_eq!(race(499, 500), Winner::Work);
    assert_eq!(race(0, 1), Winner::Work);
}

#[test]
fn race_tie_goes_to_deadline() {
    assert_eq!(race(5000, 5000), Winner::Deadline);
    assert_eq!(race(0, 0), Winner::Deadline);
    assert_eq!(race(7000, 5000), Winner::Deadline);
}

#[test]
fn secs_to_ms_scales_and_saturates() {
    assert_eq!(secs_to_ms(0), 0);
    assert_eq!(secs_to_ms(6), 6000);
    assert_eq!(secs_to_ms(u64::MAX / 1000), (u64::MAX / 1000) * 1000);
    assert_eq!(secs_to_ms(u64::MAX / 1000 + 1), u64::MAX);
    assert_eq!(secs_to_ms(u64::MAX), u64::MAX);
}

#[test]
fn decimal_string_renders_digits() {
    assert_eq!(decimal_string(0), "0");
    assert_eq!(decimal_string(7), "7");
    assert_eq!(decimal_string(10), "10");
    assert_eq!(decimal_string(1234), "1234");
    assert_eq!(decimal_string(u64::MAX), "18446744073709551615");
}

#[test]
fn data_step_succeeds_on_work_branch_within_plausible_time() {
    assert_eq!(process_data(1, 0, Winner::Work), Ok("Data processed for task 1".to_string()));
    assert_eq!(process_data(42, 3, Winner::Work), Ok("Data processed for task 42".to_string()));
}

#[test]
fn data_step_fails_on_work_branch_beyond_plausible_time() {
    assert_eq!(
        process_data(3, 4, Winner::Work),
        Err(err("Processing timeout for task 3 after 4 seconds"))
    );
}

#[test]
fn data_step_fails_on_ceiling_branch() {
    assert_eq!(
        process_data(7, 9, Winner::Deadline),
        Err(err("Task 7 exceeded maximum processing time of 5 seconds"))
    );
    assert_eq!(
        process_data(7, 1, Winner::Deadline),
        Err(err("Task 7 exceeded maximum processing time of 5 seconds"))
    );
}

#[test]
fn network_step_outcomes() {
    assert_eq!(network_request(2, Winner::Work), Ok(()));
    assert_eq!(
        network_request(2, Winner::Deadline),
        Err(err("Network request timeout for task 2"))
    );
}

#[test]
fn outer_deadline_supersedes_inner_result() {
    assert_eq!(complex_task(3, None), Err(err("Task 3 timed out after 6 seconds")));
}

#[test]
fn inner_result_passes_through_when_in_time() {
    assert_eq!(
        complex_task(1, Some(Ok("Data processed for task 1".to_string()))),
        Ok("Data processed for task 1".to_string())
    );
    assert_eq!(
        complex_task(2, Some(Err(err("Network request timeout for task 2")))),
        Err(err("Network request timeout for task 2"))
    );
}

#[test]
fn task_error_message_returns_text() {
    let e = err("Task 9 timed out after 6 seconds");
    assert_eq!(e.message(), "Task 9 timed out after 6 seconds");
}

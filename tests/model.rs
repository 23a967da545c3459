use nested_timeouts::error::TaskError;
use nested_timeouts::model::{simulate_complex_task, simulate_data_step, simulate_network_step};
use nested_timeouts::runner::{default_scenario, report_lines, result_line, run_tasks};

fn err(s: &str) -> TaskError {
    TaskError(s.to_string())
}

#[test]
fn simulated_data_step_plausible_times_succeed() {
    for t in 0..=3u64 {
        let (r, ms) = simulate_data_step(5, t);
        assert_eq!(r, Ok("Data processed for task 5".to_string()));
        assert_eq!(ms, t * 1000);
    }
}

#[test]
fn simulated_data_step_implausible_time_fails() {
    let (r, ms) = simulate_data_step(3, 4);
    assert_eq!(r, Err(err("Processing timeout for task 3 after 4 seconds")));
    assert_eq!(ms, 4000);
}

#[test]
fn simulated_data_step_ceiling_from_five_seconds() {
    for t in [5u64, 6, 100, u64::MAX] {
        let (r, ms) = simulate_data_step(8, t);
        assert_eq!(r, Err(err("Task 8 exceeded maximum processing time of 5 seconds")));
        assert_eq!(ms, 5000);
    }
}

#[test]
fn simulated_network_step_always_succeeds() {
    assert_eq!(simulate_network_step(1), (Ok(()), 500));
    assert_eq!(simulate_network_step(u32::MAX), (Ok(()), 500));
}

#[test]
fn simulated_composite_task_times() {
    assert_eq!(
        simulate_complex_task(2, 1),
        (Ok("Data processed for task 2".to_string()), 1500)
    );
    assert_eq!(
        simulate_complex_task(1, 2),
        (Ok("Data processed for task 1".to_string()), 2500)
    );
}

#[test]
fn simulated_composite_task_long_time_reports_ceiling_not_outer_deadline() {
    for t in [5u64, 6, 7, 1000] {
        let (r, ms) = simulate_complex_task(4, t);
        assert_eq!(r, Err(err("Task 4 exceeded maximum processing time of 5 seconds")));
        assert_eq!(ms, 5500);
    }
}

#[test]
fn default_scenario_is_three_tasks() {
    assert_eq!(default_scenario(), vec![(1, 2), (2, 1), (3, 4)]);
}

#[test]
fn default_run_results() {
    let results = run_tasks(&default_scenario());
    assert_eq!(
        results,
        vec![
            Ok("Data processed for task 1".to_string()),
            Ok("Data processed for task 2".to_string()),
            Err(err("Processing timeout for task 3 after 4 seconds")),
        ]
    );
}

#[test]
fn default_run_report_keeps_submission_order() {
    let lines = report_lines(&run_tasks(&default_scenario()));
    assert_eq!(
        lines,
        vec![
            "Task 1 completed successfully: Data processed for task 1".to_string(),
            "Task 2 completed successfully: Data processed for task 2".to_string(),
            "Task 3 failed: Processing timeout for task 3 after 4 seconds".to_string(),
        ]
    );
}

#[test]
fn report_numbers_by_position() {
    let results = run_tasks(&vec![(9, 6), (4, 0)]);
    let lines = report_lines(&results);
    assert_eq!(
        lines,
        vec![
            "Task 1 failed: Task 9 exceeded maximum processing time of 5 seconds".to_string(),
            "Task 2 completed successfully: Data processed for task 4".to_string(),
        ]
    );
}

#[test]
fn empty_run() {
    let results = run_tasks(&vec![]);
    assert!(results.is_empty());
    assert!(report_lines(&results).is_empty());
}

#[test]
fn single_result_line_formats() {
    assert_eq!(
        result_line(12, &Ok("done".to_string())),
        "Task 12 completed successfully: done"
    );
    assert_eq!(result_line(3, &Err(err("late"))), "Task 3 failed: late");
}

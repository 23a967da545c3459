use vstd::prelude::*;
use crate::error::{TaskError, outcome_view};
use crate::model::{composite_outcome, simulate_complex_task};
use crate::text::{decimal, push_decimal};

verus! {

/// The report line for the task at 1-based position `n` with outcome `o`.
pub open spec fn result_line_text(n: nat, o: Result<Seq<char>, Seq<char>>) -> Seq<char> {
    match o {
        Ok(m) => "Task "@ + decimal(n) + " completed successfully: "@ + m,
        Err(e) => "Task "@ + decimal(n) + " failed: "@ + e,
    }
}

/// The tasks of the default run, as (identifier, processing time in seconds).
pub open spec fn default_tasks() -> Seq<(u32, u64)> {
    seq![(1u32, 2u64), (2u32, 1u64), (3u32, 4u64)]
}

/// The default run: three tasks with processing times of 2, 1 and 4 seconds.
pub fn default_scenario() -> (r: Vec<(u32, u64)>)
    ensures
        r@ == default_tasks(),
{
    let r: Vec<(u32, u64)> = vec![(1u32, 2u64), (2u32, 1u64), (3u32, 4u64)];
    assert(r@ =~= default_tasks());
    r
}

/// Runs every task on simulated time, each independently of the others, and
/// returns their results in the order the tasks were given.
pub fn run_tasks(tasks: &Vec<(u32, u64)>) -> (r: Vec<Result<String, TaskError>>)
    ensures
        r.len() == tasks.len(),
        forall|i: int|
            0 <= i < tasks.len() ==> #[trigger] outcome_view(r[i]) == composite_outcome(
                tasks[i].0 as nat,
                tasks[i].1 as nat,
            ),
{
    let mut r: Vec<Result<String, TaskError>> = Vec::new();
    let mut i: usize = 0;
    while i < tasks.len()
        invariant
            i <= tasks.len(),
            r.len() == i,
            forall|j: int|
                0 <= j < i ==> #[trigger] outcome_view(r[j]) == composite_outcome(
                    tasks[j].0 as nat,
                    tasks[j].1 as nat,
                ),
        decreases tasks.len() - i,
    {
        let (id, processing_time) = tasks[i];
        let (outcome, _elapsed) = simulate_complex_task(id, processing_time);
        r.push(outcome);
        i = i + 1;
    }
    r
}

/// The report line for the task at 1-based position `n`.
pub fn result_line(n: u64, result: &Result<String, TaskError>) -> (r: String)
    ensures
        r@ == result_line_text(n as nat, outcome_view(*result)),
{
    let mut s = String::from_str("Task ");
    push_decimal(&mut s, n);
    match result {
        Ok(m) => {
            s.append(" completed successfully: ");
            s.append(m.as_str());
        },
        Err(e) => {
            s.append(" failed: ");
            s.append(e.0.as_str());
        },
    }
    s
}

/// One report line per result, numbered from 1 in the order given.
pub fn report_lines(results: &Vec<Result<String, TaskError>>) -> (r: Vec<String>)
    ensures
        r.len() == results.len(),
        forall|i: int|
            0 <= i < results.len() ==> #[trigger] r[i]@ == result_line_text(
                (i + 1) as nat,
                outcome_view(results[i]),
            ),
{
    let mut r: Vec<String> = Vec::new();
    let mut i: usize = 0;
    while i < results.len()
        invariant
            i <= results.len(),
            r.len() == i,
            forall|j: int|
                0 <= j < i ==> #[trigger] r[j]@ == result_line_text(
                    (j + 1) as nat,
                    outcome_view(results[j]),
                ),
        decreases results.len() - i,
    {
        let line = result_line(i as u64 + 1, &results[i]);
        r.push(line);
        i = i + 1;
    }
    r
}

} // verus!

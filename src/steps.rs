use vstd::prelude::*;
use crate::error::{TaskError, outcome_view, unit_outcome_view};
use crate::race::Winner;
use crate::text::{decimal, push_decimal};

verus! {

/// The longest processing time, in seconds, that the data step accepts as plausible.
pub const DATA_PLAUSIBLE_SECS: u64 = 3;

/// The data step's own ceiling, in seconds.
pub const DATA_CEILING_SECS: u64 = 5;

/// How long the simulated network request takes, in milliseconds.
pub const NETWORK_WORK_MS: u64 = 500;

/// The network step's own deadline, in milliseconds.
pub const NETWORK_TIMEOUT_MS: u64 = 1000;

/// The outer deadline around a whole composite task, in seconds.
pub const TASK_DEADLINE_SECS: u64 = 6;

/// The data step's success message.
pub open spec fn data_processed_message(id: nat) -> Seq<char> {
    "Data processed for task "@ + decimal(id)
}

/// The data step's failure when its declared time was implausibly long.
pub open spec fn processing_timeout_message(id: nat, secs: nat) -> Seq<char> {
    "Processing timeout for task "@ + decimal(id) + " after "@ + decimal(secs) + " seconds"@
}

/// The data step's failure when its ceiling fired first.
pub open spec fn ceiling_message(id: nat) -> Seq<char> {
    "Task "@ + decimal(id) + " exceeded maximum processing time of "@
        + decimal(DATA_CEILING_SECS as nat) + " seconds"@
}

/// The network step's failure when its deadline fired first.
pub open spec fn network_timeout_message(id: nat) -> Seq<char> {
    "Network request timeout for task "@ + decimal(id)
}

/// A composite task's failure when the outer deadline fired first.
pub open spec fn task_timeout_message(id: nat) -> Seq<char> {
    "Task "@ + decimal(id) + " timed out after "@ + decimal(TASK_DEADLINE_SECS as nat)
        + " seconds"@
}

/// What the data step yields once its race is decided: on the work's side it
/// succeeds unless the declared time exceeds the plausible bound; on the
/// ceiling's side it fails.
pub open spec fn data_outcome(id: nat, processing_time: nat, winner: Winner) -> Result<Seq<char>, Seq<char>> {
    match winner {
        Winner::Work => if processing_time > DATA_PLAUSIBLE_SECS {
            Err(processing_timeout_message(id, processing_time))
        } else {
            Ok(data_processed_message(id))
        },
        Winner::Deadline => Err(ceiling_message(id)),
    }
}

/// What the network step yields once its race is decided.
pub open spec fn network_outcome(id: nat, winner: Winner) -> Result<(), Seq<char>> {
    match winner {
        Winner::Work => Ok(()),
        Winner::Deadline => Err(network_timeout_message(id)),
    }
}

/// What a composite task yields: the inner chain's result if it finished
/// before the outer deadline (`Some`), else the outer timeout.
pub open spec fn deadline_outcome(id: nat, inner: Option<Result<Seq<char>, Seq<char>>>) -> Result<Seq<char>, Seq<char>> {
    match inner {
        Some(r) => r,
        None => Err(task_timeout_message(id)),
    }
}

/// The data step's result, given which of its two timers fired first.
pub fn process_data(id: u32, processing_time: u64, winner: Winner) -> (r: Result<String, TaskError>)
    ensures
        outcome_view(r) == data_outcome(id as nat, processing_time as nat, winner),
{
    match winner {
        Winner::Work => {
            if processing_time > DATA_PLAUSIBLE_SECS {
                let mut s = String::from_str("Processing timeout for task ");
                push_decimal(&mut s, id as u64);
                s.append(" after ");
                push_decimal(&mut s, processing_time);
                s.append(" seconds");
                Err(TaskError(s))
            } else {
                let mut s = String::from_str("Data processed for task ");
                push_decimal(&mut s, id as u64);
                Ok(s)
            }
        },
        Winner::Deadline => {
            let mut s = String::from_str("Task ");
            push_decimal(&mut s, id as u64);
            s.append(" exceeded maximum processing time of ");
            push_decimal(&mut s, DATA_CEILING_SECS);
            s.append(" seconds");
            Err(TaskError(s))
        },
    }
}

/// The network step's result, given which of its two timers fired first.
pub fn network_request(id: u32, winner: Winner) -> (r: Result<(), TaskError>)
    ensures
        unit_outcome_view(r) == network_outcome(id as nat, winner),
{
    match winner {
        Winner::Work => Ok(()),
        Winner::Deadline => {
            let mut s = String::from_str("Network request timeout for task ");
            push_decimal(&mut s, id as u64);
            Err(TaskError(s))
        },
    }
}

/// A composite task's result: `inner` is the result of the network and data
/// chain when it finished before the outer deadline, and `None` when the
/// deadline fired first.
pub fn complex_task(id: u32, inner: Option<Result<String, TaskError>>) -> (r: Result<String, TaskError>)
    ensures
        outcome_view(r) == deadline_outcome(
            id as nat,
            match inner {
                Some(x) => Some(outcome_view(x)),
                None => None,
            },
        ),
{
    match inner {
        Some(x) => x,
        None => {
            let mut s = String::from_str("Task ");
            push_decimal(&mut s, id as u64);
            s.append(" timed out after ");
            push_decimal(&mut s, TASK_DEADLINE_SECS);
            s.append(" seconds");
            Err(TaskError(s))
        },
    }
}

} // verus!

use vstd::prelude::*;
use crate::error::{TaskError, outcome_view, unit_outcome_view};
use crate::race::{Winner, ms_of_secs, race, race_elapsed, race_winner, secs_to_ms};
use crate::steps::{
    DATA_CEILING_SECS, NETWORK_TIMEOUT_MS, NETWORK_WORK_MS, TASK_DEADLINE_SECS, complex_task,
    data_outcome, deadline_outcome, network_outcome, network_request, process_data,
};

verus! {

/// Which timer of the data step fires first for a processing time of `t` seconds.
pub open spec fn data_winner(t: nat) -> Winner {
    race_winner(ms_of_secs(t), ms_of_secs(DATA_CEILING_SECS as nat))
}

/// The data step's result for a processing time of `t` seconds.
pub open spec fn data_step(id: nat, t: nat) -> Result<Seq<char>, Seq<char>> {
    data_outcome(id, t, data_winner(t))
}

/// How long the data step runs, in milliseconds.
pub open spec fn data_step_ms(t: nat) -> nat {
    race_elapsed(ms_of_secs(t), ms_of_secs(DATA_CEILING_SECS as nat))
}

/// Which timer of the network step fires first.
pub open spec fn network_winner() -> Winner {
    race_winner(NETWORK_WORK_MS as nat, NETWORK_TIMEOUT_MS as nat)
}

/// The network step's result.
pub open spec fn network_step(id: nat) -> Result<(), Seq<char>> {
    network_outcome(id, network_winner())
}

/// How long the network step runs, in milliseconds.
pub open spec fn network_step_ms() -> nat {
    race_elapsed(NETWORK_WORK_MS as nat, NETWORK_TIMEOUT_MS as nat)
}

/// The network step followed by the data step; a network failure ends the chain.
pub open spec fn chain_outcome(id: nat, t: nat) -> Result<Seq<char>, Seq<char>> {
    match network_step(id) {
        Ok(()) => data_step(id, t),
        Err(e) => Err(e),
    }
}

/// How long the chain runs, in milliseconds.
pub open spec fn chain_ms(t: nat) -> nat {
    network_step_ms() + if network_winner() == Winner::Work {
        data_step_ms(t)
    } else {
        0
    }
}

/// Whether the chain finishes before the outer deadline.
pub open spec fn chain_in_time(t: nat) -> bool {
    race_winner(chain_ms(t), ms_of_secs(TASK_DEADLINE_SECS as nat)) == Winner::Work
}

/// A composite task's result: the chain's, unless the outer deadline fired first.
pub open spec fn composite_outcome(id: nat, t: nat) -> Result<Seq<char>, Seq<char>> {
    deadline_outcome(id, if chain_in_time(t) { Some(chain_outcome(id, t)) } else { None })
}

/// How long a composite task runs, in milliseconds.
pub open spec fn composite_ms(t: nat) -> nat {
    race_elapsed(chain_ms(t), ms_of_secs(TASK_DEADLINE_SECS as nat))
}

/// Runs the data step's race on simulated time: the result and the time taken.
pub fn simulate_data_step(id: u32, processing_time: u64) -> (r: (Result<String, TaskError>, u64))
    ensures
        outcome_view(r.0) == data_step(id as nat, processing_time as nat),
        r.1 == data_step_ms(processing_time as nat),
{
    let work = secs_to_ms(processing_time);
    let ceiling = DATA_CEILING_SECS * 1000;
    let winner = race(work, ceiling);
    let elapsed = if work < ceiling { work } else { ceiling };
    (process_data(id, processing_time, winner), elapsed)
}

/// Runs the network step's race on simulated time: the result and the time taken.
pub fn simulate_network_step(id: u32) -> (r: (Result<(), TaskError>, u64))
    ensures
        unit_outcome_view(r.0) == network_step(id as nat),
        r.1 == network_step_ms(),
{
    let winner = race(NETWORK_WORK_MS, NETWORK_TIMEOUT_MS);
    let elapsed = if NETWORK_WORK_MS < NETWORK_TIMEOUT_MS { NETWORK_WORK_MS } else { NETWORK_TIMEOUT_MS };
    (network_request(id, winner), elapsed)
}

/// Runs a composite task on simulated time: the network step, then the data
/// step, both under the outer deadline. Returns the result and the time taken.
pub fn simulate_complex_task(id: u32, processing_time: u64) -> (r: (Result<String, TaskError>, u64))
    ensures
        outcome_view(r.0) == composite_outcome(id as nat, processing_time as nat),
        r.1 == composite_ms(processing_time as nat),
{
    let (net, net_ms) = simulate_network_step(id);
    let (chain, chain_elapsed): (Result<String, TaskError>, u64) = match net {
        Ok(()) => {
            let (data, data_ms) = simulate_data_step(id, processing_time);
            (data, net_ms + data_ms)
        },
        Err(e) => (Err(e), net_ms),
    };
    let deadline = TASK_DEADLINE_SECS * 1000;
    let inner = match race(chain_elapsed, deadline) {
        Winner::Work => Some(chain),
        Winner::Deadline => None,
    };
    let elapsed = if chain_elapsed < deadline { chain_elapsed } else { deadline };
    (complex_task(id, inner), elapsed)
}

} // verus!

use vstd::prelude::*;
use crate::race::Winner;
use crate::steps::{ceiling_message, data_processed_message, processing_timeout_message};
use crate::model::{
    chain_in_time, chain_ms, chain_outcome, composite_outcome, data_step, data_winner,
    network_step, network_winner,
};

verus! {

/// A processing time of at most three seconds wins the data step's race, and
/// the step succeeds with a message naming the task.
pub proof fn lemma_plausible_time_succeeds(id: u32, t: u64)
    requires
        t <= 3,
    ensures
        data_winner(t as nat) == Winner::Work,
        data_step(id as nat, t as nat) == Ok::<Seq<char>, Seq<char>>(data_processed_message(id as nat)),
{
}

/// A processing time over three and under five seconds still wins the data
/// step's race, yet the step fails with a processing timeout.
pub proof fn lemma_implausible_time_fails(id: u32, t: u64)
    requires
        3 < t < 5,
    ensures
        data_winner(t as nat) == Winner::Work,
        data_step(id as nat, t as nat) == Err::<Seq<char>, Seq<char>>(
            processing_timeout_message(id as nat, t as nat),
        ),
{
}

/// A processing time of five seconds or more loses the data step's race to its
/// ceiling, and the step fails citing that ceiling.
pub proof fn lemma_ceiling_fails(id: u32, t: u64)
    requires
        t >= 5,
    ensures
        data_winner(t as nat) == Winner::Deadline,
        data_step(id as nat, t as nat) == Err::<Seq<char>, Seq<char>>(ceiling_message(id as nat)),
{
}

/// The network step's work always finishes before its own deadline, so the
/// step always succeeds.
pub proof fn lemma_network_succeeds(id: u32)
    ensures
        network_winner() == Winner::Work,
        network_step(id as nat) == Ok::<(), Seq<char>>(()),
{
}

/// The network step and the data step together end within five and a half
/// seconds, before the outer deadline: a composite task's result is always
/// that of its chain, and for five seconds or more it is the ceiling failure.
pub proof fn lemma_chain_beats_outer_deadline(id: u32, t: u64)
    ensures
        chain_ms(t as nat) <= 5500,
        chain_in_time(t as nat),
        composite_outcome(id as nat, t as nat) == chain_outcome(id as nat, t as nat),
        t >= 5 ==> composite_outcome(id as nat, t as nat) == Err::<Seq<char>, Seq<char>>(
            ceiling_message(id as nat),
        ),
{
}

} // verus!

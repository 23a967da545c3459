use vstd::prelude::*;

verus! {

/// Which side of a race between a piece of work and a deadline resolved first.
#[derive(Clone, Copy, Debug, PartialEq, Eq, Structural)]
pub enum Winner {
    /// The work finished strictly before the deadline.
    Work,
    /// The deadline fired first, or at the same instant as the work.
    Deadline,
}

/// The winner of a race between work that takes `work_ms` and a deadline at
/// `deadline_ms`. A tie goes to the deadline.
pub open spec fn race_winner(work_ms: nat, deadline_ms: nat) -> Winner {
    if work_ms < deadline_ms {
        Winner::Work
    } else {
        Winner::Deadline
    }
}

/// Decides a race between work lasting `work_ms` and a deadline at `deadline_ms`.
pub fn race(work_ms: u64, deadline_ms: u64) -> (w: Winner)
    ensures
        w == race_winner(work_ms as nat, deadline_ms as nat),
{
    if work_ms < deadline_ms {
        Winner::Work
    } else {
        Winner::Deadline
    }
}

} // verus!

verus! {

/// How long a race between `work_ms` and `deadline_ms` lasts.
pub open spec fn race_elapsed(work_ms: nat, deadline_ms: nat) -> nat {
    if work_ms < deadline_ms {
        work_ms
    } else {
        deadline_ms
    }
}

/// `secs` seconds in milliseconds.
pub open spec fn ms_of_secs(secs: nat) -> nat {
    secs * 1000
}

/// `secs` in milliseconds, or `u64::MAX` where that does not fit.
pub fn secs_to_ms(secs: u64) -> (r: u64)
    ensures
        ms_of_secs(secs as nat) <= u64::MAX ==> r == ms_of_secs(secs as nat),
        ms_of_secs(secs as nat) > u64::MAX ==> r == u64::MAX,
{
    if secs <= u64::MAX / 1000 {
        secs * 1000
    } else {
        u64::MAX
    }
}

} // verus!

use vstd::prelude::*;

verus! {

/// The one failure kind of a task: a description of which bound was exceeded.
#[derive(Debug, PartialEq, Eq)]
pub struct TaskError(pub String);

impl TaskError {
    /// The description carried by this error.
    pub fn message(&self) -> (r: &str)
        ensures
            r@ == self.0@,
    {
        self.0.as_str()
    }
}

/// A step's or a task's outcome, with its texts seen as character sequences.
pub open spec fn outcome_view(r: Result<String, TaskError>) -> Result<Seq<char>, Seq<char>> {
    match r {
        Ok(s) => Ok(s@),
        Err(e) => Err(e.0@),
    }
}

/// A payload-free outcome, with its failure text seen as a character sequence.
pub open spec fn unit_outcome_view(r: Result<(), TaskError>) -> Result<(), Seq<char>> {
    match r {
        Ok(()) => Ok(()),
        Err(e) => Err(e.0@),
    }
}

} // verus!

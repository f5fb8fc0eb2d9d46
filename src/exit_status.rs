use vstd::prelude::*;

verus! {

/// The outcome a task reports when its work unit ends.
#[derive(Debug)]
pub enum ExitStatus<Error> {
    /// The task ended cleanly.
    Success,
    /// The task failed, without asking for the process to stop.
    Error(Error),
    /// The task failed in a way that must bring every other task down.
    FatalError(Error),
}

} // verus!

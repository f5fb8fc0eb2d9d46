use tokio::task::JoinError;
use vstd::prelude::*;

verus! {

#[verifier::external_type_specification]
#[verifier::external_body]
pub struct ExJoinError(JoinError);

#[verifier::external_type_specification]
#[verifier::external_body]
pub struct ExIoError(std::io::Error);

/// Failures of the supervisor itself, as opposed to failures of its tasks.
#[derive(Debug)]
#[allow(inconsistent_fields)]
pub enum Error {
    /// The executor could not drive a task's unit to completion.
    JoinTaskHandle { source: JoinError },
    /// Listening for an operating-system signal could not be set up.
    CreateUnixSignalListener { source: std::io::Error },
}

} // verus!

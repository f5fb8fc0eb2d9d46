use tokio::sync::oneshot::Sender;
use vstd::prelude::*;

use crate::exit_status::ExitStatus;
use crate::signal::UnixSignal;

verus! {

#[verifier::external_type_specification]
#[verifier::external_body]
#[verifier::reject_recursive_types(T)]
pub struct ExSender<T>(Sender<T>);

/// A message to the coordinator. `U` is the type of the work units that tasks run.
pub enum Event<Error, U> {
    /// A task was spawned: its name, the producer side of its shutdown token,
    /// and the unit to run, which reports its own completion when it ends.
    NewFuture { name: String, shutdown_sender: Sender<()>, future: U },
    /// A task's unit ended with the given status.
    FutureCompleted { name: String, exit_status: ExitStatus<Error> },
    /// An operating-system signal arrived.
    Signal(UnixSignal),
    /// Someone asked for a graceful shutdown.
    Shutdown,
}

} // verus!

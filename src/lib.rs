//! Lifecycle supervision for long-running asynchronous tasks: the decisions
//! of the coordinating event loop, proved against their contracts.
pub mod coordinator;
mod error;
mod event;
mod exit_status;
pub mod laws;
mod signal;

pub use coordinator::{Action, Coordinator, CoordinatorView, Next, Phase, Step, SIGNAL_WATCHERS};
pub use error::Error;
pub use event::Event;
pub use exit_status::ExitStatus;
pub use signal::UnixSignal;

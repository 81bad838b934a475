//! How the end of the serving task is told as a failure.

use vstd::prelude::*;
use crate::failure::Failure;

verus! {

/// What is said of a server that returned an error.
pub const SERVER_ERROR: &'static str = "Server completed with error";

/// What is said of a serving task that ended abnormally.
pub const SERVER_PANIC: &'static str = "Server panicked";

/// How the task that serves requests ended.
#[derive(Debug, PartialEq, Eq)]
pub enum ServeOutcome {
    /// The server returned without an error.
    Completed,
    /// The server could not bind its socket, or failed while it served.
    Failed(Failure),
    /// The task ended abnormally.
    Panicked(Failure),
}

/// The result of the run: a server that stopped without an error is no
/// failure; every other end is one, told apart by its text and caused by
/// what the outcome holds.
pub fn serve_result(outcome: ServeOutcome) -> (result: Result<(), Failure>)
    ensures
        outcome is Completed ==> result is Ok,
        outcome matches ServeOutcome::Failed(cause) ==> result matches Err(failure)
            && failure.text@ == SERVER_ERROR@ && failure.cause == Some(Box::new(cause)),
        outcome matches ServeOutcome::Panicked(cause) ==> result matches Err(failure)
            && failure.text@ == SERVER_PANIC@ && failure.cause == Some(Box::new(cause)),
{
    match outcome {
        ServeOutcome::Completed => Ok(()),
        ServeOutcome::Failed(cause) => Err(cause.context(SERVER_ERROR.to_owned())),
        ServeOutcome::Panicked(cause) => Err(cause.context(SERVER_PANIC.to_owned())),
    }
}

} // verus!

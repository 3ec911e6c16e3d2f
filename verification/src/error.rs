//! The errors that a local call can end in.

use vstd::prelude::*;
use crate::peer_id::PeerId;

verus! {

/// Why a call to a handler of this node did not succeed.
#[derive(Clone, Debug, PartialEq, Eq)]
pub enum LocalClientError {
    /// The primary has not registered its handler within the bounded wait.
    PrimaryNotStarted(PeerId),
    /// The worker has not registered its handler within the bounded wait.
    WorkerNotStarted(PeerId),
    /// The handler was found and the call to it failed; the text describes
    /// the failure.
    Internal(String),
    /// The node is shutting down: the registry is cleared for good.
    ShuttingDown,
}

impl LocalClientError {
    /// Whether the caller may try the call again later. A discovery timeout
    /// and a failed call may pass; a shutdown never does.
    pub open spec fn retriable(self) -> bool {
        !(self is ShuttingDown)
    }

    /// Whether the caller may try the call again later.
    pub fn is_retriable(&self) -> (retriable: bool)
        ensures
            retriable == self.retriable(),
    {
        match self {
            LocalClientError::ShuttingDown => false,
            _ => true,
        }
    }
}

/// What the caller of a forwarded request sees, given what the handler
/// answered: success as it is, a failure wrapped with its description.
pub open spec fn forwarded(outcome: Result<(), String>) -> Result<(), LocalClientError> {
    match outcome {
        Ok(()) => Ok(()),
        Err(description) => Err(LocalClientError::Internal(description)),
    }
}

/// Turns the answer of a handler into the result of the local call. A
/// failure of the handler is wrapped, not classified and not retried.
pub fn forward_result(outcome: Result<(), String>) -> (result: Result<(), LocalClientError>)
    ensures
        result == forwarded(outcome),
{
    match outcome {
        Ok(()) => Ok(()),
        Err(description) => Err(LocalClientError::Internal(description)),
    }
}

} // verus!

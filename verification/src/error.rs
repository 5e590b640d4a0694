//! What can go wrong between a caller, the command queue and the backend.

use vstd::prelude::*;

verus! {

/// The routing backend's own account of a failed bulk apply.
#[derive(Clone, Copy, Debug, PartialEq, Eq, Hash, Structural)]
pub struct BackendError {
    pub code: u32,
}

/// Route manager errors.
#[derive(Clone, Copy, Debug, PartialEq, Eq, Hash, Structural)]
pub enum Error {
    /// A reply was owed and never came: the consuming task is gone.
    ManagerChannelDown,
    /// The backend session could not be activated.
    FailedToStartManager,
    /// The backend rejected a bulk apply.
    AddRoutesFailed(BackendError),
    /// The backend rejected the removal of the applied routes.
    ClearRoutesFailed,
    /// The manager has stopped, or the command could not be sent.
    RouteManagerDown,
}

impl Error {
    /// What a caller of a bulk apply is told, given the backend's answer.
    pub open spec fn spec_from_backend(outcome: Result<(), BackendError>) -> Result<(), Error> {
        match outcome {
            Ok(()) => Ok(()),
            Err(cause) => Err(Error::AddRoutesFailed(cause)),
        }
    }

    /// Wraps the backend's answer to a bulk apply for the caller who asked.
    pub fn from_backend(outcome: Result<(), BackendError>) -> (reply: Result<(), Error>)
        ensures
            reply == Error::spec_from_backend(outcome),
    {
        match outcome {
            Ok(()) => Ok(()),
            Err(cause) => Err(Error::AddRoutesFailed(cause)),
        }
    }

    /// What a caller of a bulk removal is told, given the backend's answer.
    pub open spec fn spec_from_removal(removed: bool) -> Result<(), Error> {
        if removed {
            Ok(())
        } else {
            Err(Error::ClearRoutesFailed)
        }
    }
}

} // verus!

//! Errors of the controller.

use crate::common::text::join2;
use vstd::prelude::*;

verus! {

/// What can go wrong in a reconcile.
#[derive(Debug, Clone)]
pub enum ControllerError {
    /// The API server, or the client that talks to it, failed.
    KubeError(String),
    /// The bot lacks something that a reconcile cannot do without.
    MissingObjectKeyError(String),
    /// The finalizer could not be added or removed.
    FinalizerError(String),
    /// Anything else.
    UnknownError(String),
}

impl ControllerError {
    /// The message of the error.
    pub open spec fn message(&self) -> Seq<char> {
        match self {
            ControllerError::KubeError(m) => "failed to create client: "@ + m@,
            ControllerError::MissingObjectKeyError(m) => "missing object key: "@ + m@,
            ControllerError::FinalizerError(m) => "finalizer error: "@ + m@,
            ControllerError::UnknownError(m) => "unknown error: "@ + m@,
        }
    }

    /// The message of the error, as it is logged.
    pub fn to_string(&self) -> (r: String)
        ensures
            r@ == self.message(),
    {
        match self {
            ControllerError::KubeError(m) => join2("failed to create client: ", m.as_str()),
            ControllerError::MissingObjectKeyError(m) => join2("missing object key: ", m.as_str()),
            ControllerError::FinalizerError(m) => join2("finalizer error: ", m.as_str()),
            ControllerError::UnknownError(m) => join2("unknown error: ", m.as_str()),
        }
    }
}

} // verus!

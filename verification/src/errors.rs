//! Application-level errors.

use vstd::prelude::*;
use vstd::string::StringExecFns;

verus! {

/// # Application errors
/// The type of errors that can happen in the application. Each retains the
/// description of the original error it classifies.
#[derive(Debug, PartialEq, Eq)]
pub enum Error {
    /// Error emitted during the start of an application in an execution
    /// engine.
    ApplicationCannotStart {
        /// Description of the original error.
        source: String,
    },
    /// Error emitted during the stop of an application in an execution
    /// engine.
    ApplicationCannotStop {
        /// Description of the original error.
        source: String,
    },
    /// Unable to get the running state of an application in an execution
    /// engine.
    ApplicationStateUnavailable {
        /// Description of the original error.
        source: String,
    },
}

impl Error {
    /// The human-readable description of the error.
    pub fn message(&self) -> (r: String)
        ensures
            self is ApplicationCannotStart ==> r@ == "Could not start the application"@,
            self is ApplicationCannotStop ==> r@ == "Could not stop the application"@,
            self is ApplicationStateUnavailable ==> r@
                == "Could not get the state of the application"@,
    {
        match self {
            Error::ApplicationCannotStart { .. } => String::from_str(
                "Could not start the application",
            ),
            Error::ApplicationCannotStop { .. } => String::from_str(
                "Could not stop the application",
            ),
            Error::ApplicationStateUnavailable { .. } => String::from_str(
                "Could not get the state of the application",
            ),
        }
    }
}

} // verus!

//! The error taxonomy: every failed runtime call is classified, at the call
//! site, into one [`EngineError`] carrying the operation that failed, a
//! canonical status code, and a human-readable message that embeds the
//! operation, the resource identity and the causing error's description.

use vstd::prelude::*;
use vstd::string::StringExecFns;

verus! {

/// What a failed container-runtime call reports: the server's status code,
/// when the runtime answered with one, and the error's description.
#[derive(Debug, PartialEq, Eq)]
pub struct RuntimeFailure {
    /// Status code of the runtime's response, when the failure was a server
    /// response (absent when the call failed before any response came back).
    pub server_status: Option<u16>,

    /// Description of the causing error, retained for diagnostics.
    pub message: String,
}

impl Clone for RuntimeFailure {
    fn clone(&self) -> (r: Self)
        ensures
            r == *self,
    {
        RuntimeFailure { server_status: self.server_status, message: self.message.clone() }
    }
}

/// The operation categories of the taxonomy: one per fallible engine
/// operation.
#[derive(Debug, Clone, Copy, PartialEq, Eq, Structural)]
pub enum EngineErrorKind {
    /// Image pull, resource creation, network attach, or resource start failed.
    CannotStart,

    /// Stop or removal of the resource failed.
    CannotStop,

    /// Inspection failed for a reason other than resource absence.
    StateUnavailable,

    /// The statistics call failed.
    StatsUnavailable,

    /// The log retrieval call failed.
    LogsUnavailable,

    /// Removal of the cached image failed.
    ImageRemovalFailed,
}

/// # Execution engine error
/// A unified error type across execution engines: one failed operation,
/// classified.
#[derive(Debug, PartialEq, Eq)]
pub struct EngineError {
    /// The operation category the failure falls under.
    pub kind: EngineErrorKind,

    /// The canonical status code: the runtime's own response code where there
    /// was a valid one, 500 otherwise.
    pub code: u16,

    /// Human-readable message: the operation and resource identity, then the
    /// causing error's description.
    pub message: String,
}

impl Clone for EngineError {
    fn clone(&self) -> (r: Self)
        ensures
            r == *self,
    {
        EngineError { kind: self.kind, code: self.code, message: self.message.clone() }
    }
}

/// The canonical status code a failure is classified under: the server's own
/// response code where it is a valid status code, 500 otherwise.
pub open spec fn canonical_code(failure: RuntimeFailure) -> u16 {
    match failure.server_status {
        Some(s) => if 100 <= s && s < 1000 {
            s
        } else {
            500
        },
        None => 500,
    }
}

/// The message an [`EngineError`] carries for a given context and cause.
pub open spec fn classified_message(context: Seq<char>, failure: RuntimeFailure) -> Seq<char> {
    context + ": "@ + failure.message@
}

impl EngineError {
    /// Classify one failed runtime call: tag the causing failure with the
    /// operation category and the canonical status code, and embed the given
    /// context (operation and resource identity) in the message.
    pub fn classify(kind: EngineErrorKind, context: String, failure: RuntimeFailure) -> (r:
        EngineError)
        ensures
            r.kind == kind,
            r.code == canonical_code(failure),
            r.message@ == classified_message(context@, failure),
    {
        let code: u16 = match failure.server_status {
            Some(s) => if 100 <= s && s < 1000 {
                s
            } else {
                500
            },
            None => 500,
        };
        EngineError { kind, code, message: context.concat(": ").concat(failure.message.as_str()) }
    }
}

} // verus!

//! The failures that a call can end in.

use vstd::prelude::*;

verus! {

/// The category of a terminal failure, as the transport reports it.
#[derive(Clone, Copy, Debug, PartialEq, Eq, Structural)]
pub enum Code {
    Cancelled,
    Unknown,
    InvalidArgument,
    DeadlineExceeded,
    NotFound,
    AlreadyExists,
    PermissionDenied,
    ResourceExhausted,
    FailedPrecondition,
    Aborted,
    OutOfRange,
    Unimplemented,
    Internal,
    Unavailable,
    DataLoss,
    Unauthenticated,
}

/// A terminal failure that the transport reports: a category for machines
/// and a message for people. This library hands it on and never reads it.
#[derive(Clone, Debug, PartialEq, Eq)]
pub struct Status {
    pub code: Code,
    pub message: String,
}

/// Why a call through a method-style adapter failed.
#[derive(Clone, Debug, PartialEq, Eq)]
pub enum CallError {
    /// The service turned the call away before the transport saw it. This
    /// passes: the caller may try again.
    NotReady,
    /// The transport reported a terminal failure. It is handed on as it came.
    Status(Status),
    /// The request value was not of the side that the method declares. The
    /// call was not dispatched.
    ShapeMismatch,
}

impl CallError {
    /// The failure as one status, for a caller who takes nothing else. A
    /// status stays as it is. A service that was not ready is told as
    /// unavailable, which invites another try, and a request value of the
    /// wrong side as an internal fault.
    pub fn into_status(self) -> (status: Status)
        ensures
            match self {
                CallError::Status(reported) => status == reported,
                CallError::NotReady => status.code == Code::Unavailable && status.message@
                    == "the service is not ready"@,
                CallError::ShapeMismatch => status.code == Code::Internal && status.message@
                    == "the request value is not of the side that the method declares"@,
            },
    {
        match self {
            CallError::Status(reported) => reported,
            CallError::NotReady => Status {
                code: Code::Unavailable,
                message: "the service is not ready".to_owned(),
            },
            CallError::ShapeMismatch => Status {
                code: Code::Internal,
                message: "the request value is not of the side that the method declares".to_owned(),
            },
        }
    }
}

} // verus!

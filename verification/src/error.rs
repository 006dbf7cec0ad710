//! The errors that abort a pipeline run.

use vstd::prelude::*;
use vstd::string::StringExecFns;

verus! {

/// Why a pipeline run was aborted.
#[derive(Clone, Copy, Debug, PartialEq, Eq, Structural)]
pub enum ErrorKind {
    /// The upload does not consist of one field named `audio`.
    InvalidInput,
    /// No channel is registered for the device.
    DeviceChannelNotFound,
    /// An external collaborator reported an error.
    CollaboratorFailure,
    /// The arguments of the requested tool call could not be read.
    InvalidToolArguments,
    /// A function call names no known tool and no text came with it.
    UnsupportedTool,
    /// The model returned neither a function call nor text.
    EmptyReply,
}

/// An aborted run: its kind, and the human-readable text handed to the caller.
#[derive(Debug)]
pub struct AppError {
    pub kind: ErrorKind,
    pub detail: String,
}

/// The status code of every failed request.
pub const INTERNAL_SERVER_ERROR: u16 = 500;

/// The fixed text of each kind of error; a collaborator's failure carries the
/// collaborator's own text instead.
pub open spec fn kind_text(kind: ErrorKind) -> Seq<char> {
    match kind {
        ErrorKind::InvalidInput => "expected an audio field"@,
        ErrorKind::DeviceChannelNotFound => "device_id not found in senders"@,
        ErrorKind::CollaboratorFailure => "collaborator call failed"@,
        ErrorKind::InvalidToolArguments => "invalid arguments for tool call"@,
        ErrorKind::UnsupportedTool => "unsupported tool and no content available"@,
        ErrorKind::EmptyReply => "expect content but no content available"@,
    }
}

impl AppError {
    /// An error of the given kind with that kind's fixed text.
    pub fn of_kind(kind: ErrorKind) -> (e: AppError)
        ensures
            e.kind == kind,
            e.detail@ == kind_text(kind),
    {
        let text = match kind {
            ErrorKind::InvalidInput => "expected an audio field",
            ErrorKind::DeviceChannelNotFound => "device_id not found in senders",
            ErrorKind::CollaboratorFailure => "collaborator call failed",
            ErrorKind::InvalidToolArguments => "invalid arguments for tool call",
            ErrorKind::UnsupportedTool => "unsupported tool and no content available",
            ErrorKind::EmptyReply => "expect content but no content available",
        };
        AppError { kind, detail: String::from_str(text) }
    }

    /// A collaborator's failure, carrying the cause as the collaborator worded it.
    pub fn collaborator(cause: String) -> (e: AppError)
        ensures
            e.kind == ErrorKind::CollaboratorFailure,
            e.detail@ == cause@,
    {
        AppError { kind: ErrorKind::CollaboratorFailure, detail: cause }
    }

    /// The status and body of the response that reports this error: always a
    /// server error, with the error's text as the body.
    pub fn into_response(self) -> (r: (u16, String))
        ensures
            r.0 == INTERNAL_SERVER_ERROR,
            r.1@ == self.detail@,
    {
        (INTERNAL_SERVER_ERROR, self.detail)
    }
}

} // verus!

//! The outcome classes of a call and the error value that carries one.

use vstd::prelude::*;
use vstd::string::StringExecFns;

verus! {

/// The classes of failure that the RPC protocol tells apart.
#[derive(Clone, Copy, Debug, PartialEq, Eq, Structural)]
pub enum Code {
    Cancelled,
    Unknown,
    InvalidArgument,
    DeadlineExceeded,
    NotFound,
    AlreadyExists,
    PermissionDenied,
    ResourceExhausted,
    FailedPrecondition,
    Aborted,
    OutOfRange,
    Unimplemented,
    Internal,
    Unavailable,
    DataLoss,
    Unauthenticated,
}

/// What a `Status` is in contracts: its code and the characters of its message.
pub struct StatusView {
    pub code: Code,
    pub message: Seq<char>,
}

/// A failed call: its class and a message for the caller.
#[derive(Debug)]
pub struct Status {
    code: Code,
    message: String,
}

impl View for Status {
    type V = StatusView;

    closed spec fn view(&self) -> StatusView {
        StatusView { code: self.code, message: self.message@ }
    }
}

impl Status {
    /// A status of the given class with the given message.
    pub fn new(code: Code, message: &str) -> (status: Status)
        ensures
            status@ == (StatusView { code, message: message@ }),
    {
        Status { code, message: message.to_owned() }
    }

    /// A status of the given class whose message is `prefix` followed by
    /// `reason`.
    pub fn prefixed(code: Code, prefix: &str, reason: &str) -> (status: Status)
        ensures
            status@ == (StatusView { code, message: prefix@ + reason@ }),
    {
        let mut message = String::from_str(prefix);
        message.append(reason);
        Status { code, message }
    }

    /// The class of this status.
    pub fn code(&self) -> (code: Code)
        ensures
            code == self@.code,
    {
        self.code
    }

    /// The message of this status.
    pub fn message(&self) -> (message: &str)
        ensures
            message@ == self@.message,
    {
        self.message.as_str()
    }
}

} // verus!

//! The status of a failed call.

use vstd::prelude::*;
use vstd::string::*;

verus! {

/// The kinds of failure a call can report.
#[derive(Debug, Clone, Copy, PartialEq, Eq, Structural)]
pub enum Code {
    Cancelled,
    Unknown,
    InvalidArgument,
    DeadlineExceeded,
    NotFound,
    AlreadyExists,
    PermissionDenied,
    ResourceExhausted,
    FailedPrecondition,
    Aborted,
    OutOfRange,
    Unimplemented,
    Internal,
    Unavailable,
    DataLoss,
    Unauthenticated,
}

/// A failed call: what kind of failure, and in words.
#[derive(Debug, Clone)]
pub struct Status {
    pub code: Code,
    pub message: String,
}

/// What a status says.
pub struct StatusView {
    pub code: Code,
    pub message: Seq<char>,
}

impl View for Status {
    type V = StatusView;

    open spec fn view(&self) -> StatusView {
        StatusView { code: self.code, message: self.message@ }
    }
}

/// The status with the given code and message.
pub open spec fn status(code: Code, message: Seq<char>) -> StatusView {
    StatusView { code, message }
}

/// The status has the given code, and its message begins with `prefix`.
pub open spec fn says(s: Status, code: Code, prefix: Seq<char>) -> bool {
    s.code == code && prefix.is_prefix_of(s.message@)
}

impl Status {
    /// The status with the given code and message.
    pub fn new(code: Code, message: &str) -> (out: Status)
        ensures
            out@ == status(code, message@),
    {
        Status { code, message: message.to_owned() }
    }

    /// The status whose message is `text` after `prefix`.
    pub fn with(code: Code, prefix: &str, text: &str) -> (out: Status)
        ensures
            out@ == status(code, prefix@ + text@),
            says(out, code, prefix@),
    {
        let mut message: String = prefix.to_owned();
        message.append(text);
        assert((prefix@ + text@).take(prefix@.len() as int) =~= prefix@);
        Status { code, message }
    }
}

} // verus!

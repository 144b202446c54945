//! The status with which an operation of the service fails: a code and a
//! message for the caller.

use vstd::prelude::*;

verus! {

/// The status codes of the RPC protocol.
#[derive(Clone, Copy, Debug, PartialEq, Eq, Structural)]
pub enum Code {
    /// The code of success. No failure of the service's own carries it; a
    /// failure of another service that does is passed on as it came.
    Okay,
    Cancelled,
    Unknown,
    InvalidArgument,
    DeadlineExceeded,
    NotFound,
    AlreadyExists,
    PermissionDenied,
    ResourceExhausted,
    FailedPrecondition,
    Aborted,
    OutOfRange,
    Unimplemented,
    Internal,
    Unavailable,
    DataLoss,
    Unauthenticated,
}

/// A failure as the caller sees it.
#[derive(Debug, PartialEq)]
pub struct Status {
    code: Code,
    message: String,
}

/// What a [`Status`] says.
pub struct StatusView {
    pub code: Code,
    pub message: Seq<char>,
}

impl View for Status {
    type V = StatusView;

    closed spec fn view(&self) -> StatusView {
        StatusView { code: self.code, message: self.message@ }
    }
}

impl Clone for Status {
    fn clone(&self) -> (copy: Self)
        ensures
            copy@ == self@,
    {
        Status { code: self.code, message: self.message.clone() }
    }
}

impl Status {
    /// A status with the given code and message.
    pub fn new(code: Code, message: &str) -> (status: Status)
        ensures
            status@ == (StatusView { code, message: message@ }),
    {
        Status { code, message: message.to_owned() }
    }

    /// The caller sent something malformed or left something required out.
    pub fn invalid_argument(message: &str) -> (status: Status)
        ensures
            status@ == (StatusView { code: Code::InvalidArgument, message: message@ }),
    {
        Status::new(Code::InvalidArgument, message)
    }

    /// What the caller asked for does not exist.
    pub fn not_found(message: &str) -> (status: Status)
        ensures
            status@ == (StatusView { code: Code::NotFound, message: message@ }),
    {
        Status::new(Code::NotFound, message)
    }

    /// The system is not in the state the operation needs.
    pub fn failed_precondition(message: &str) -> (status: Status)
        ensures
            status@ == (StatusView { code: Code::FailedPrecondition, message: message@ }),
    {
        Status::new(Code::FailedPrecondition, message)
    }

    /// Something failed inside the service; the message carries no detail.
    pub fn internal(message: &str) -> (status: Status)
        ensures
            status@ == (StatusView { code: Code::Internal, message: message@ }),
    {
        Status::new(Code::Internal, message)
    }

    /// The status code.
    pub fn code(&self) -> (code: Code)
        ensures
            code == self@.code,
    {
        self.code
    }

    /// The message for the caller.
    pub fn message(&self) -> (message: &str)
        ensures
            message@ == self@.message,
    {
        self.message.as_str()
    }
}

} // verus!

//! The failures of the record store adapter and of the event publisher, and
//! how each is shown to the caller.

use vstd::prelude::*;
use vstd::std_specs::convert::FromSpecImpl;
use vstd::string::StringExecFns;
use crate::status::{Code, Status, StatusView};

verus! {

/// Why an operation of the service failed.
#[derive(Debug, PartialEq)]
pub enum ApplicationError {
    /// The record store reported a failure; the text is its report.
    MongoError(String),
    /// The message broker reported a failure; the text is its report.
    RabbitError(String),
    /// A lookup found nothing.
    NotFound { details: &'static str },
    /// A field mask named a path that no update can touch.
    InvalidUpdatePath { path: String },
}

/// What an [`ApplicationError`] says.
pub enum ApplicationErrorView {
    MongoError(Seq<char>),
    RabbitError(Seq<char>),
    NotFound { details: Seq<char> },
    InvalidUpdatePath { path: Seq<char> },
}

impl View for ApplicationError {
    type V = ApplicationErrorView;

    open spec fn view(&self) -> ApplicationErrorView {
        match self {
            ApplicationError::MongoError(report) => ApplicationErrorView::MongoError(report@),
            ApplicationError::RabbitError(report) => ApplicationErrorView::RabbitError(report@),
            ApplicationError::NotFound { details } => ApplicationErrorView::NotFound {
                details: details@,
            },
            ApplicationError::InvalidUpdatePath { path } => ApplicationErrorView::InvalidUpdatePath {
                path: path@,
            },
        }
    }
}

/// The status that the caller gets for a failure: a lookup miss and a bad
/// update path are passed on as they are, anything else is an internal error
/// whose detail stays inside the service.
pub open spec fn status_of(error: ApplicationErrorView) -> StatusView {
    match error {
        ApplicationErrorView::NotFound { details } => StatusView {
            code: Code::NotFound,
            message: details,
        },
        ApplicationErrorView::InvalidUpdatePath { path } => StatusView {
            code: Code::InvalidArgument,
            message: path,
        },
        _ => StatusView { code: Code::Internal, message: "internal error"@ },
    }
}

/// The text that describes a failure in the service's own records.
pub open spec fn description_of(error: ApplicationErrorView) -> Seq<char> {
    match error {
        ApplicationErrorView::MongoError(report) => "mongodb error: "@ + report,
        ApplicationErrorView::RabbitError(report) => "rabbitmq error: "@ + report,
        ApplicationErrorView::NotFound { details } => "not found: "@ + details,
        ApplicationErrorView::InvalidUpdatePath { path } => "invalid update path: "@ + path,
    }
}

impl ApplicationError {
    pub fn not_found(details: &'static str) -> (error: Self)
        ensures
            error@ == (ApplicationErrorView::NotFound { details: details@ }),
    {
        ApplicationError::NotFound { details }
    }

    pub fn invalid_update_path(path: String) -> (error: Self)
        ensures
            error@ == (ApplicationErrorView::InvalidUpdatePath { path: path@ }),
    {
        ApplicationError::InvalidUpdatePath { path }
    }

    /// The failure in words, with the detail that the caller is not shown.
    pub fn to_string(&self) -> (text: String)
        ensures
            text@ == description_of(self@),
    {
        match self {
            ApplicationError::MongoError(report) => String::from_str("mongodb error: ").concat(
                report.as_str(),
            ),
            ApplicationError::RabbitError(report) => String::from_str("rabbitmq error: ").concat(
                report.as_str(),
            ),
            ApplicationError::NotFound { details } => String::from_str("not found: ").concat(
                details,
            ),
            ApplicationError::InvalidUpdatePath { path } => String::from_str(
                "invalid update path: ",
            ).concat(path.as_str()),
        }
    }
}

impl From<ApplicationError> for Status {
    fn from(error: ApplicationError) -> (status: Status)
        ensures
            status@ == status_of(error@),
    {
        match error {
            ApplicationError::NotFound { details } => Status::not_found(details),
            ApplicationError::InvalidUpdatePath { path } => Status::invalid_argument(path.as_str()),
            _ => Status::internal("internal error"),
        }
    }
}

/// The conversion is stated with `from` itself, over what the values say; no
/// status is named as the one that an error becomes.
impl FromSpecImpl<ApplicationError> for Status {
    open spec fn obeys_from_spec() -> bool {
        false
    }

    open spec fn from_spec(error: ApplicationError) -> Status {
        arbitrary()
    }
}

} // verus!

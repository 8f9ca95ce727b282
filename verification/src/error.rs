//! The failures that the registry reports, and how each is shown to a client.

use vstd::prelude::*;
use vstd::string::*;
use crate::text::framed;

verus! {

/// A failure of a registry operation.
#[derive(Debug)]
pub enum AppError {
    /// The request ran out of time; holds what the timer said.
    TimeoutError(String),
    /// The store failed; holds what it said.
    DatabaseError(String),
    /// Nothing is stored under the key; holds what was looked for.
    NotFound(&'static str),
    /// The key is taken; holds what was to be created.
    AlreadyExists(&'static str),
    /// A stored value could not be read as a domain value; holds which conversion failed.
    ConversionError(&'static str),
    /// Any other failure of a component below; holds its own words.
    StdError(String),
    /// Any other failure; holds its own words.
    AnyHowError(String),
}

/// A failure as a mathematical value: its kind and the text it carries.
pub ghost enum AppErrorView {
    TimeoutError(Seq<char>),
    DatabaseError(Seq<char>),
    NotFound(Seq<char>),
    AlreadyExists(Seq<char>),
    ConversionError(Seq<char>),
    StdError(Seq<char>),
    AnyHowError(Seq<char>),
}

impl View for AppError {
    type V = AppErrorView;

    open spec fn view(&self) -> AppErrorView {
        match *self {
            AppError::TimeoutError(detail) => AppErrorView::TimeoutError(detail@),
            AppError::DatabaseError(detail) => AppErrorView::DatabaseError(detail@),
            AppError::NotFound(what) => AppErrorView::NotFound(what@),
            AppError::AlreadyExists(what) => AppErrorView::AlreadyExists(what@),
            AppError::ConversionError(what) => AppErrorView::ConversionError(what@),
            AppError::StdError(detail) => AppErrorView::StdError(detail@),
            AppError::AnyHowError(detail) => AppErrorView::AnyHowError(detail@),
        }
    }
}

/// The status of a request that ran out of time.
pub const REQUEST_TIMEOUT: u16 = 408;

/// The status of a request for something that is not there.
pub const NOT_FOUND: u16 = 404;

/// The status of a request to create what is there already.
pub const CONFLICT: u16 = 409;

/// The status of a request that failed for any other reason.
pub const INTERNAL_SERVER_ERROR: u16 = 500;

/// The status under which a failure is reported.
pub open spec fn status_of(error: AppErrorView) -> u16 {
    match error {
        AppErrorView::TimeoutError(_) => REQUEST_TIMEOUT,
        AppErrorView::NotFound(_) => NOT_FOUND,
        AppErrorView::AlreadyExists(_) => CONFLICT,
        _ => INTERNAL_SERVER_ERROR,
    }
}

/// The words in which a failure is reported.
pub open spec fn message_of(error: AppErrorView) -> Seq<char> {
    match error {
        AppErrorView::TimeoutError(detail) => "Timeout error ("@ + detail + ")"@,
        AppErrorView::DatabaseError(detail) => "DB error ("@ + detail + ")"@,
        AppErrorView::NotFound(what) => "Not found ("@ + what + ")"@,
        AppErrorView::AlreadyExists(what) => "Already exists ("@ + what + ")"@,
        AppErrorView::ConversionError(what) => "Conversion error ("@ + what + ")"@,
        AppErrorView::StdError(detail) => detail,
        AppErrorView::AnyHowError(detail) => detail,
    }
}

impl AppError {
    /// The status under which this failure is reported.
    pub fn status_code(&self) -> (status: u16)
        ensures
            status == status_of(self@),
    {
        match self {
            AppError::TimeoutError(_) => REQUEST_TIMEOUT,
            AppError::NotFound(_) => NOT_FOUND,
            AppError::AlreadyExists(_) => CONFLICT,
            _ => INTERNAL_SERVER_ERROR,
        }
    }

    /// The words in which this failure is reported.
    pub fn to_string(&self) -> (text: String)
        ensures
            text@ == message_of(self@),
    {
        match self {
            AppError::TimeoutError(detail) => framed("Timeout error (", detail.as_str(), ")"),
            AppError::DatabaseError(detail) => framed("DB error (", detail.as_str(), ")"),
            AppError::NotFound(what) => framed("Not found (", what, ")"),
            AppError::AlreadyExists(what) => framed("Already exists (", what, ")"),
            AppError::ConversionError(what) => framed("Conversion error (", what, ")"),
            AppError::StdError(detail) => detail.clone(),
            AppError::AnyHowError(detail) => detail.clone(),
        }
    }
}

impl AppError {
    /// A failure of no particular kind, in the given words.
    pub fn from(words: &'static str) -> (error: AppError)
        ensures
            error@ == AppErrorView::AnyHowError(words@),
    {
        AppError::AnyHowError(String::from_str(words))
    }
}

} // verus!

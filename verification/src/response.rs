//! What a client is sent in answer to a request.

use vstd::prelude::*;
use crate::error::{message_of, status_of, AppError, AppErrorView};
use crate::vehicle::{Vehicle, VehicleView};

verus! {

/// The status of a request that was carried out.
pub const OK: u16 = 200;

/// The status of a request that created something.
pub const CREATED: u16 = 201;

/// What the answer carries.
#[derive(PartialEq, Eq, Debug)]
pub enum Body {
    /// A vehicle.
    Vehicle(Vehicle),
    /// Nothing to tell.
    Unit,
    /// The words of a failure, sent under the key `error`.
    Error(String),
}

/// A body as a mathematical value.
pub ghost enum BodyView {
    Vehicle(VehicleView),
    Unit,
    Error(Seq<char>),
}

impl View for Body {
    type V = BodyView;

    open spec fn view(&self) -> BodyView {
        match *self {
            Body::Vehicle(vehicle) => BodyView::Vehicle(vehicle@),
            Body::Unit => BodyView::Unit,
            Body::Error(words) => BodyView::Error(words@),
        }
    }
}

/// The answer to a request: a status and a body.
#[derive(PartialEq, Eq, Debug)]
pub struct AppResponse {
    pub status: u16,
    pub body: Body,
}

/// An answer as a mathematical value.
pub ghost struct AppResponseView {
    pub status: u16,
    pub body: BodyView,
}

impl View for AppResponse {
    type V = AppResponseView;

    open spec fn view(&self) -> AppResponseView {
        AppResponseView { status: self.status, body: self.body@ }
    }
}

/// What an operation of the registry returns.
pub type AppResult<T> = Result<T, AppError>;

/// What a handler returns.
pub type AppResponseResult = Result<AppResponse, AppError>;

/// The answer that reports a failure: the status of its kind, and its words.
pub open spec fn failure_response(error: AppErrorView) -> AppResponseView {
    AppResponseView { status: status_of(error), body: BodyView::Error(message_of(error)) }
}

/// What a handler returned, as a mathematical value.
pub open spec fn response_result_view(result: AppResponseResult) -> Result<
    AppResponseView,
    AppErrorView,
> {
    match result {
        Ok(response) => Ok(response@),
        Err(error) => Err(error@),
    }
}

/// The answer that the client is sent for what a handler returned.
pub open spec fn sent(result: Result<AppResponseView, AppErrorView>) -> AppResponseView {
    match result {
        Ok(response) => response,
        Err(error) => failure_response(error),
    }
}

impl AppError {
    /// The answer that reports this failure.
    pub fn into_response(self) -> (response: AppResponse)
        ensures
            response@ == failure_response(self@),
    {
        AppResponse { status: self.status_code(), body: Body::Error(self.to_string()) }
    }
}

/// The answer that the client is sent for what a handler returned: the
/// handler's own answer, or the report of its failure.
pub fn into_response(result: AppResponseResult) -> (response: AppResponse)
    ensures
        response@ == sent(response_result_view(result)),
{
    match result {
        Ok(response) => response,
        Err(error) => error.into_response(),
    }
}

/// The answer to a request that the layers around the handlers gave up:
/// a timeout if its time had elapsed, and else a failure in its own words.
pub fn convert_tower_error_into_response(elapsed: bool, words: String) -> (response: AppResponse)
    ensures
        response@ == failure_response(
            if elapsed {
                AppErrorView::TimeoutError(words@)
            } else {
                AppErrorView::StdError(words@)
            },
        ),
{
    let error = if elapsed {
        AppError::TimeoutError(words)
    } else {
        AppError::StdError(words)
    };
    error.into_response()
}

} // verus!

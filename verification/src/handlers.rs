//! What each route answers, once the registry has done its part.

use vstd::prelude::*;
use crate::error::AppErrorView;
use crate::repository::Operation;
use crate::response::{
    response_result_view, AppResponse, AppResponseResult, AppResponseView, AppResult, Body,
    BodyView, CREATED, OK,
};
use crate::vehicle::Vehicle;

verus! {

/// The parameters of a lookup by query string.
#[derive(PartialEq, Eq, Debug)]
pub struct FindVehicle {
    pub vin: String,
}

impl View for FindVehicle {
    type V = Seq<char>;

    open spec fn view(&self) -> Seq<char> {
        self.vin@
    }
}

impl FindVehicle {
    /// The operation that these parameters ask for.
    pub fn operation(self) -> (operation: Operation)
        ensures
            operation@ == crate::repository::OperationView::Find(self@),
    {
        Operation::Find(self.vin)
    }
}

/// The answer to a request to create `payload`: the vehicle itself, as
/// created, or the failure of its creation.
pub fn post_vehicle(payload: Vehicle, created: AppResult<()>) -> (answer: AppResponseResult)
    ensures
        response_result_view(answer) == (match created {
            Ok(_) => Ok::<AppResponseView, AppErrorView>(
                AppResponseView { status: CREATED, body: BodyView::Vehicle(payload@) },
            ),
            Err(error) => Err(error@),
        }),
{
    match created {
        Ok(_) => Ok(AppResponse { status: CREATED, body: Body::Vehicle(payload) }),
        Err(error) => Err(error),
    }
}

/// The answer to a request for a vehicle: the vehicle that was found, or the
/// failure to find it.
pub fn get_vehicle(found: AppResult<Vehicle>) -> (answer: AppResponseResult)
    ensures
        response_result_view(answer) == (match found {
            Ok(vehicle) => Ok::<AppResponseView, AppErrorView>(
                AppResponseView { status: OK, body: BodyView::Vehicle(vehicle@) },
            ),
            Err(error) => Err(error@),
        }),
{
    match found {
        Ok(vehicle) => Ok(AppResponse { status: OK, body: Body::Vehicle(vehicle) }),
        Err(error) => Err(error),
    }
}

/// The answer to a request to delete a vehicle: nothing to tell, or the
/// failure to delete it.
pub fn delete_vehicle(deleted: AppResult<()>) -> (answer: AppResponseResult)
    ensures
        response_result_view(answer) == (match deleted {
            Ok(_) => Ok::<AppResponseView, AppErrorView>(
                AppResponseView { status: OK, body: BodyView::Unit },
            ),
            Err(error) => Err(error@),
        }),
{
    match deleted {
        Ok(_) => Ok(AppResponse { status: OK, body: Body::Unit }),
        Err(error) => Err(error),
    }
}

} // verus!

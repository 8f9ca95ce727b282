//! What the registry means, said of a table of rows.
//!
//! A table is a map from keys to rows. This module says what the store does to
//! a table when it carries out a request, what each operation of the registry
//! is meant to do to it, and shows that the exchange of
//! [`crate::repository`] does just that.

use vstd::prelude::*;
use crate::cql::Statement;
use crate::error::AppErrorView;
use crate::repository::{
    resumed, started, OperationView, OutcomeView, PendingView, ReplyView,
    RequestView, StepView,
};
use crate::row::{row_of, row_round_trip, vehicle_of, VehicleRowView};
use crate::vehicle::VehicleView;

verus! {

/// The rows of the table, by key.
pub type Table = Map<Seq<char>, VehicleRowView>;

/// How an operation ends: well, with what it found if it was to find
/// something, or with a failure.
pub type End = Result<OutcomeView, AppErrorView>;

/// The table and the reply after the store has carried out a prepared
/// statement with the values of a request.
///
/// * Reading returns the row under the key, or no row.
/// * Writing adds the row unless its key is taken; a taken key keeps its row.
/// * Removing leaves no row under the key.
/// * Values that do not belong to the statement are refused.
pub open spec fn executed(table: Table, statement: Statement, request: RequestView) -> (
    Table,
    ReplyView,
) {
    if statement != request.statement() {
        (table, Err("statement and values do not match"@))
    } else {
        match request {
            RequestView::Select { vin } => (
                table,
                Ok(
                    Some(
                        if table.contains_key(vin) {
                            seq![Ok(table[vin])]
                        } else {
                            seq![]
                        },
                    ),
                ),
            ),
            RequestView::Insert { row } => (
                if table.contains_key(row.vin) {
                    table
                } else {
                    table.insert(row.vin, row)
                },
                Ok(None),
            ),
            RequestView::Delete { vin } => (table.remove(vin), Ok(None)),
        }
    }
}

/// Finding: the vehicle stored under the key. It fails as not found if the
/// key holds nothing, and as a conversion error if the row names no engine.
pub open spec fn found(table: Table, vin: Seq<char>) -> Result<VehicleView, AppErrorView> {
    if table.contains_key(vin) {
        vehicle_of(table[vin])
    } else {
        Err(AppErrorView::NotFound("Vehicle"@))
    }
}

/// Creating: the table with the vehicle's row added. It fails if the key is
/// taken, and the table then stays as it is.
pub open spec fn created(table: Table, vehicle: VehicleView) -> (Table, End) {
    if table.contains_key(vehicle.vin) {
        (table, Err(AppErrorView::AlreadyExists("Vehicle"@)))
    } else {
        (table.insert(vehicle.vin, row_of(vehicle)), Ok(OutcomeView::Created))
    }
}

/// Deleting: the table without the vehicle's row. It fails as finding does,
/// and the table then stays as it is.
pub open spec fn deleted(table: Table, vin: Seq<char>) -> (Table, End) {
    match found(table, vin) {
        Ok(_) => (table.remove(vin), Ok(OutcomeView::Deleted)),
        Err(error) => (table, Err(error)),
    }
}

/// What an operation does to a table, and how it ends.
pub open spec fn performed(table: Table, operation: OperationView) -> (Table, End) {
    match operation {
        OperationView::Create(vehicle) => created(table, vehicle),
        OperationView::Find(vin) => match found(table, vin) {
            Ok(vehicle) => (table, Ok(OutcomeView::Found(vehicle))),
            Err(error) => (table, Err(error)),
        },
        OperationView::Delete(vin) => deleted(table, vin),
    }
}

/// The statements that an operation sends, in order: a lookup, and then the
/// write or the removal if the lookup allows it.
pub open spec fn used(table: Table, operation: OperationView) -> Seq<Statement> {
    match operation {
        OperationView::Create(vehicle) => if table.contains_key(vehicle.vin) {
            seq![Statement::SelectVehicle]
        } else {
            seq![Statement::SelectVehicle, Statement::InsertVehicle]
        },
        OperationView::Find(_) => seq![Statement::SelectVehicle],
        OperationView::Delete(vin) => if found(table, vin) is Ok {
            seq![Statement::SelectVehicle, Statement::DeleteVehicle]
        } else {
            seq![Statement::SelectVehicle]
        },
    }
}

/// How many requests a step may still be from the end.
pub open spec fn rank(step: StepView) -> nat {
    match step {
        StepView::Finish(_) => 0,
        StepView::Execute(_, PendingView::CreateLookup(_)) => 2,
        StepView::Execute(_, PendingView::DeleteLookup(_)) => 2,
        StepView::Execute(_, _) => 1,
    }
}

/// An exchange carried to its end against a table: each request is carried
/// out with the statement that belongs to it, and the reply is handed back.
/// The result is the table, the end, and the statements sent.
pub open spec fn completed(step: StepView, table: Table) -> (Table, End, Seq<Statement>)
    decreases rank(step),
{
    match step {
        StepView::Finish(end) => (table, end, Seq::empty()),
        StepView::Execute(request, pending) => {
            let (next_table, reply) = executed(table, request.statement(), request);
            let (last_table, end, sent) = completed(resumed(pending, reply), next_table);
            (last_table, end, seq![request.statement()] + sent)
        },
    }
}

/// The exchange does what the operation means: carried out against a table,
/// it changes the table and ends as the operation says, and sends the
/// statements that the operation uses.
pub proof fn exchange_performs_operation(table: Table, operation: OperationView)
    ensures
        completed(started(operation), table) == (
            performed(table, operation).0,
            performed(table, operation).1,
            used(table, operation),
        ),
{
    let first = started(operation);
    let (looked, reply) = executed(table, first->Execute_0.statement(), first->Execute_0);
    let second = resumed(first->Execute_1, reply);
    if second is Execute {
        let (changed, reply) = executed(looked, second->Execute_0.statement(), second->Execute_0);
        let last = resumed(second->Execute_1, reply);
        assert(completed(last, changed).2 =~= seq![]);
        assert(completed(second, looked).2 =~= seq![second->Execute_0.statement()]);
    } else {
        assert(completed(second, looked).2 =~= seq![]);
    }
    assert(completed(first, table).2 =~= used(table, operation));
}

/// A vehicle that was created is found again as it was given.
pub proof fn create_then_find(table: Table, vehicle: VehicleView)
    requires
        created(table, vehicle).1 is Ok,
    ensures
        found(created(table, vehicle).0, vehicle.vin) == Ok::<VehicleView, AppErrorView>(vehicle),
{
    row_round_trip(vehicle);
}

/// A key that was created is taken: creating it again fails, whatever vehicle
/// is given under it, and changes nothing.
pub proof fn create_twice(table: Table, vehicle: VehicleView, again: VehicleView)
    requires
        again.vin == vehicle.vin,
    ensures
        created(created(table, vehicle).0, again) == (
            created(table, vehicle).0,
            Err::<OutcomeView, AppErrorView>(AppErrorView::AlreadyExists("Vehicle"@)),
        ),
{
}

/// A key under which nothing is stored is neither found nor deleted: both
/// fail as not found, and deleting changes nothing.
pub proof fn unknown_is_not_found(table: Table, vin: Seq<char>)
    requires
        !table.contains_key(vin),
    ensures
        found(table, vin) == Err::<VehicleView, AppErrorView>(AppErrorView::NotFound("Vehicle"@)),
        deleted(table, vin) == (
            table,
            Err::<OutcomeView, AppErrorView>(AppErrorView::NotFound("Vehicle"@)),
        ),
{
}

/// A vehicle that was created and deleted is not found any more, and the
/// table is as it was before.
pub proof fn create_then_delete(table: Table, vehicle: VehicleView)
    requires
        created(table, vehicle).1 is Ok,
    ensures
        deleted(created(table, vehicle).0, vehicle.vin).1 == Ok::<OutcomeView, AppErrorView>(
            OutcomeView::Deleted,
        ),
        deleted(created(table, vehicle).0, vehicle.vin).0 == table,
        found(deleted(created(table, vehicle).0, vehicle.vin).0, vehicle.vin) == Err::<
            VehicleView,
            AppErrorView,
        >(AppErrorView::NotFound("Vehicle"@)),
{
    row_round_trip(vehicle);
    assert(table.insert(vehicle.vin, row_of(vehicle)).remove(vehicle.vin) =~= table);
}

/// A stored row whose engine type names no engine is not found as a vehicle:
/// finding it fails as a conversion error.
pub proof fn undecodable_row_fails(table: Table, vin: Seq<char>)
    requires
        table.contains_key(vin),
        crate::vehicle::engine_named(table[vin].engine_type) is None,
    ensures
        found(table, vin) == Err::<VehicleView, AppErrorView>(
            AppErrorView::ConversionError("VehicleRow to Vehicle"@),
        ),
{
}

} // verus!

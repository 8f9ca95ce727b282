//! The rules by which vehicles are created, found and deleted.
//!
//! The store is reached over a network, so an operation cannot simply call it.
//! Instead an operation is a short exchange: [`start`] says what to ask the
//! store first, and [`resume`] takes the store's reply and says either what to
//! ask next or how the operation ended. Whoever talks to the store carries the
//! requests out and hands the replies back; every decision is taken here.

use vstd::prelude::*;
use crate::cql::Statement;
use crate::error::{AppError, AppErrorView};
use crate::row::{vehicle_of, row_of, VehicleRow, VehicleRowView};
use crate::vehicle::{Vehicle, VehicleView};

verus! {

/// What the store is asked to do: a statement with the values bound to it.
#[derive(Debug)]
pub enum Request {
    /// Read the rows under a key.
    Select { vin: String },
    /// Write a row unless its key is taken.
    Insert { row: VehicleRow },
    /// Remove the row under a key.
    Delete { vin: String },
}

/// A request as a mathematical value.
pub ghost enum RequestView {
    Select { vin: Seq<char> },
    Insert { row: VehicleRowView },
    Delete { vin: Seq<char> },
}

impl View for Request {
    type V = RequestView;

    open spec fn view(&self) -> RequestView {
        match *self {
            Request::Select { vin } => RequestView::Select { vin: vin@ },
            Request::Insert { row } => RequestView::Insert { row: row@ },
            Request::Delete { vin } => RequestView::Delete { vin: vin@ },
        }
    }
}

impl RequestView {
    /// The statement that carries the request.
    pub open spec fn statement(self) -> Statement {
        match self {
            RequestView::Select { .. } => Statement::SelectVehicle,
            RequestView::Insert { .. } => Statement::InsertVehicle,
            RequestView::Delete { .. } => Statement::DeleteVehicle,
        }
    }
}

impl Request {
    /// The statement that carries the request.
    pub fn statement(&self) -> (statement: Statement)
        ensures
            statement == self@.statement(),
    {
        match self {
            Request::Select { .. } => Statement::SelectVehicle,
            Request::Insert { .. } => Statement::InsertVehicle,
            Request::Delete { .. } => Statement::DeleteVehicle,
        }
    }
}

/// What the store returned for a statement that it carried out: the rows, if
/// the statement yields rows at all. A row that could not be read as a
/// vehicle row stands as the words of that failure.
#[derive(Debug)]
pub struct QueryResult {
    pub rows: Option<Vec<Result<VehicleRow, String>>>,
}

/// The store's reply to a request: its result, or the words of its failure.
pub type Reply = Result<QueryResult, String>;

/// A reply as a mathematical value.
pub type ReplyView = Result<Option<Seq<Result<VehicleRowView, Seq<char>>>>, Seq<char>>;

/// One returned row as a mathematical value.
pub open spec fn typed_row_view(row: Result<VehicleRow, String>) -> Result<
    VehicleRowView,
    Seq<char>,
> {
    match row {
        Ok(row) => Ok(row@),
        Err(words) => Err(words@),
    }
}

impl View for QueryResult {
    type V = Option<Seq<Result<VehicleRowView, Seq<char>>>>;

    open spec fn view(&self) -> Option<Seq<Result<VehicleRowView, Seq<char>>>> {
        match self.rows {
            Some(rows) => Some(rows@.map_values(|row| typed_row_view(row))),
            None => None,
        }
    }
}

/// A reply as a mathematical value.
pub open spec fn reply_view(reply: Reply) -> ReplyView {
    match reply {
        Ok(result) => Ok(result@),
        Err(words) => Err(words@),
    }
}

/// What a reply to a lookup says of the key.
pub ghost enum Presence {
    /// The store failed, or returned a row that could not be read; holds the words.
    Fault(Seq<char>),
    /// No row is stored under the key.
    Absent,
    /// The row stored under the key.
    Present(VehicleRowView),
}

/// What a reply to a lookup says of the key. Of several rows the first counts.
pub open spec fn presence(reply: ReplyView) -> Presence {
    match reply {
        Err(words) => Presence::Fault(words),
        Ok(None) => Presence::Absent,
        Ok(Some(rows)) => if rows.len() == 0 {
            Presence::Absent
        } else {
            match rows[0] {
                Ok(row) => Presence::Present(row),
                Err(words) => Presence::Fault(words),
            }
        },
    }
}

/// How a lookup ends for the caller who wants the vehicle.
pub open spec fn looked_up(reply: ReplyView) -> Result<VehicleView, AppErrorView> {
    match presence(reply) {
        Presence::Fault(words) => Err(AppErrorView::DatabaseError(words)),
        Presence::Absent => Err(AppErrorView::NotFound("Vehicle"@)),
        Presence::Present(row) => vehicle_of(row),
    }
}

enum Lookup {
    Fault(String),
    Absent,
    Present(VehicleRow),
}

spec fn lookup_view(lookup: Lookup) -> Presence {
    match lookup {
        Lookup::Fault(words) => Presence::Fault(words@),
        Lookup::Absent => Presence::Absent,
        Lookup::Present(row) => Presence::Present(row@),
    }
}

fn read_presence(reply: Reply) -> (lookup: Lookup)
    ensures
        lookup_view(lookup) == presence(reply_view(reply)),
{
    match reply {
        Err(words) => Lookup::Fault(words),
        Ok(result) => match result.rows {
            None => Lookup::Absent,
            Some(rows) => if rows.len() == 0 {
                Lookup::Absent
            } else {
                match &rows[0] {
                    Ok(row) => Lookup::Present(row.clone()),
                    Err(words) => Lookup::Fault(words.clone()),
                }
            },
        },
    }
}

/// The vehicle that a lookup found, or why it found none: nothing is stored
/// under the key, the stored row names no known engine, or the store failed.
pub fn find_one_vehicle(reply: Reply) -> (found: Result<Vehicle, AppError>)
    ensures
        match found {
            Ok(vehicle) => looked_up(reply_view(reply)) == Ok::<VehicleView, AppErrorView>(
                vehicle@,
            ),
            Err(error) => looked_up(reply_view(reply)) == Err::<VehicleView, AppErrorView>(
                error@,
            ),
        },
{
    match read_presence(reply) {
        Lookup::Fault(words) => Err(AppError::DatabaseError(words)),
        Lookup::Absent => Err(AppError::NotFound("Vehicle")),
        Lookup::Present(row) => Vehicle::try_from(&row),
    }
}

/// What a caller wants of the registry.
#[derive(Debug)]
pub enum Operation {
    /// Store a vehicle under its number, unless the number is taken.
    Create(Vehicle),
    /// Read the vehicle stored under a number.
    Find(String),
    /// Remove the vehicle stored under a number.
    Delete(String),
}

/// An operation as a mathematical value.
pub ghost enum OperationView {
    Create(VehicleView),
    Find(Seq<char>),
    Delete(Seq<char>),
}

impl View for Operation {
    type V = OperationView;

    open spec fn view(&self) -> OperationView {
        match *self {
            Operation::Create(vehicle) => OperationView::Create(vehicle@),
            Operation::Find(vin) => OperationView::Find(vin@),
            Operation::Delete(vin) => OperationView::Delete(vin@),
        }
    }
}

/// Where an operation stands while the store works on its request.
#[derive(Debug)]
pub enum Pending {
    /// Creating: the store is asked whether the number is taken.
    CreateLookup(Vehicle),
    /// Creating: the store is asked to write the row.
    CreateInsert,
    /// Finding: the store is asked for the row.
    FindLookup,
    /// Deleting: the store is asked whether the vehicle is there.
    DeleteLookup(String),
    /// Deleting: the store is asked to remove the row.
    DeleteRemove,
}

/// A pending operation as a mathematical value.
pub ghost enum PendingView {
    CreateLookup(VehicleView),
    CreateInsert,
    FindLookup,
    DeleteLookup(Seq<char>),
    DeleteRemove,
}

impl View for Pending {
    type V = PendingView;

    open spec fn view(&self) -> PendingView {
        match *self {
            Pending::CreateLookup(vehicle) => PendingView::CreateLookup(vehicle@),
            Pending::CreateInsert => PendingView::CreateInsert,
            Pending::FindLookup => PendingView::FindLookup,
            Pending::DeleteLookup(vin) => PendingView::DeleteLookup(vin@),
            Pending::DeleteRemove => PendingView::DeleteRemove,
        }
    }
}

/// How an operation ended well.
#[derive(PartialEq, Eq, Debug)]
pub enum Outcome {
    /// The vehicle is stored now.
    Created,
    /// The vehicle that is stored.
    Found(Vehicle),
    /// The vehicle is stored no longer.
    Deleted,
}

/// A good end as a mathematical value.
pub ghost enum OutcomeView {
    Created,
    Found(VehicleView),
    Deleted,
}

impl View for Outcome {
    type V = OutcomeView;

    open spec fn view(&self) -> OutcomeView {
        match *self {
            Outcome::Created => OutcomeView::Created,
            Outcome::Found(vehicle) => OutcomeView::Found(vehicle@),
            Outcome::Deleted => OutcomeView::Deleted,
        }
    }
}

/// What comes next in an operation.
#[derive(Debug)]
pub enum Step {
    /// Send the request to the store, and resume with its reply where the
    /// operation now stands.
    Execute(Request, Pending),
    /// The operation has ended.
    Finish(Result<Outcome, AppError>),
}

/// A step as a mathematical value.
pub ghost enum StepView {
    Execute(RequestView, PendingView),
    Finish(Result<OutcomeView, AppErrorView>),
}

impl View for Step {
    type V = StepView;

    open spec fn view(&self) -> StepView {
        match *self {
            Step::Execute(request, pending) => StepView::Execute(request@, pending@),
            Step::Finish(Ok(outcome)) => StepView::Finish(Ok(outcome@)),
            Step::Finish(Err(error)) => StepView::Finish(Err(error@)),
        }
    }
}

/// The first step of an operation: each begins by looking the key up.
pub open spec fn started(operation: OperationView) -> StepView {
    match operation {
        OperationView::Create(vehicle) => StepView::Execute(
            RequestView::Select { vin: vehicle.vin },
            PendingView::CreateLookup(vehicle),
        ),
        OperationView::Find(vin) => StepView::Execute(
            RequestView::Select { vin },
            PendingView::FindLookup,
        ),
        OperationView::Delete(vin) => StepView::Execute(
            RequestView::Select { vin },
            PendingView::DeleteLookup(vin),
        ),
    }
}

/// How a write or a removal ends: well, unless the store failed.
pub open spec fn written(reply: ReplyView, outcome: OutcomeView) -> StepView {
    match reply {
        Ok(_) => StepView::Finish(Ok(outcome)),
        Err(words) => StepView::Finish(Err(AppErrorView::DatabaseError(words))),
    }
}

/// The step that follows the store's reply.
///
/// * A vehicle is written only if the lookup found its key free. A key that
///   holds a row, readable as a vehicle or not, is taken.
/// * A vehicle is removed only if the lookup found it.
/// * A failure of the store ends the operation as a database error, at
///   whichever request it comes.
pub open spec fn resumed(pending: PendingView, reply: ReplyView) -> StepView {
    match pending {
        PendingView::CreateLookup(vehicle) => match presence(reply) {
            Presence::Fault(words) => StepView::Finish(Err(AppErrorView::DatabaseError(words))),
            Presence::Present(_) => StepView::Finish(
                Err(AppErrorView::AlreadyExists("Vehicle"@)),
            ),
            Presence::Absent => StepView::Execute(
                RequestView::Insert { row: row_of(vehicle) },
                PendingView::CreateInsert,
            ),
        },
        PendingView::CreateInsert => written(reply, OutcomeView::Created),
        PendingView::FindLookup => match looked_up(reply) {
            Ok(vehicle) => StepView::Finish(Ok(OutcomeView::Found(vehicle))),
            Err(error) => StepView::Finish(Err(error)),
        },
        PendingView::DeleteLookup(vin) => match looked_up(reply) {
            Ok(_) => StepView::Execute(RequestView::Delete { vin }, PendingView::DeleteRemove),
            Err(error) => StepView::Finish(Err(error)),
        },
        PendingView::DeleteRemove => written(reply, OutcomeView::Deleted),
    }
}

/// Begins an operation.
pub fn start(operation: Operation) -> (step: Step)
    ensures
        step@ == started(operation@),
{
    match operation {
        Operation::Create(vehicle) => Step::Execute(
            Request::Select { vin: vehicle.vin.clone() },
            Pending::CreateLookup(vehicle),
        ),
        Operation::Find(vin) => Step::Execute(Request::Select { vin }, Pending::FindLookup),
        Operation::Delete(vin) => Step::Execute(
            Request::Select { vin: vin.clone() },
            Pending::DeleteLookup(vin),
        ),
    }
}

fn finish_write(reply: Reply, outcome: Outcome) -> (step: Step)
    ensures
        step@ == written(reply_view(reply), outcome@),
{
    match reply {
        Ok(_) => Step::Finish(Ok(outcome)),
        Err(words) => Step::Finish(Err(AppError::DatabaseError(words))),
    }
}

/// Takes the store's reply to the request of a pending operation, and says
/// what comes next.
pub fn resume(pending: Pending, reply: Reply) -> (step: Step)
    ensures
        step@ == resumed(pending@, reply_view(reply)),
{
    match pending {
        Pending::CreateLookup(vehicle) => match read_presence(reply) {
            Lookup::Fault(words) => Step::Finish(Err(AppError::DatabaseError(words))),
            Lookup::Present(_) => Step::Finish(Err(AppError::AlreadyExists("Vehicle"))),
            Lookup::Absent => Step::Execute(
                Request::Insert { row: VehicleRow::from(vehicle) },
                Pending::CreateInsert,
            ),
        },
        Pending::CreateInsert => finish_write(reply, Outcome::Created),
        Pending::FindLookup => match find_one_vehicle(reply) {
            Ok(vehicle) => Step::Finish(Ok(Outcome::Found(vehicle))),
            Err(error) => Step::Finish(Err(error)),
        },
        Pending::DeleteLookup(vin) => match find_one_vehicle(reply) {
            Ok(_) => Step::Execute(Request::Delete { vin }, Pending::DeleteRemove),
            Err(error) => Step::Finish(Err(error)),
        },
        Pending::DeleteRemove => finish_write(reply, Outcome::Deleted),
    }
}

/// No operation asks the store more than twice: whatever the store replies,
/// the step after a second request is the end.
pub proof fn ends_after_two_requests(
    operation: OperationView,
    first: ReplyView,
    second: ReplyView,
)
    ensures
        started(operation) matches StepView::Execute(_, pending) && (resumed(pending, first)
            matches StepView::Execute(_, then) ==> resumed(then, second) is Finish),
{
}

} // verus!

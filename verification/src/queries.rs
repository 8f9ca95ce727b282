//! The registry on a store in memory.
//!
//! Here the rules of [`crate::repository`] meet a store and a statement
//! cache, and are proved to do what [`crate::table`] says the registry means.

use vstd::prelude::*;
use vstd::string::*;
use crate::cache::StatementCache;
use crate::cql::{names_differ, Statement};
use crate::error::{AppError, AppErrorView};
use crate::memory::{statement_text_round_trip, MemorySession};
use crate::repository::{
    reply_view, resume, start, Operation, OperationView, Outcome, OutcomeView, Reply, Request,
    Step,
};
use crate::row::{VehicleRow, VehicleRowView};
use crate::slot::{Directive, Slot};
use crate::table::{
    completed, created, deleted, exchange_performs_operation, executed, found, performed, rank,
    used, End, Table,
};
use crate::vehicle::{Vehicle, VehicleView};

verus! {

/// The statements prepared so far and one more, which is prepared only if it
/// was not prepared before.
pub open spec fn prepared_with(prepared: Seq<Statement>, statement: Statement) -> Seq<Statement> {
    if prepared.contains(statement) {
        prepared
    } else {
        prepared.push(statement)
    }
}

/// The statements prepared so far and those that are sent next, each of which
/// is prepared only if it was not prepared before.
pub open spec fn prepared_after(prepared: Seq<Statement>, sent: Seq<Statement>) -> Seq<Statement>
    decreases sent.len(),
{
    if sent.len() == 0 {
        prepared
    } else {
        prepared_after(prepared_with(prepared, sent.first()), sent.drop_first())
    }
}

/// However many statements are sent, none is prepared twice.
pub proof fn prepared_once(prepared: Seq<Statement>, sent: Seq<Statement>)
    requires
        prepared.no_duplicates(),
    ensures
        prepared_after(prepared, sent).no_duplicates(),
    decreases sent.len(),
{
    if sent.len() > 0 {
        prepared_once(prepared_with(prepared, sent.first()), sent.drop_first());
    }
}

/// How an operation without a result ended, as a mathematical value.
pub open spec fn end_view(end: Result<(), AppError>, outcome: OutcomeView) -> End {
    match end {
        Ok(_) => Ok(outcome),
        Err(error) => Err(error@),
    }
}

/// The registry on a store in memory: the rules of [`crate::repository`],
/// carried out request by request, each with a statement that is prepared
/// when it is first needed and kept from then on.
pub struct MemoryQueries {
    session: MemorySession,
    statements: StatementCache<Statement>,
}

impl View for MemoryQueries {
    type V = Table;

    /// The rows of the table.
    closed spec fn view(&self) -> Table {
        self.session@.table
    }
}

impl MemoryQueries {
    /// The statements that were prepared, in the order of their preparation.
    pub closed spec fn prepared(&self) -> Seq<Statement> {
        self.session@.prepared
    }

    /// The cache holds each prepared statement under its name and nothing
    /// under the names of the others, and no statement was prepared twice.
    pub closed spec fn wf(&self) -> bool {
        &&& self.prepared().no_duplicates()
        &&& forall|statement: Statement|
            #[trigger] self.statements@[statement.spec_name()] == self.cached(statement)
    }

    /// What the cache should hold under the name of a statement.
    spec fn cached(&self, statement: Statement) -> Slot<Statement> {
        if self.prepared().contains(statement) {
            Slot::Ready(statement)
        } else {
            Slot::Vacant
        }
    }

    /// A registry without vehicles, in which nothing was prepared.
    pub fn new() -> (queries: Self)
        ensures
            queries.wf(),
            queries@ == Map::<Seq<char>, VehicleRowView>::empty(),
            queries.prepared() == Seq::<Statement>::empty(),
    {
        MemoryQueries { session: MemorySession::new(), statements: StatementCache::new() }
    }

    /// No statement was prepared twice.
    pub proof fn prepared_at_most_once(&self)
        requires
            self.wf(),
        ensures
            self.prepared().no_duplicates(),
    {
    }

    /// The statements that were prepared, in the order of their preparation.
    pub fn prepared_statements(&self) -> (prepared: Vec<Statement>)
        ensures
            prepared@ == self.prepared(),
    {
        self.session.prepared_statements()
    }

    /// The row under `vin`, if there is one.
    pub fn row(&self, vin: &str) -> (row: Option<&VehicleRow>)
        ensures
            match row {
                Some(row) => self@.contains_key(vin@) && row@ == self@[vin@],
                None => !self@.contains_key(vin@),
            },
    {
        self.session.row(vin)
    }

    /// Puts `row` under its key, in place of the row that was there, as
    /// another writer to the store might. Nothing is asked of the row.
    pub fn put_row(&mut self, row: VehicleRow)
        requires
            old(self).wf(),
        ensures
            final(self).wf(),
            final(self)@ == old(self)@.insert(row@.vin, row@),
            final(self).prepared() == old(self).prepared(),
    {
        self.session.put_row(row);
    }

    /// Sends one request: with the cached statement if there is one, and else
    /// with the statement prepared now and cached for the next time.
    fn send(&mut self, request: &Request) -> (reply: Reply)
        requires
            old(self).wf(),
        ensures
            final(self).wf(),
            (final(self)@, reply_view(reply)) == executed(
                old(self)@,
                request@.statement(),
                request@,
            ),
            final(self).prepared() == prepared_with(old(self).prepared(), request@.statement()),
    {
        let statement = request.statement();
        let name = statement.name();
        proof {
            statement_text_round_trip(statement);
            assert(self.statements@[statement.spec_name()] == self.cached(statement));
        }
        if self.statements.request(name) == Directive::Compile {
            match self.session.prepare(statement.cql().as_str()) {
                Ok(prepared) => {
                    self.statements.complete(name, prepared);
                },
                Err(_) => {
                    self.statements.release(name);
                },
            }
        }
        let prepared = match self.statements.get(name) {
            Some(prepared) => *prepared,
            None => {
                return Err(String::from_str("statement is not prepared"));
            },
        };
        proof {
            broadcast use vstd::seq_lib::lemma_seq_contains_after_push;

            assert forall|other: Statement|
                #[trigger] self.statements@[other.spec_name()] == self.cached(other) by {
                names_differ(other, statement);
                assert(old(self).statements@[other.spec_name()] == old(self).cached(other));
            }
        }
        self.session.execute(prepared, request)
    }

    /// Carries an operation out, from its first request to its end.
    pub fn perform(&mut self, operation: Operation) -> (end: Result<Outcome, AppError>)
        requires
            old(self).wf(),
        ensures
            final(self).wf(),
            final(self)@ == performed(old(self)@, operation@).0,
            match end {
                Ok(outcome) => performed(old(self)@, operation@).1 == Ok::<
                    OutcomeView,
                    AppErrorView,
                >(outcome@),
                Err(error) => performed(old(self)@, operation@).1 == Err::<
                    OutcomeView,
                    AppErrorView,
                >(error@),
            },
            final(self).prepared() == prepared_after(
                old(self).prepared(),
                used(old(self)@, operation@),
            ),
    {
        proof {
            exchange_performs_operation(self@, operation@);
        }
        let ghost wanted = operation@;
        let mut step = start(operation);
        loop
            invariant
                self.wf(),
                wanted == operation@,
                completed(step@, self@).0 == performed(old(self)@, wanted).0,
                completed(step@, self@).1 == performed(old(self)@, wanted).1,
                prepared_after(self.prepared(), completed(step@, self@).2) == prepared_after(
                    old(self).prepared(),
                    used(old(self)@, wanted),
                ),
            decreases rank(step@),
        {
            match step {
                Step::Finish(end) => {
                    return end;
                },
                Step::Execute(request, pending) => {
                    let ghost before = step@;
                    let ghost table = self@;
                    let reply = self.send(&request);
                    step = resume(pending, reply);
                    proof {
                        let sent = completed(before, table).2;
                        assert(sent.first() == request@.statement());
                        assert(sent.drop_first() =~= completed(step@, self@).2);
                    }
                },
            }
        }
    }

    /// Stores `vehicle` under its number. It fails if the number is taken,
    /// and the stored row then stays as it is.
    pub fn create_vehicle(&mut self, vehicle: &Vehicle) -> (end: Result<(), AppError>)
        requires
            old(self).wf(),
        ensures
            final(self).wf(),
            (final(self)@, end_view(end, OutcomeView::Created)) == created(old(self)@, vehicle@),
            final(self).prepared() == prepared_after(
                old(self).prepared(),
                used(old(self)@, OperationView::Create(vehicle@)),
            ),
    {
        match self.perform(Operation::Create(vehicle.clone())) {
            Ok(_) => Ok(()),
            Err(error) => Err(error),
        }
    }

    /// The vehicle stored under `vin`. It fails as not found if nothing is
    /// stored there, and as a conversion error if the stored row names no
    /// known engine.
    pub fn find_one_vehicle(&mut self, vin: &str) -> (end: Result<Vehicle, AppError>)
        requires
            old(self).wf(),
        ensures
            final(self).wf(),
            final(self)@ == old(self)@,
            match end {
                Ok(vehicle) => found(old(self)@, vin@) == Ok::<VehicleView, AppErrorView>(
                    vehicle@,
                ),
                Err(error) => found(old(self)@, vin@) == Err::<VehicleView, AppErrorView>(
                    error@,
                ),
            },
            final(self).prepared() == prepared_with(
                old(self).prepared(),
                Statement::SelectVehicle,
            ),
    {
        let end = self.perform(Operation::Find(vin.to_owned()));
        proof {
            let sent = seq![Statement::SelectVehicle];
            assert(sent.drop_first() =~= Seq::<Statement>::empty());
            assert(prepared_after(old(self).prepared(), sent) == prepared_after(
                prepared_with(old(self).prepared(), sent.first()),
                sent.drop_first(),
            ));
        }
        match end {
            Ok(Outcome::Found(vehicle)) => Ok(vehicle),
            Ok(_) => Err(AppError::from("nothing was looked for")),
            Err(error) => Err(error),
        }
    }

    /// Removes the vehicle stored under `vin`. It fails as finding does, and
    /// the stored row then stays as it is.
    pub fn delete_one_vehicle(&mut self, vin: &str) -> (end: Result<(), AppError>)
        requires
            old(self).wf(),
        ensures
            final(self).wf(),
            (final(self)@, end_view(end, OutcomeView::Deleted)) == deleted(old(self)@, vin@),
            final(self).prepared() == prepared_after(
                old(self).prepared(),
                used(old(self)@, OperationView::Delete(vin@)),
            ),
    {
        match self.perform(Operation::Delete(vin.to_owned())) {
            Ok(_) => Ok(()),
            Err(error) => Err(error),
        }
    }
}

} // verus!

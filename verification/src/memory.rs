//! A store that lives in memory.
//!
//! The store behaves as the real one is expected to: statements are prepared
//! from their text and carried out with the values of a request, a write
//! leaves a key that is taken as it is, and nothing ever fails. It serves
//! where no real store is at hand.

use vstd::prelude::*;
use vstd::string::*;
use crate::cql::Statement;
use crate::name_map::NameMap;
use crate::repository::{reply_view, QueryResult, Reply, Request};
use crate::row::{VehicleRow, VehicleRowView};
use crate::table::{executed, Table};
use crate::text::same_text;

verus! {

/// The statement that a text spells, if it spells one of the three.
pub open spec fn statement_of(text: Seq<char>) -> Option<Statement> {
    if text == Statement::InsertVehicle.spec_cql() {
        Some(Statement::InsertVehicle)
    } else if text == Statement::SelectVehicle.spec_cql() {
        Some(Statement::SelectVehicle)
    } else if text == Statement::DeleteVehicle.spec_cql() {
        Some(Statement::DeleteVehicle)
    } else {
        None
    }
}

/// Each statement is read back from its own text.
pub proof fn statement_text_round_trip(statement: Statement)
    ensures
        statement_of(statement.spec_cql()) == Some(statement),
{
    reveal_strlit("INSERT INTO ");
    reveal_strlit("SELECT * from ");
    reveal_strlit("DELETE from ");
    assert(Statement::InsertVehicle.spec_cql()[0] == 'I');
    assert(Statement::SelectVehicle.spec_cql()[0] == 'S');
    assert(Statement::DeleteVehicle.spec_cql()[0] == 'D');
}

/// A store in memory.
pub struct MemorySession {
    rows: NameMap<Option<VehicleRow>>,
    prepared: Vec<Statement>,
}

/// A store in memory as a mathematical value.
pub ghost struct MemorySessionView {
    /// The rows of the table.
    pub table: Table,
    /// The statements that were prepared, in the order of their preparation.
    pub prepared: Seq<Statement>,
}

impl View for MemorySession {
    type V = MemorySessionView;

    closed spec fn view(&self) -> MemorySessionView {
        MemorySessionView {
            table: Map::new(
                |vin: Seq<char>| self.rows@.contains_key(vin) && self.rows@[vin] is Some,
                |vin: Seq<char>| self.rows@[vin]->0@,
            ),
            prepared: self.prepared@,
        }
    }
}

impl MemorySession {
    /// A store without rows, in which nothing was prepared.
    pub fn new() -> (session: Self)
        ensures
            session@.table == Map::<Seq<char>, VehicleRowView>::empty(),
            session@.prepared == Seq::<Statement>::empty(),
    {
        let session = MemorySession { rows: NameMap::new(), prepared: Vec::new() };
        assert(session@.table =~= Map::<Seq<char>, VehicleRowView>::empty());
        session
    }

    /// Prepares the statement that `cql` spells, and notes that it did.
    /// A text that spells none of the three statements is refused.
    pub fn prepare(&mut self, cql: &str) -> (prepared: Result<Statement, String>)
        ensures
            final(self)@.table == old(self)@.table,
            match statement_of(cql@) {
                Some(statement) => {
                    &&& prepared == Ok::<Statement, String>(statement)
                    &&& final(self)@.prepared == old(self)@.prepared.push(statement)
                },
                None => {
                    &&& prepared matches Err(words) && words@ == "unknown statement"@
                    &&& final(self)@.prepared == old(self)@.prepared
                },
            },
    {
        let statement = if same_text(cql, Statement::InsertVehicle.cql().as_str()) {
            Statement::InsertVehicle
        } else if same_text(cql, Statement::SelectVehicle.cql().as_str()) {
            Statement::SelectVehicle
        } else if same_text(cql, Statement::DeleteVehicle.cql().as_str()) {
            Statement::DeleteVehicle
        } else {
            return Err(String::from_str("unknown statement"));
        };
        self.prepared.push(statement);
        Ok(statement)
    }

    /// The statements that were prepared, in the order of their preparation.
    pub fn prepared_statements(&self) -> (prepared: Vec<Statement>)
        ensures
            prepared@ == self@.prepared,
    {
        self.prepared.clone()
    }

    /// The row under `vin`, if there is one.
    pub fn row(&self, vin: &str) -> (row: Option<&VehicleRow>)
        ensures
            match row {
                Some(row) => self@.table.contains_key(vin@) && row@ == self@.table[vin@],
                None => !self@.table.contains_key(vin@),
            },
    {
        match self.rows.get(vin) {
            Some(Some(row)) => Some(row),
            _ => None,
        }
    }

    /// Puts `row` under its key, in place of the row that was there.
    pub fn put_row(&mut self, row: VehicleRow)
        ensures
            final(self)@.table == old(self)@.table.insert(row@.vin, row@),
            final(self)@.prepared == old(self)@.prepared,
    {
        let vin = row.vin.clone();
        self.rows.put(vin.as_str(), Some(row));
        assert(self@.table =~= old(self)@.table.insert(row@.vin, row@));
    }

    /// Carries out a prepared statement with the values of `request`.
    pub fn execute(&mut self, statement: Statement, request: &Request) -> (reply: Reply)
        ensures
            (final(self)@.table, reply_view(reply)) == executed(
                old(self)@.table,
                statement,
                request@,
            ),
            final(self)@.prepared == old(self)@.prepared,
    {
        if statement != request.statement() {
            return Err(String::from_str("statement and values do not match"));
        }
        match request {
            Request::Select { vin } => {
                let mut rows: Vec<Result<VehicleRow, String>> = Vec::new();
                match self.row(vin.as_str()) {
                    Some(row) => {
                        rows.push(Ok(row.clone()));
                    },
                    None => {},
                }
                let result = QueryResult { rows: Some(rows) };
                proof {
                    let expected = executed(old(self)@.table, statement, request@).1;
                    assert(result@->0 =~= expected->Ok_0->0);
                }
                Ok(result)
            },
            Request::Insert { row } => {
                if self.row(row.vin.as_str()).is_none() {
                    self.put_row(row.clone());
                }
                Ok(QueryResult { rows: None })
            },
            Request::Delete { vin } => {
                self.rows.put(vin.as_str(), None);
                assert(self@.table =~= old(self)@.table.remove(vin@));
                Ok(QueryResult { rows: None })
            },
        }
    }
}

} // verus!

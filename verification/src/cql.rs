//! The statements that the registry sends to the store, as text.

use vstd::prelude::*;
use vstd::string::*;
use crate::row::{VehicleRow, WithDbConstants};
use crate::text::framed;

verus! {

/// The parts of a sequence of texts, put together with a separator between
/// each two neighbours.
pub open spec fn joined(parts: Seq<Seq<char>>, separator: Seq<char>) -> Seq<char>
    decreases parts.len(),
{
    if parts.len() == 0 {
        Seq::empty()
    } else if parts.len() == 1 {
        parts[0]
    } else {
        joined(parts.drop_last(), separator) + separator + parts.last()
    }
}

/// The texts of a list of string slices.
pub open spec fn texts(parts: Seq<&str>) -> Seq<Seq<char>> {
    Seq::new(parts.len(), |i: int| parts[i]@)
}

/// Puts `parts` together with `separator` between each two neighbours.
pub fn join(parts: &[&str], separator: &str) -> (text: String)
    ensures
        text@ == joined(texts(parts@), separator@),
{
    let mut text = String::new();
    let mut i: usize = 0;
    while i < parts.len()
        invariant
            i <= parts@.len(),
            text@ == joined(texts(parts@).take(i as int), separator@),
        decreases parts@.len() - i,
    {
        if i > 0 {
            text.append(separator);
        }
        text.append(parts[i]);
        proof {
            let all = texts(parts@);
            assert(all.take(i + 1).drop_last() =~= all.take(i as int));
            assert(all.take(i + 1).last() == parts@[i as int]@);
            if i == 0 {
                assert(text@ =~= parts@[0]@);
            }
        }
        i += 1;
    }
    proof {
        assert(texts(parts@).take(i as int) =~= texts(parts@));
    }
    text
}

/// The three statements by which vehicles are written, read and removed.
#[derive(Clone, Copy, PartialEq, Eq, Structural, Debug)]
pub enum Statement {
    InsertVehicle,
    SelectVehicle,
    DeleteVehicle,
}

/// The columns of a row, as texts.
pub open spec fn columns() -> Seq<Seq<char>> {
    seq!["vin"@, "engine_type"@, "ev_data"@]
}

/// The text of the statement that writes a vehicle's row unless the key is taken.
pub open spec fn insert_vehicle_text() -> Seq<char> {
    "INSERT INTO "@ + VehicleRow::TABLE_NAME@ + " ("@ + joined(columns(), ","@)
        + ") VALUES (?, ?, ?) IF NOT EXISTS"@
}

/// The text of the statement that reads a vehicle's row.
pub open spec fn select_vehicle_text() -> Seq<char> {
    "SELECT * from "@ + VehicleRow::TABLE_NAME@ + " where vin = ?"@
}

/// The text of the statement that removes a vehicle's row.
pub open spec fn delete_vehicle_text() -> Seq<char> {
    "DELETE from "@ + VehicleRow::TABLE_NAME@ + " where vin = ?"@
}

/// The text of the statement that writes a vehicle's row unless the key is taken.
pub fn insert_vehicle_cql() -> (text: String)
    ensures
        text@ == insert_vehicle_text(),
{
    let fields = VehicleRow::FIELDS;
    let slice = fields.as_slice();
    let names = join(slice, ",");
    proof {
        assert(texts(slice@) =~= columns());
    }
    let mut text = framed("INSERT INTO ", VehicleRow::TABLE_NAME, " (");
    text.append(names.as_str());
    text.append(") VALUES (?, ?, ?) IF NOT EXISTS");
    text
}

/// The text of the statement that reads a vehicle's row.
pub fn select_vehicle_cql() -> (text: String)
    ensures
        text@ == select_vehicle_text(),
{
    framed("SELECT * from ", VehicleRow::TABLE_NAME, " where vin = ?")
}

/// The text of the statement that removes a vehicle's row.
pub fn delete_vehicle_cql() -> (text: String)
    ensures
        text@ == delete_vehicle_text(),
{
    framed("DELETE from ", VehicleRow::TABLE_NAME, " where vin = ?")
}

impl Statement {
    /// The name under which the prepared statement is cached.
    pub open spec fn spec_name(self) -> Seq<char> {
        match self {
            Statement::InsertVehicle => "insert_vehicle"@,
            Statement::SelectVehicle => "select_vehicle"@,
            Statement::DeleteVehicle => "delete_vehicle"@,
        }
    }

    /// The statement as text.
    pub open spec fn spec_cql(self) -> Seq<char> {
        match self {
            Statement::InsertVehicle => insert_vehicle_text(),
            Statement::SelectVehicle => select_vehicle_text(),
            Statement::DeleteVehicle => delete_vehicle_text(),
        }
    }

    /// The name under which the prepared statement is cached.
    pub fn name(&self) -> (name: &'static str)
        ensures
            name@ == self.spec_name(),
    {
        match self {
            Statement::InsertVehicle => "insert_vehicle",
            Statement::SelectVehicle => "select_vehicle",
            Statement::DeleteVehicle => "delete_vehicle",
        }
    }

    /// The statement as text, to be prepared by the store.
    pub fn cql(&self) -> (text: String)
        ensures
            text@ == self.spec_cql(),
    {
        match self {
            Statement::InsertVehicle => insert_vehicle_cql(),
            Statement::SelectVehicle => select_vehicle_cql(),
            Statement::DeleteVehicle => delete_vehicle_cql(),
        }
    }
}

/// The three names differ, so no statement is cached in another's slot.
pub proof fn names_differ(a: Statement, b: Statement)
    ensures
        a.spec_name() == b.spec_name() <==> a == b,
{
    reveal_strlit("insert_vehicle");
    reveal_strlit("select_vehicle");
    reveal_strlit("delete_vehicle");
    assert("insert_vehicle"@[0] == 'i');
    assert("select_vehicle"@[0] == 's');
    assert("delete_vehicle"@[0] == 'd');
}

/// The statements that make the keyspace, the type of battery data and the
/// table of vehicles, in the order in which they must run.
pub open spec fn schema_texts(keyspace: Seq<char>) -> Seq<Seq<char>> {
    seq![
        "CREATE KEYSPACE IF NOT EXISTS "@ + keyspace
            + " WITH REPLICATION = {'class' : 'SimpleStrategy', 'replication_factor' : 1}"@,
        "CREATE TYPE IF NOT EXISTS "@ + keyspace
            + ".ev_data (battery_capacity_in_kwh int, soc_in_percent int)"@,
        "CREATE TABLE IF NOT EXISTS "@ + keyspace + "."@ + VehicleRow::TABLE_NAME@
            + " (vin text primary key, engine_type text, ev_data ev_data)"@,
    ]
}

/// The statements that make the keyspace, the type of battery data and the
/// table of vehicles, in the order in which they must run.
pub fn schema_statements(keyspace: &str) -> (statements: Vec<String>)
    ensures
        statements@.len() == 3,
        forall|i: int| 0 <= i < 3 ==> (#[trigger] statements@[i])@ == schema_texts(keyspace@)[i],
{
    let mut statements: Vec<String> = Vec::new();
    statements.push(
        framed(
            "CREATE KEYSPACE IF NOT EXISTS ",
            keyspace,
            " WITH REPLICATION = {'class' : 'SimpleStrategy', 'replication_factor' : 1}",
        ),
    );
    statements.push(
        framed(
            "CREATE TYPE IF NOT EXISTS ",
            keyspace,
            ".ev_data (battery_capacity_in_kwh int, soc_in_percent int)",
        ),
    );
    let mut table = framed("CREATE TABLE IF NOT EXISTS ", keyspace, ".");
    table.append(VehicleRow::TABLE_NAME);
    table.append(" (vin text primary key, engine_type text, ev_data ev_data)");
    statements.push(table);
    statements
}

} // verus!

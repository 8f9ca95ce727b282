use hello::config::{
    decimal_text, node_address, DEFAULT_ADDR, DEFAULT_PORT, KEYSPACE, REQUEST_TIMEOUT_SECS,
};
use hello::cql::{
    delete_vehicle_cql, insert_vehicle_cql, join, schema_statements, select_vehicle_cql, Statement,
};
use hello::row::{VehicleRow, WithDbConstants};

#[test]
fn insert_statement_names_the_fields() {
    assert_eq!(
        insert_vehicle_cql(),
        "INSERT INTO vehicles (vin,engine_type,ev_data) VALUES (?, ?, ?) IF NOT EXISTS"
    );
}

#[test]
fn select_and_delete_statements() {
    assert_eq!(select_vehicle_cql(), "SELECT * from vehicles where vin = ?");
    assert_eq!(delete_vehicle_cql(), "DELETE from vehicles where vin = ?");
}

#[test]
fn statement_text_and_name() {
    assert_eq!(
        Statement::InsertVehicle.cql(),
        "INSERT INTO vehicles (vin,engine_type,ev_data) VALUES (?, ?, ?) IF NOT EXISTS"
    );
    assert_eq!(Statement::SelectVehicle.cql(), "SELECT * from vehicles where vin = ?");
    assert_eq!(Statement::DeleteVehicle.cql(), "DELETE from vehicles where vin = ?");
    assert_eq!(Statement::InsertVehicle.name(), "insert_vehicle");
    assert_eq!(Statement::SelectVehicle.name(), "select_vehicle");
    assert_eq!(Statement::DeleteVehicle.name(), "delete_vehicle");
}

#[test]
fn schema_statements_for_a_keyspace() {
    let statements = schema_statements("hello_test");
    assert_eq!(
        statements,
        vec![
            "CREATE KEYSPACE IF NOT EXISTS hello_test WITH REPLICATION = {'class' : 'SimpleStrategy', 'replication_factor' : 1}".to_string(),
            "CREATE TYPE IF NOT EXISTS hello_test.ev_data (battery_capacity_in_kwh int, soc_in_percent int)".to_string(),
            "CREATE TABLE IF NOT EXISTS hello_test.vehicles (vin text primary key, engine_type text, ev_data ev_data)".to_string(),
        ]
    );
}

#[test]
fn join_puts_the_separator_between() {
    assert_eq!(join(&[], ","), "");
    assert_eq!(join(&["vin"], ","), "vin");
    assert_eq!(join(&["a", "b", "c"], ", "), "a, b, c");
    assert_eq!(join(&["", ""], "-"), "-");
}

#[test]
fn node_address_with_defaults() {
    assert_eq!(node_address(None, None), "localhost:9042");
    assert_eq!(node_address(Some("10.0.0.7"), None), "10.0.0.7:9042");
    assert_eq!(node_address(None, Some(19042)), "localhost:19042");
    assert_eq!(node_address(Some("scylla"), Some(0)), "scylla:0");
}

#[test]
fn decimal_text_of_ports() {
    assert_eq!(decimal_text(0), "0");
    assert_eq!(decimal_text(9), "9");
    assert_eq!(decimal_text(10), "10");
    assert_eq!(decimal_text(9042), "9042");
    assert_eq!(decimal_text(65535), "65535");
    for port in [1u16, 99, 100, 101, 3000, 40000] {
        assert_eq!(decimal_text(port), port.to_string());
    }
}

#[test]
fn table_name() {
    assert_eq!(VehicleRow::TABLE_NAME, "vehicles");
}

#[test]
fn defaults() {
    assert_eq!(DEFAULT_ADDR, "localhost");
    assert_eq!(DEFAULT_PORT, 9042);
    assert_eq!(KEYSPACE, "hello");
    assert_eq!(REQUEST_TIMEOUT_SECS, 5);
}

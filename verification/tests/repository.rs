use hello::cql::Statement;
use hello::error::AppError;
use hello::repository::{
    find_one_vehicle, resume, start, Operation, Outcome, Pending, QueryResult, Reply, Request,
    Step,
};
use hello::row::{EvDataUserType, VehicleRow};
use hello::vehicle::{Engine, EvData, Vehicle};

fn vehicle() -> Vehicle {
    Vehicle {
        vin: "vin1".to_string(),
        engine: Engine::Ev,
        ev_data: Some(EvData {
            battery_capacity_in_kwh: 12,
            soc_in_percent: 76,
        }),
    }
}

fn row() -> VehicleRow {
    VehicleRow {
        vin: "vin1".to_string(),
        engine_type: "Ev".to_string(),
        ev_data: Some(EvDataUserType {
            battery_capacity_in_kwh: 12,
            soc_in_percent: 76,
        }),
    }
}

fn rows(rows: Vec<Result<VehicleRow, String>>) -> Reply {
    Ok(QueryResult { rows: Some(rows) })
}

fn no_rows() -> Reply {
    Ok(QueryResult { rows: None })
}

fn fault(words: &str) -> Reply {
    Err(words.to_string())
}

#[test]
fn find_decodes_the_first_row() {
    assert_eq!(find_one_vehicle(rows(vec![Ok(row())])).ok(), Some(vehicle()));
    let other = VehicleRow {
        vin: "vin2".to_string(),
        engine_type: "Invalid".to_string(),
        ev_data: None,
    };
    assert_eq!(
        find_one_vehicle(rows(vec![Ok(row()), Ok(other)])).ok(),
        Some(vehicle())
    );
}

#[test]
fn find_without_rows_is_not_found() {
    assert!(matches!(
        find_one_vehicle(no_rows()),
        Err(AppError::NotFound("Vehicle"))
    ));
    assert!(matches!(
        find_one_vehicle(rows(vec![])),
        Err(AppError::NotFound("Vehicle"))
    ));
}

#[test]
fn find_with_unknown_engine_is_conversion_error() {
    let stored = VehicleRow {
        vin: "vin1".to_string(),
        engine_type: "Steam".to_string(),
        ev_data: None,
    };
    assert!(matches!(
        find_one_vehicle(rows(vec![Ok(stored)])),
        Err(AppError::ConversionError("VehicleRow to Vehicle"))
    ));
}

#[test]
fn find_with_store_fault_is_database_error() {
    assert!(matches!(
        find_one_vehicle(fault("connection reset")),
        Err(AppError::DatabaseError(words)) if words == "connection reset"
    ));
    assert!(matches!(
        find_one_vehicle(rows(vec![Err("wrong column count".to_string()), Ok(row())])),
        Err(AppError::DatabaseError(words)) if words == "wrong column count"
    ));
}

#[test]
fn every_operation_starts_with_a_lookup() {
    assert!(matches!(
        start(Operation::Create(vehicle())),
        Step::Execute(Request::Select { vin }, Pending::CreateLookup(kept))
            if vin == "vin1" && kept == vehicle()
    ));
    assert!(matches!(
        start(Operation::Find("vin1".to_string())),
        Step::Execute(Request::Select { vin }, Pending::FindLookup) if vin == "vin1"
    ));
    assert!(matches!(
        start(Operation::Delete("vin1".to_string())),
        Step::Execute(Request::Select { vin }, Pending::DeleteLookup(kept))
            if vin == "vin1" && kept == "vin1"
    ));
}

#[test]
fn create_writes_when_the_key_is_free() {
    for reply in [no_rows(), rows(vec![])] {
        assert!(matches!(
            resume(Pending::CreateLookup(vehicle()), reply),
            Step::Execute(Request::Insert { row: written }, Pending::CreateInsert)
                if written == row()
        ));
    }
    assert!(matches!(
        resume(Pending::CreateInsert, no_rows()),
        Step::Finish(Ok(Outcome::Created))
    ));
}

#[test]
fn create_refuses_a_taken_key() {
    assert!(matches!(
        resume(Pending::CreateLookup(vehicle()), rows(vec![Ok(row())])),
        Step::Finish(Err(AppError::AlreadyExists("Vehicle")))
    ));
    let unreadable = VehicleRow {
        vin: "vin1".to_string(),
        engine_type: "Steam".to_string(),
        ev_data: None,
    };
    assert!(matches!(
        resume(Pending::CreateLookup(vehicle()), rows(vec![Ok(unreadable)])),
        Step::Finish(Err(AppError::AlreadyExists("Vehicle")))
    ));
}

#[test]
fn create_reports_store_faults() {
    assert!(matches!(
        resume(Pending::CreateLookup(vehicle()), fault("timeout")),
        Step::Finish(Err(AppError::DatabaseError(words))) if words == "timeout"
    ));
    assert!(matches!(
        resume(Pending::CreateInsert, fault("write failed")),
        Step::Finish(Err(AppError::DatabaseError(words))) if words == "write failed"
    ));
}

#[test]
fn find_ends_after_the_lookup() {
    assert!(matches!(
        resume(Pending::FindLookup, rows(vec![Ok(row())])),
        Step::Finish(Ok(Outcome::Found(found))) if found == vehicle()
    ));
    assert!(matches!(
        resume(Pending::FindLookup, rows(vec![])),
        Step::Finish(Err(AppError::NotFound("Vehicle")))
    ));
}

#[test]
fn delete_removes_what_was_found() {
    assert!(matches!(
        resume(Pending::DeleteLookup("vin1".to_string()), rows(vec![Ok(row())])),
        Step::Execute(Request::Delete { vin }, Pending::DeleteRemove) if vin == "vin1"
    ));
    assert!(matches!(
        resume(Pending::DeleteRemove, no_rows()),
        Step::Finish(Ok(Outcome::Deleted))
    ));
}

#[test]
fn delete_of_unknown_is_not_found() {
    assert!(matches!(
        resume(Pending::DeleteLookup("doesnotexist".to_string()), rows(vec![])),
        Step::Finish(Err(AppError::NotFound("Vehicle")))
    ));
}

#[test]
fn delete_reports_fault_of_the_removal_as_database_error() {
    assert!(matches!(
        resume(Pending::DeleteRemove, fault("node down")),
        Step::Finish(Err(AppError::DatabaseError(words))) if words == "node down"
    ));
}

#[test]
fn delete_hands_on_why_the_lookup_failed() {
    let unreadable = VehicleRow {
        vin: "vin1".to_string(),
        engine_type: "Steam".to_string(),
        ev_data: None,
    };
    assert!(matches!(
        resume(Pending::DeleteLookup("vin1".to_string()), rows(vec![Ok(unreadable)])),
        Step::Finish(Err(AppError::ConversionError(_)))
    ));
    assert!(matches!(
        resume(Pending::DeleteLookup("vin1".to_string()), fault("node down")),
        Step::Finish(Err(AppError::DatabaseError(words))) if words == "node down"
    ));
}

#[test]
fn request_names_its_statement() {
    assert_eq!(
        Request::Select { vin: "vin1".to_string() }.statement(),
        Statement::SelectVehicle
    );
    assert_eq!(Request::Insert { row: row() }.statement(), Statement::InsertVehicle);
    assert_eq!(
        Request::Delete { vin: "vin1".to_string() }.statement(),
        Statement::DeleteVehicle
    );
}

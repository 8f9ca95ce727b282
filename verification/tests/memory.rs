use hello::cql::Statement;
use hello::error::AppError;
use hello::memory::MemorySession;
use hello::queries::MemoryQueries;
use hello::repository::{Operation, Outcome, QueryResult, Request};
use hello::row::VehicleRow;
use hello::vehicle::{Engine, EvData, Vehicle};

fn combustion(vin: &str) -> Vehicle {
    Vehicle {
        vin: vin.to_string(),
        engine: Engine::Combustion,
        ev_data: None,
    }
}

#[test]
fn create_then_find_returns_the_input() {
    let mut queries = MemoryQueries::new();
    let vehicle = combustion("vin1");
    assert!(queries.create_vehicle(&vehicle).is_ok());
    assert_eq!(queries.find_one_vehicle("vin1").ok(), Some(vehicle));
}

#[test]
fn create_twice_is_rejected() {
    let mut queries = MemoryQueries::new();
    let vehicle = combustion("vin1");
    assert!(queries.create_vehicle(&vehicle).is_ok());
    assert!(matches!(
        queries.create_vehicle(&vehicle),
        Err(AppError::AlreadyExists("Vehicle"))
    ));
}

#[test]
fn rejected_create_keeps_the_stored_vehicle() {
    let mut queries = MemoryQueries::new();
    let first = combustion("vin1");
    let second = Vehicle {
        vin: "vin1".to_string(),
        engine: Engine::Ev,
        ev_data: Some(EvData {
            battery_capacity_in_kwh: 50,
            soc_in_percent: 80,
        }),
    };
    assert!(queries.create_vehicle(&first).is_ok());
    assert!(matches!(
        queries.create_vehicle(&second),
        Err(AppError::AlreadyExists("Vehicle"))
    ));
    assert_eq!(queries.find_one_vehicle("vin1").ok(), Some(first));
}

#[test]
fn unknown_vin_is_not_found() {
    let mut queries = MemoryQueries::new();
    assert!(matches!(
        queries.find_one_vehicle("doesnotexist"),
        Err(AppError::NotFound("Vehicle"))
    ));
    assert!(matches!(
        queries.delete_one_vehicle("doesnotexist"),
        Err(AppError::NotFound("Vehicle"))
    ));
    assert!(queries.create_vehicle(&combustion("vin1")).is_ok());
    assert!(matches!(
        queries.find_one_vehicle("doesnotexist"),
        Err(AppError::NotFound("Vehicle"))
    ));
    assert!(matches!(
        queries.delete_one_vehicle("doesnotexist"),
        Err(AppError::NotFound("Vehicle"))
    ));
    assert_eq!(queries.find_one_vehicle("vin1").ok(), Some(combustion("vin1")));
}

#[test]
fn delete_removes() {
    let mut queries = MemoryQueries::new();
    assert!(queries.create_vehicle(&combustion("vin1")).is_ok());
    assert!(queries.delete_one_vehicle("vin1").is_ok());
    assert!(matches!(
        queries.find_one_vehicle("vin1"),
        Err(AppError::NotFound("Vehicle"))
    ));
    assert!(queries.row("vin1").is_none());
}

#[test]
fn deleted_vin_can_be_created_again() {
    let mut queries = MemoryQueries::new();
    assert!(queries.create_vehicle(&combustion("vin1")).is_ok());
    assert!(queries.delete_one_vehicle("vin1").is_ok());
    let again = Vehicle {
        vin: "vin1".to_string(),
        engine: Engine::Phev,
        ev_data: None,
    };
    assert!(queries.create_vehicle(&again).is_ok());
    assert_eq!(queries.find_one_vehicle("vin1").ok(), Some(again));
}

#[test]
fn unknown_engine_type_is_conversion_error() {
    let mut queries = MemoryQueries::new();
    queries.put_row(VehicleRow {
        vin: "vin1".to_string(),
        engine_type: "Steam".to_string(),
        ev_data: None,
    });
    assert!(matches!(
        queries.find_one_vehicle("vin1"),
        Err(AppError::ConversionError("VehicleRow to Vehicle"))
    ));
    assert!(matches!(
        queries.delete_one_vehicle("vin1"),
        Err(AppError::ConversionError("VehicleRow to Vehicle"))
    ));
    assert!(matches!(
        queries.create_vehicle(&combustion("vin1")),
        Err(AppError::AlreadyExists("Vehicle"))
    ));
    assert_eq!(queries.row("vin1").map(|row| row.engine_type.as_str()), Some("Steam"));
}

#[test]
fn vehicles_do_not_disturb_each_other() {
    let mut queries = MemoryQueries::new();
    let first = combustion("vin1");
    let second = Vehicle {
        vin: "vin2".to_string(),
        engine: Engine::Ev,
        ev_data: Some(EvData {
            battery_capacity_in_kwh: 12,
            soc_in_percent: 76,
        }),
    };
    assert!(queries.create_vehicle(&first).is_ok());
    assert!(queries.create_vehicle(&second).is_ok());
    assert!(queries.delete_one_vehicle("vin1").is_ok());
    assert_eq!(queries.find_one_vehicle("vin2").ok(), Some(second));
    assert!(queries.find_one_vehicle("vin1").is_err());
}

#[test]
fn each_statement_is_prepared_once() {
    let mut queries = MemoryQueries::new();
    assert_eq!(queries.prepared_statements(), vec![]);
    assert!(queries.find_one_vehicle("vin1").is_err());
    assert_eq!(queries.prepared_statements(), vec![Statement::SelectVehicle]);
    for i in 0..10 {
        let vin = format!("vin{}", i);
        assert!(queries.create_vehicle(&combustion(&vin)).is_ok());
        assert!(queries.find_one_vehicle(&vin).is_ok());
    }
    assert_eq!(
        queries.prepared_statements(),
        vec![Statement::SelectVehicle, Statement::InsertVehicle]
    );
    for i in 0..10 {
        let vin = format!("vin{}", i);
        assert!(queries.delete_one_vehicle(&vin).is_ok());
    }
    assert_eq!(
        queries.prepared_statements(),
        vec![
            Statement::SelectVehicle,
            Statement::InsertVehicle,
            Statement::DeleteVehicle
        ]
    );
}

#[test]
fn perform_carries_an_operation_to_its_end() {
    let mut queries = MemoryQueries::new();
    let vehicle = combustion("vin1");
    assert_eq!(
        queries.perform(Operation::Create(vehicle.clone())).ok(),
        Some(Outcome::Created)
    );
    assert_eq!(
        queries.perform(Operation::Find("vin1".to_string())).ok(),
        Some(Outcome::Found(vehicle))
    );
    assert_eq!(
        queries.perform(Operation::Delete("vin1".to_string())).ok(),
        Some(Outcome::Deleted)
    );
    assert!(matches!(
        queries.perform(Operation::Find("vin1".to_string())),
        Err(AppError::NotFound("Vehicle"))
    ));
}

#[test]
fn session_prepares_the_three_statements() {
    let mut session = MemorySession::new();
    assert_eq!(
        session.prepare("SELECT * from vehicles where vin = ?"),
        Ok(Statement::SelectVehicle)
    );
    assert_eq!(
        session.prepare("DELETE from vehicles where vin = ?"),
        Ok(Statement::DeleteVehicle)
    );
    assert_eq!(
        session.prepare(
            "INSERT INTO vehicles (vin,engine_type,ev_data) VALUES (?, ?, ?) IF NOT EXISTS"
        ),
        Ok(Statement::InsertVehicle)
    );
    assert_eq!(
        session.prepare("DROP TABLE vehicles"),
        Err("unknown statement".to_string())
    );
}

#[test]
fn session_notes_what_it_prepared() {
    let mut session = MemorySession::new();
    assert_eq!(session.prepared_statements(), vec![]);
    assert!(session.prepare("SELECT * from vehicles where vin = ?").is_ok());
    assert!(session.prepare("SELECT * from vehicles").is_err());
    assert!(session.prepare("DELETE from vehicles where vin = ?").is_ok());
    assert_eq!(
        session.prepared_statements(),
        vec![Statement::SelectVehicle, Statement::DeleteVehicle]
    );
}

#[test]
fn session_delete_leaves_no_row() {
    let mut session = MemorySession::new();
    session.put_row(VehicleRow {
        vin: "vin1".to_string(),
        engine_type: "Combustion".to_string(),
        ev_data: None,
    });
    let reply = session.execute(
        Statement::DeleteVehicle,
        &Request::Delete { vin: "vin1".to_string() },
    );
    assert!(matches!(reply, Ok(QueryResult { rows: None })));
    assert_eq!(session.row("vin1"), None);
    let again = session.execute(
        Statement::DeleteVehicle,
        &Request::Delete { vin: "vin1".to_string() },
    );
    assert!(matches!(again, Ok(QueryResult { rows: None })));
}

#[test]
fn session_insert_keeps_a_taken_key() {
    let mut session = MemorySession::new();
    let first = VehicleRow {
        vin: "vin1".to_string(),
        engine_type: "Combustion".to_string(),
        ev_data: None,
    };
    let second = VehicleRow {
        vin: "vin1".to_string(),
        engine_type: "Ev".to_string(),
        ev_data: None,
    };
    let applied = session.execute(
        Statement::InsertVehicle,
        &Request::Insert { row: first.clone() },
    );
    assert!(matches!(applied, Ok(QueryResult { rows: None })));
    let refused = session.execute(
        Statement::InsertVehicle,
        &Request::Insert { row: second },
    );
    assert!(matches!(refused, Ok(QueryResult { rows: None })));
    assert_eq!(session.row("vin1"), Some(&first));
}

#[test]
fn session_select_returns_the_row_or_none() {
    let mut session = MemorySession::new();
    let stored = VehicleRow {
        vin: "vin1".to_string(),
        engine_type: "Combustion".to_string(),
        ev_data: None,
    };
    session.put_row(stored.clone());
    let hit = session.execute(
        Statement::SelectVehicle,
        &Request::Select { vin: "vin1".to_string() },
    );
    assert!(matches!(hit, Ok(QueryResult { rows: Some(rows) }) if rows == vec![Ok(stored)]));
    let miss = session.execute(
        Statement::SelectVehicle,
        &Request::Select { vin: "vin2".to_string() },
    );
    assert!(matches!(miss, Ok(QueryResult { rows: Some(rows) }) if rows.is_empty()));
}

#[test]
fn session_refuses_values_of_another_statement() {
    let mut session = MemorySession::new();
    let reply = session.execute(
        Statement::DeleteVehicle,
        &Request::Select { vin: "vin1".to_string() },
    );
    assert!(matches!(reply, Err(words) if words == "statement and values do not match"));
}

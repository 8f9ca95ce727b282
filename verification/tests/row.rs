use hello::error::AppError;
use hello::row::{EvDataUserType, VehicleRow};
use hello::vehicle::{Engine, EvData, Vehicle};

fn vehicle1() -> Vehicle {
    Vehicle {
        vin: "vin".to_string(),
        engine: Engine::Combustion,
        ev_data: None,
    }
}

fn vehicle1_row() -> VehicleRow {
    VehicleRow {
        vin: "vin".to_string(),
        engine_type: "Combustion".to_string(),
        ev_data: None,
    }
}

fn vehicle2() -> Vehicle {
    Vehicle {
        vin: "vin".to_string(),
        engine: Engine::Combustion,
        ev_data: Some(EvData {
            battery_capacity_in_kwh: 69,
            soc_in_percent: 12,
        }),
    }
}

fn vehicle2_row() -> VehicleRow {
    VehicleRow {
        vin: "vin".to_string(),
        engine_type: "Combustion".to_string(),
        ev_data: Some(EvDataUserType {
            battery_capacity_in_kwh: 69,
            soc_in_percent: 12,
        }),
    }
}

fn invalid_vehicle_row() -> VehicleRow {
    VehicleRow {
        vin: "vin".to_string(),
        engine_type: "Invalid".to_string(),
        ev_data: None,
    }
}

#[test]
fn model_to_row() {
    assert_eq!(VehicleRow::from(vehicle1()), vehicle1_row());
    assert_eq!(VehicleRow::from(&vehicle1()), vehicle1_row());

    assert_eq!(VehicleRow::from(vehicle2()), vehicle2_row());
    assert_eq!(VehicleRow::from(&vehicle2()), vehicle2_row());
}

#[test]
fn row_to_model_ok() {
    assert_eq!(Vehicle::try_from(&vehicle1_row()).unwrap(), vehicle1());
    assert_eq!(Vehicle::try_from(&vehicle2_row()).unwrap(), vehicle2());
}

#[test]
fn row_to_model_error() {
    match Vehicle::try_from(&invalid_vehicle_row()) {
        Err(AppError::ConversionError(_)) => (),
        _ => assert!(false),
    }
}

#[test]
fn row_to_model_error_names_the_conversion() {
    match Vehicle::try_from(&invalid_vehicle_row()) {
        Err(AppError::ConversionError(what)) => assert_eq!(what, "VehicleRow to Vehicle"),
        _ => panic!("an unknown engine type must not be read"),
    }
}

#[test]
fn row_round_trip_for_every_engine() {
    for engine in [Engine::Combustion, Engine::Phev, Engine::Ev] {
        let vehicle = Vehicle {
            vin: "WVWZZZ1JZ3W386752".to_string(),
            engine,
            ev_data: Some(EvData {
                battery_capacity_in_kwh: 77,
                soc_in_percent: 40,
            }),
        };
        let row = VehicleRow::from(&vehicle);
        assert_eq!(Vehicle::try_from(&row).unwrap(), vehicle);
    }
}

#[test]
fn engine_type_is_matched_exactly() {
    for text in ["combustion", "EV", "ev", " Ev", "Ev ", "", "Phev2"] {
        let row = VehicleRow {
            vin: "vin".to_string(),
            engine_type: text.to_string(),
            ev_data: None,
        };
        assert!(matches!(
            Vehicle::try_from(&row),
            Err(AppError::ConversionError(_))
        ));
    }
}

#[test]
fn ev_data_conversions() {
    let data = EvData {
        battery_capacity_in_kwh: 12,
        soc_in_percent: 76,
    };
    let stored = EvDataUserType::from(&data);
    assert_eq!(
        stored,
        EvDataUserType {
            battery_capacity_in_kwh: 12,
            soc_in_percent: 76
        }
    );
    assert_eq!(EvData::try_from(&stored).unwrap(), data);
}

#[test]
fn row_fields_in_binding_order() {
    assert_eq!(VehicleRow::FIELDS, ["vin", "engine_type", "ev_data"]);
}

#[test]
fn row_clone_is_equal() {
    assert_eq!(vehicle2_row().clone(), vehicle2_row());
    assert_eq!(vehicle2().clone(), vehicle2());
}

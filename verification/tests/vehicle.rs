use hello::text::{framed, same_text};
use hello::vehicle::{Engine, EvData, ParseError};

#[test]
fn engine_names() {
    assert_eq!(Engine::Combustion.to_string(), "Combustion");
    assert_eq!(Engine::Phev.to_string(), "Phev");
    assert_eq!(Engine::Ev.to_string(), "Ev");
    assert_eq!(Engine::Combustion.as_ref(), "Combustion");
    assert_eq!(Engine::Phev.as_ref(), "Phev");
    assert_eq!(Engine::Ev.as_ref(), "Ev");
}

#[test]
fn engine_from_str() {
    assert_eq!(Engine::from_str("Combustion"), Ok(Engine::Combustion));
    assert_eq!(Engine::from_str("Phev"), Ok(Engine::Phev));
    assert_eq!(Engine::from_str("Ev"), Ok(Engine::Ev));
}

#[test]
fn engine_from_str_unknown() {
    assert_eq!(Engine::from_str("Invalid"), Err(ParseError::VariantNotFound));
    assert_eq!(Engine::from_str(""), Err(ParseError::VariantNotFound));
    assert_eq!(Engine::from_str("ev"), Err(ParseError::VariantNotFound));
    assert_eq!(Engine::from_str("Combustio"), Err(ParseError::VariantNotFound));
}

#[test]
fn engine_name_round_trip() {
    for engine in [Engine::Combustion, Engine::Phev, Engine::Ev] {
        assert_eq!(Engine::from_str(&engine.to_string()), Ok(engine));
    }
}

#[test]
fn ev_data_default_is_zero() {
    assert_eq!(
        EvData::default(),
        EvData {
            battery_capacity_in_kwh: 0,
            soc_in_percent: 0
        }
    );
}

#[test]
fn same_text_compares_characters() {
    assert!(same_text("vin1", "vin1"));
    assert!(same_text("", ""));
    assert!(!same_text("vin1", "vin2"));
    assert!(!same_text("vin", "vin1"));
    assert!(!same_text("Vin1", "vin1"));
}

#[test]
fn framed_puts_three_texts_in_a_row() {
    assert_eq!(framed("Not found (", "Vehicle", ")"), "Not found (Vehicle)");
    assert_eq!(framed("", "", ""), "");
    assert_eq!(framed("a", "", "c"), "ac");
}

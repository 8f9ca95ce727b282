//! The vehicle and its parts.

use vstd::prelude::*;
use crate::text::same_text;

verus! {

/// How a vehicle is driven.
#[derive(Clone, Copy, PartialEq, Eq, Structural, Debug)]
pub enum Engine {
    Combustion,
    Phev,
    Ev,
}

/// Raised when a text names no engine.
#[derive(Clone, Copy, PartialEq, Eq, Structural, Debug)]
pub enum ParseError {
    VariantNotFound,
}

/// The name under which an engine is stored and sent.
pub open spec fn engine_name(engine: Engine) -> Seq<char> {
    match engine {
        Engine::Combustion => "Combustion"@,
        Engine::Phev => "Phev"@,
        Engine::Ev => "Ev"@,
    }
}

/// The engine that a text names, if it names one. Names are matched exactly.
pub open spec fn engine_named(text: Seq<char>) -> Option<Engine> {
    if text == "Combustion"@ {
        Some(Engine::Combustion)
    } else if text == "Phev"@ {
        Some(Engine::Phev)
    } else if text == "Ev"@ {
        Some(Engine::Ev)
    } else {
        None
    }
}

impl Engine {
    /// The engine's name.
    pub fn as_ref(&self) -> (name: &'static str)
        ensures
            name@ == engine_name(*self),
    {
        match self {
            Engine::Combustion => "Combustion",
            Engine::Phev => "Phev",
            Engine::Ev => "Ev",
        }
    }

    /// The engine's name, owned.
    pub fn to_string(&self) -> (name: String)
        ensures
            name@ == engine_name(*self),
    {
        self.as_ref().to_owned()
    }

    /// Reads an engine from its name.
    pub fn from_str(text: &str) -> (parsed: Result<Engine, ParseError>)
        ensures
            parsed == match engine_named(text@) {
                Some(engine) => Ok::<Engine, ParseError>(engine),
                None => Err(ParseError::VariantNotFound),
            },
    {
        if same_text(text, "Combustion") {
            Ok(Engine::Combustion)
        } else if same_text(text, "Phev") {
            Ok(Engine::Phev)
        } else if same_text(text, "Ev") {
            Ok(Engine::Ev)
        } else {
            Err(ParseError::VariantNotFound)
        }
    }
}

/// Every engine is read back from its own name.
pub proof fn engine_name_round_trip(engine: Engine)
    ensures
        engine_named(engine_name(engine)) == Some(engine),
{
    reveal_strlit("Combustion");
    reveal_strlit("Phev");
    reveal_strlit("Ev");
    assert("Combustion"@.len() == 10);
    assert("Phev"@.len() == 4);
    assert("Ev"@.len() == 2);
}

/// A text that names an engine is that engine's name.
pub proof fn engine_named_is_name(text: Seq<char>)
    ensures
        engine_named(text) matches Some(engine) ==> engine_name(engine) == text,
{
}

/// What is known of the battery of an electric or hybrid vehicle.
#[derive(Clone, Copy, PartialEq, Eq, Structural, Debug)]
pub struct EvData {
    pub battery_capacity_in_kwh: i32,
    pub soc_in_percent: i32,
}

impl Default for EvData {
    fn default() -> (data: EvData)
        ensures
            data == (EvData { battery_capacity_in_kwh: 0, soc_in_percent: 0 }),
    {
        EvData { battery_capacity_in_kwh: 0, soc_in_percent: 0 }
    }
}

/// A vehicle, known by its identification number.
#[derive(PartialEq, Eq, Debug)]
pub struct Vehicle {
    pub vin: String,
    pub engine: Engine,
    pub ev_data: Option<EvData>,
}

/// A vehicle as a mathematical value.
pub ghost struct VehicleView {
    pub vin: Seq<char>,
    pub engine: Engine,
    pub ev_data: Option<EvData>,
}

impl View for Vehicle {
    type V = VehicleView;

    open spec fn view(&self) -> VehicleView {
        VehicleView { vin: self.vin@, engine: self.engine, ev_data: self.ev_data }
    }
}

impl Clone for Vehicle {
    fn clone(&self) -> (copy: Vehicle)
        ensures
            copy@ == self@,
    {
        Vehicle { vin: self.vin.clone(), engine: self.engine, ev_data: self.ev_data }
    }
}

} // verus!

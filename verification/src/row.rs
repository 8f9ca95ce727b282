//! Vehicles as the store holds them, and the way from one form to the other.

use vstd::prelude::*;
use vstd::std_specs::convert::{FromSpecImpl, TryFromSpecImpl};
use crate::error::{AppError, AppErrorView};
use crate::vehicle::{
    engine_name, engine_name_round_trip, engine_named, Engine, EvData, Vehicle, VehicleView,
};

verus! {

/// Battery data as the store's user-defined type `ev_data`.
#[derive(Clone, Copy, PartialEq, Eq, Structural, Debug)]
pub struct EvDataUserType {
    pub battery_capacity_in_kwh: i32,
    pub soc_in_percent: i32,
}

/// One row of the table `vehicles`.
#[derive(PartialEq, Eq, Debug)]
pub struct VehicleRow {
    pub vin: String,
    pub engine_type: String,
    pub ev_data: Option<EvDataUserType>,
}

/// A row as a mathematical value.
pub ghost struct VehicleRowView {
    pub vin: Seq<char>,
    pub engine_type: Seq<char>,
    pub ev_data: Option<EvDataUserType>,
}

impl View for VehicleRow {
    type V = VehicleRowView;

    open spec fn view(&self) -> VehicleRowView {
        VehicleRowView { vin: self.vin@, engine_type: self.engine_type@, ev_data: self.ev_data }
    }
}

impl Clone for VehicleRow {
    fn clone(&self) -> (copy: VehicleRow)
        ensures
            copy@ == self@,
    {
        VehicleRow {
            vin: self.vin.clone(),
            engine_type: self.engine_type.clone(),
            ev_data: self.ev_data,
        }
    }
}

/// Battery data in its stored form.
pub open spec fn stored_ev_data(ev_data: EvData) -> EvDataUserType {
    EvDataUserType {
        battery_capacity_in_kwh: ev_data.battery_capacity_in_kwh,
        soc_in_percent: ev_data.soc_in_percent,
    }
}

/// Battery data read from its stored form.
pub open spec fn loaded_ev_data(stored: EvDataUserType) -> EvData {
    EvData {
        battery_capacity_in_kwh: stored.battery_capacity_in_kwh,
        soc_in_percent: stored.soc_in_percent,
    }
}

/// The row that stores a vehicle: the engine goes by its name.
pub open spec fn row_of(vehicle: VehicleView) -> VehicleRowView {
    VehicleRowView {
        vin: vehicle.vin,
        engine_type: engine_name(vehicle.engine),
        ev_data: match vehicle.ev_data {
            Some(ev_data) => Some(stored_ev_data(ev_data)),
            None => None,
        },
    }
}

/// The vehicle that a row stores. A row whose engine type names no engine
/// stores none, and reading it is a conversion error.
pub open spec fn vehicle_of(row: VehicleRowView) -> Result<VehicleView, AppErrorView> {
    match engine_named(row.engine_type) {
        Some(engine) => Ok(
            VehicleView {
                vin: row.vin,
                engine,
                ev_data: match row.ev_data {
                    Some(stored) => Some(loaded_ev_data(stored)),
                    None => None,
                },
            },
        ),
        None => Err(AppErrorView::ConversionError("VehicleRow to Vehicle"@)),
    }
}

/// A vehicle that is stored and read again is the same vehicle.
pub proof fn row_round_trip(vehicle: VehicleView)
    ensures
        vehicle_of(row_of(vehicle)) == Ok::<VehicleView, AppErrorView>(vehicle),
{
    engine_name_round_trip(vehicle.engine);
}

/// A row is read as a vehicle exactly if its engine type names an engine; the
/// vehicle then has the row's key, and no other failure than a conversion
/// error comes of reading a row.
pub proof fn unknown_engine_is_conversion_error(row: VehicleRowView)
    ensures
        vehicle_of(row) is Ok <==> engine_named(row.engine_type) is Some,
        vehicle_of(row) matches Ok(vehicle) ==> vehicle.vin == row.vin,
        vehicle_of(row) matches Err(error) ==> error is ConversionError,
{
}

impl<'a> From<&'a EvData> for EvDataUserType {
    /// Battery data in its stored form.
    fn from(ev_data: &'a EvData) -> (stored: EvDataUserType) {
        EvDataUserType {
            battery_capacity_in_kwh: ev_data.battery_capacity_in_kwh,
            soc_in_percent: ev_data.soc_in_percent,
        }
    }
}

impl<'a> FromSpecImpl<&'a EvData> for EvDataUserType {
    open spec fn obeys_from_spec() -> bool {
        true
    }

    open spec fn from_spec(ev_data: &'a EvData) -> EvDataUserType {
        stored_ev_data(*ev_data)
    }
}

impl<'a> TryFrom<&'a EvDataUserType> for EvData {
    type Error = AppError;

    /// Battery data read from its stored form; this never fails.
    fn try_from(stored: &'a EvDataUserType) -> (loaded: Result<EvData, AppError>) {
        Ok(
            EvData {
                battery_capacity_in_kwh: stored.battery_capacity_in_kwh,
                soc_in_percent: stored.soc_in_percent,
            },
        )
    }
}

impl<'a> TryFromSpecImpl<&'a EvDataUserType> for EvData {
    open spec fn obeys_try_from_spec() -> bool {
        true
    }

    open spec fn try_from_spec(stored: &'a EvDataUserType) -> Result<EvData, AppError> {
        Ok(loaded_ev_data(*stored))
    }
}

impl<'a> From<&'a Vehicle> for VehicleRow {
    /// The row that stores `vehicle`.
    fn from(vehicle: &'a Vehicle) -> (row: VehicleRow)
        ensures
            row@ == row_of(vehicle@),
    {
        let ev_data = match &vehicle.ev_data {
            Some(ev_data) => Some(EvDataUserType::from(ev_data)),
            None => None,
        };
        VehicleRow { vin: vehicle.vin.clone(), engine_type: vehicle.engine.to_string(), ev_data }
    }
}

/// The row holds texts of its own, so it is described by its view, in the
/// `ensures` of `from`, and not as a value here.
impl<'a> FromSpecImpl<&'a Vehicle> for VehicleRow {
    open spec fn obeys_from_spec() -> bool {
        false
    }

    open spec fn from_spec(vehicle: &'a Vehicle) -> VehicleRow {
        arbitrary()
    }
}

impl From<Vehicle> for VehicleRow {
    /// The row that stores `vehicle`.
    fn from(vehicle: Vehicle) -> (row: VehicleRow)
        ensures
            row@ == row_of(vehicle@),
    {
        VehicleRow::from(&vehicle)
    }
}

/// The row holds texts of its own, so it is described by its view, in the
/// `ensures` of `from`, and not as a value here.
impl FromSpecImpl<Vehicle> for VehicleRow {
    open spec fn obeys_from_spec() -> bool {
        false
    }

    open spec fn from_spec(vehicle: Vehicle) -> VehicleRow {
        arbitrary()
    }
}

impl<'a> TryFrom<&'a VehicleRow> for Vehicle {
    type Error = AppError;

    /// The vehicle that `row` stores, or the conversion error that its engine
    /// type names no engine.
    fn try_from(row: &'a VehicleRow) -> (read: Result<Vehicle, AppError>)
        ensures
            match read {
                Ok(vehicle) => vehicle_of(row@) == Ok::<VehicleView, AppErrorView>(vehicle@),
                Err(error) => vehicle_of(row@) == Err::<VehicleView, AppErrorView>(error@),
            },
    {
        let engine = match Engine::from_str(row.engine_type.as_str()) {
            Ok(engine) => engine,
            Err(_) => {
                return Err(AppError::ConversionError("VehicleRow to Vehicle"));
            },
        };
        let ev_data = match &row.ev_data {
            Some(stored) => match EvData::try_from(stored) {
                Ok(loaded) => Some(loaded),
                Err(error) => {
                    return Err(error);
                },
            },
            None => None,
        };
        Ok(Vehicle { vin: row.vin.clone(), engine, ev_data })
    }
}

/// The vehicle holds a text of its own, so it is described by its view, in
/// the `ensures` of `try_from`, and not as a value here.
impl<'a> TryFromSpecImpl<&'a VehicleRow> for Vehicle {
    open spec fn obeys_try_from_spec() -> bool {
        false
    }

    open spec fn try_from_spec(row: &'a VehicleRow) -> Result<Vehicle, AppError> {
        arbitrary()
    }
}

impl VehicleRow {
    /// The columns of the table, in the order in which a row binds them.
    pub const FIELDS: [&'static str; 3] = ["vin", "engine_type", "ev_data"];
}

/// What the store calls the table that holds a kind of row.
pub trait WithDbConstants {
    const TABLE_NAME: &'static str;
}

impl WithDbConstants for VehicleRow {
    const TABLE_NAME: &'static str = "vehicles";
}

} // verus!

//! The scenario state: flight phase, stage within it, and the radio setup.
use vstd::prelude::*;
use crate::aerodrome::{COMFrequency, COMFrequencyModel};

verus! {

/// The radio exchanges on the stand before taxiing, in order.
#[derive(Clone, Copy, PartialEq, Eq, Structural, Debug)]
pub enum ParkedToTakeoffStage {
    PreRadioCheck,
    PreDepartInfo,
    PreReadbackDepartInfo,
    PreTaxiRequest,
    PreTaxiClearanceReadback,
}

/// The radio exchanges while taxiing out to the runway, in order.
#[derive(Clone, Copy, PartialEq, Eq, Structural, Debug)]
pub enum TaxiingToTakeoffStage {
    PreReadyForDeparture,
    PreInfoGivenForDeparture,
    PreClearedForTakeoff,
    PreReadbackClearedForTakeoff,
}

/// The radio exchanges after landing, in order; `Shutdown` ends the scenario.
#[derive(Clone, Copy, PartialEq, Eq, Structural, Debug)]
pub enum LandingToParkedStage {
    PreRunwayVacated,
    PreTaxiToStandReadback,
    Shutdown,
}

#[derive(Clone, Copy, PartialEq, Eq, Structural, Debug)]
pub enum Emergency {
    Normal,
    Mayday,
    PanPan,
}

/// The flight phase with what belongs to it.
#[derive(Clone, PartialEq, Eq, Debug)]
pub enum Status {
    Parked { position: String, stage: ParkedToTakeoffStage },
    TaxiingToTakeoff { holdpoint: String, runway: String, stage: TaxiingToTakeoffStage },
    Airborne { altitude: u32, heading: u16, speed: u16, next_point: String },
    Landing { runway: String },
    LandingToParked { position: String, stage: LandingToParkedStage },
}

pub enum StatusModel {
    Parked { position: Seq<char>, stage: ParkedToTakeoffStage },
    TaxiingToTakeoff { holdpoint: Seq<char>, runway: Seq<char>, stage: TaxiingToTakeoffStage },
    Airborne { altitude: u32, heading: u16, speed: u16, next_point: Seq<char> },
    Landing { runway: Seq<char> },
    LandingToParked { position: Seq<char>, stage: LandingToParkedStage },
}

impl View for Status {
    type V = StatusModel;

    open spec fn view(&self) -> StatusModel {
        match self {
            Status::Parked { position, stage } => StatusModel::Parked {
                position: position@,
                stage: *stage,
            },
            Status::TaxiingToTakeoff { holdpoint, runway, stage } => StatusModel::TaxiingToTakeoff {
                holdpoint: holdpoint@,
                runway: runway@,
                stage: *stage,
            },
            Status::Airborne { altitude, heading, speed, next_point } => StatusModel::Airborne {
                altitude: *altitude,
                heading: *heading,
                speed: *speed,
                next_point: next_point@,
            },
            Status::Landing { runway } => StatusModel::Landing { runway: runway@ },
            Status::LandingToParked { position, stage } => StatusModel::LandingToParked {
                position: position@,
                stage: *stage,
            },
        }
    }
}

/// One scenario at one instant. Position is in millionths of a degree, the
/// radio frequency in kHz, the transponder code as its four digits read in
/// decimal.
#[derive(Clone, PartialEq, Eq, Debug)]
pub struct State {
    pub status: Status,
    pub lat: i32,
    pub long: i32,
    pub current_target: COMFrequency,
    pub prefix: String,
    pub callsign: String,
    pub target_allocated_callsign: String,
    pub emergency: Emergency,
    pub squark: bool,
    pub current_radio_frequency: u32,
    pub current_transponder_frequency: u16,
}

pub struct StateModel {
    pub status: StatusModel,
    pub lat: i32,
    pub long: i32,
    pub current_target: COMFrequencyModel,
    pub prefix: Seq<char>,
    pub callsign: Seq<char>,
    pub target_allocated_callsign: Seq<char>,
    pub emergency: Emergency,
    pub squark: bool,
    pub current_radio_frequency: u32,
    pub current_transponder_frequency: u16,
}

impl View for State {
    type V = StateModel;

    open spec fn view(&self) -> StateModel {
        StateModel {
            status: self.status@,
            lat: self.lat,
            long: self.long,
            current_target: self.current_target@,
            prefix: self.prefix@,
            callsign: self.callsign@,
            target_allocated_callsign: self.target_allocated_callsign@,
            emergency: self.emergency,
            squark: self.squark,
            current_radio_frequency: self.current_radio_frequency,
            current_transponder_frequency: self.current_transponder_frequency,
        }
    }
}

/// A transmission together with the scenario it belongs to.
#[derive(Clone, PartialEq, Eq, Debug)]
pub struct StateMessageSeed {
    pub state: State,
    pub message: String,
    pub seed: u32,
}

/// Position of a phase and stage in the whole flight, counted from the first
/// radio check; every accepted exchange moves it on by exactly one.
pub open spec fn progress(s: StatusModel) -> nat {
    match s {
        StatusModel::Parked { stage, .. } => match stage {
            ParkedToTakeoffStage::PreRadioCheck => 0,
            ParkedToTakeoffStage::PreDepartInfo => 1,
            ParkedToTakeoffStage::PreReadbackDepartInfo => 2,
            ParkedToTakeoffStage::PreTaxiRequest => 3,
            ParkedToTakeoffStage::PreTaxiClearanceReadback => 4,
        },
        StatusModel::TaxiingToTakeoff { stage, .. } => match stage {
            TaxiingToTakeoffStage::PreReadyForDeparture => 5,
            TaxiingToTakeoffStage::PreInfoGivenForDeparture => 6,
            TaxiingToTakeoffStage::PreClearedForTakeoff => 7,
            TaxiingToTakeoffStage::PreReadbackClearedForTakeoff => 8,
        },
        StatusModel::Airborne { .. } => 9,
        StatusModel::Landing { .. } => 10,
        StatusModel::LandingToParked { stage, .. } => match stage {
            LandingToParkedStage::PreRunwayVacated => 11,
            LandingToParkedStage::PreTaxiToStandReadback => 12,
            LandingToParkedStage::Shutdown => 13,
        },
    }
}

/// The phase as a number, in flight order.
pub open spec fn phase_index(s: StatusModel) -> nat {
    match s {
        StatusModel::Parked { .. } => 0,
        StatusModel::TaxiingToTakeoff { .. } => 1,
        StatusModel::Airborne { .. } => 2,
        StatusModel::Landing { .. } => 3,
        StatusModel::LandingToParked { .. } => 4,
    }
}

/// Whether the stage is the first of its phase.
pub open spec fn is_initial_stage(s: StatusModel) -> bool {
    match s {
        StatusModel::Parked { stage, .. } => stage == ParkedToTakeoffStage::PreRadioCheck,
        StatusModel::TaxiingToTakeoff { stage, .. } => stage
            == TaxiingToTakeoffStage::PreReadyForDeparture,
        StatusModel::Airborne { .. } => true,
        StatusModel::Landing { .. } => true,
        StatusModel::LandingToParked { stage, .. } => stage
            == LandingToParkedStage::PreRunwayVacated,
    }
}

/// Whether the scenario has ended.
pub open spec fn is_terminal(s: StatusModel) -> bool {
    s matches StatusModel::LandingToParked { stage: LandingToParkedStage::Shutdown, .. }
}

/// Whether the scenario has ended.
pub fn scenario_finished(s: &Status) -> (r: bool)
    ensures
        r == is_terminal(s@),
{
    match s {
        Status::LandingToParked { stage: LandingToParkedStage::Shutdown, .. } => true,
        _ => false,
    }
}

} // verus!

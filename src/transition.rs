//! The state transition engine: where an accepted transmission takes the scenario.
use vstd::prelude::*;
use crate::aerodrome::{
    destination_aerodrome, destination_index, get_destination_aerodrome, get_start_aerodrome,
    lemma_table_stations, start_aerodrome, start_index,
};
use crate::parser::ParsedIntent;
use crate::state::{
    is_initial_stage, is_terminal, phase_index, progress, LandingToParkedStage,
    ParkedToTakeoffStage, State, StateModel, Status, StatusModel, TaxiingToTakeoffStage,
};

verus! {

/// Altitude in feet that the aircraft climbs to after takeoff.
pub const CLIMB_ALTITUDE: u32 = 2000;

/// Speed in knots after takeoff.
pub const CLIMB_SPEED: u16 = 90;

/// The state after the exchange that the current stage waits for: the next
/// stage of the phase, or the first stage of the next phase with what that
/// phase needs from the world of `seed`. A finished scenario stays as it is.
pub open spec fn next_stage(s: StateModel, seed: u32) -> StateModel {
    let start = start_aerodrome(seed);
    let dest = destination_aerodrome(seed);
    match s.status {
        StatusModel::Parked { position, stage } => match stage {
            ParkedToTakeoffStage::PreRadioCheck => StateModel {
                status: StatusModel::Parked { position, stage: ParkedToTakeoffStage::PreDepartInfo },
                ..s
            },
            ParkedToTakeoffStage::PreDepartInfo => StateModel {
                status: StatusModel::Parked {
                    position,
                    stage: ParkedToTakeoffStage::PreReadbackDepartInfo,
                },
                ..s
            },
            ParkedToTakeoffStage::PreReadbackDepartInfo => StateModel {
                status: StatusModel::Parked { position, stage: ParkedToTakeoffStage::PreTaxiRequest },
                ..s
            },
            ParkedToTakeoffStage::PreTaxiRequest => StateModel {
                status: StatusModel::Parked {
                    position,
                    stage: ParkedToTakeoffStage::PreTaxiClearanceReadback,
                },
                ..s
            },
            ParkedToTakeoffStage::PreTaxiClearanceReadback => StateModel {
                status: StatusModel::TaxiingToTakeoff {
                    holdpoint: start.holdpoint,
                    runway: start.runway,
                    stage: TaxiingToTakeoffStage::PreReadyForDeparture,
                },
                current_target: start.com_frequencies[1],
                ..s
            },
        },
        StatusModel::TaxiingToTakeoff { holdpoint, runway, stage } => match stage {
            TaxiingToTakeoffStage::PreReadyForDeparture => StateModel {
                status: StatusModel::TaxiingToTakeoff {
                    holdpoint,
                    runway,
                    stage: TaxiingToTakeoffStage::PreInfoGivenForDeparture,
                },
                ..s
            },
            TaxiingToTakeoffStage::PreInfoGivenForDeparture => StateModel {
                status: StatusModel::TaxiingToTakeoff {
                    holdpoint,
                    runway,
                    stage: TaxiingToTakeoffStage::PreClearedForTakeoff,
                },
                ..s
            },
            TaxiingToTakeoffStage::PreClearedForTakeoff => StateModel {
                status: StatusModel::TaxiingToTakeoff {
                    holdpoint,
                    runway,
                    stage: TaxiingToTakeoffStage::PreReadbackClearedForTakeoff,
                },
                ..s
            },
            TaxiingToTakeoffStage::PreReadbackClearedForTakeoff => StateModel {
                status: StatusModel::Airborne {
                    altitude: CLIMB_ALTITUDE,
                    heading: start.runway_heading,
                    speed: CLIMB_SPEED,
                    next_point: dest.name,
                },
                current_target: dest.com_frequencies[2],
                ..s
            },
        },
        StatusModel::Airborne { .. } => StateModel {
            status: StatusModel::Landing { runway: dest.runway },
            lat: dest.lat,
            long: dest.long,
            current_target: dest.com_frequencies[1],
            ..s
        },
        StatusModel::Landing { runway } => StateModel {
            status: StatusModel::LandingToParked {
                position: runway,
                stage: LandingToParkedStage::PreRunwayVacated,
            },
            ..s
        },
        StatusModel::LandingToParked { stage, .. } => match stage {
            LandingToParkedStage::PreRunwayVacated => StateModel {
                status: StatusModel::LandingToParked {
                    position: dest.holdpoint,
                    stage: LandingToParkedStage::PreTaxiToStandReadback,
                },
                current_target: dest.com_frequencies[0],
                ..s
            },
            LandingToParkedStage::PreTaxiToStandReadback => StateModel {
                status: StatusModel::LandingToParked {
                    position: dest.stand,
                    stage: LandingToParkedStage::Shutdown,
                },
                ..s
            },
            LandingToParkedStage::Shutdown => s,
        },
    }
}

/// The state after an accepted intent: the stage's own exchange moves the
/// scenario on; emergency, squawk and frequency calls change only their field.
pub open spec fn apply_intent(s: StateModel, intent: ParsedIntent, seed: u32) -> StateModel {
    match intent {
        ParsedIntent::Advance => next_stage(s, seed),
        ParsedIntent::Declare(e) => StateModel { emergency: e, ..s },
        ParsedIntent::Squawk(c) => StateModel { squark: true, current_transponder_frequency: c, ..s },
        ParsedIntent::Tune(k) => StateModel { current_radio_frequency: k, ..s },
    }
}

/// Moves the scenario on to the stage after the current one.
pub fn next_stage_state(state: State, seed: u32) -> (r: State)
    ensures
        r@ == next_stage(state@, seed),
{
    proof {
        lemma_table_stations(start_index(seed));
        lemma_table_stations(destination_index(seed));
    }
    let State {
        status,
        lat,
        long,
        current_target,
        prefix,
        callsign,
        target_allocated_callsign,
        emergency,
        squark,
        current_radio_frequency,
        current_transponder_frequency,
    } = state;
    let (status, lat, long, current_target) = match status {
        Status::Parked { position, stage } => match stage {
            ParkedToTakeoffStage::PreRadioCheck => (
                Status::Parked { position, stage: ParkedToTakeoffStage::PreDepartInfo },
                lat,
                long,
                current_target,
            ),
            ParkedToTakeoffStage::PreDepartInfo => (
                Status::Parked { position, stage: ParkedToTakeoffStage::PreReadbackDepartInfo },
                lat,
                long,
                current_target,
            ),
            ParkedToTakeoffStage::PreReadbackDepartInfo => (
                Status::Parked { position, stage: ParkedToTakeoffStage::PreTaxiRequest },
                lat,
                long,
                current_target,
            ),
            ParkedToTakeoffStage::PreTaxiRequest => (
                Status::Parked { position, stage: ParkedToTakeoffStage::PreTaxiClearanceReadback },
                lat,
                long,
                current_target,
            ),
            ParkedToTakeoffStage::PreTaxiClearanceReadback => {
                let start = get_start_aerodrome(seed);
                let tower = start.com_frequencies[1].duplicate();
                (
                    Status::TaxiingToTakeoff {
                        holdpoint: start.holdpoint,
                        runway: start.runway,
                        stage: TaxiingToTakeoffStage::PreReadyForDeparture,
                    },
                    lat,
                    long,
                    tower,
                )
            },
        },
        Status::TaxiingToTakeoff { holdpoint, runway, stage } => match stage {
            TaxiingToTakeoffStage::PreReadyForDeparture => (
                Status::TaxiingToTakeoff {
                    holdpoint,
                    runway,
                    stage: TaxiingToTakeoffStage::PreInfoGivenForDeparture,
                },
                lat,
                long,
                current_target,
            ),
            TaxiingToTakeoffStage::PreInfoGivenForDeparture => (
                Status::TaxiingToTakeoff {
                    holdpoint,
                    runway,
                    stage: TaxiingToTakeoffStage::PreClearedForTakeoff,
                },
                lat,
                long,
                current_target,
            ),
            TaxiingToTakeoffStage::PreClearedForTakeoff => (
                Status::TaxiingToTakeoff {
                    holdpoint,
                    runway,
                    stage: TaxiingToTakeoffStage::PreReadbackClearedForTakeoff,
                },
                lat,
                long,
                current_target,
            ),
            TaxiingToTakeoffStage::PreReadbackClearedForTakeoff => {
                let start = get_start_aerodrome(seed);
                let dest = get_destination_aerodrome(seed);
                let approach = dest.com_frequencies[2].duplicate();
                (
                    Status::Airborne {
                        altitude: CLIMB_ALTITUDE,
                        heading: start.runway_heading,
                        speed: CLIMB_SPEED,
                        next_point: dest.name,
                    },
                    lat,
                    long,
                    approach,
                )
            },
        },
        Status::Airborne { .. } => {
            let dest = get_destination_aerodrome(seed);
            let tower = dest.com_frequencies[1].duplicate();
            (Status::Landing { runway: dest.runway }, dest.lat, dest.long, tower)
        },
        Status::Landing { runway } => (
            Status::LandingToParked {
                position: runway,
                stage: LandingToParkedStage::PreRunwayVacated,
            },
            lat,
            long,
            current_target,
        ),
        Status::LandingToParked { position, stage } => match stage {
            LandingToParkedStage::PreRunwayVacated => {
                let dest = get_destination_aerodrome(seed);
                let ground = dest.com_frequencies[0].duplicate();
                (
                    Status::LandingToParked {
                        position: dest.holdpoint,
                        stage: LandingToParkedStage::PreTaxiToStandReadback,
                    },
                    lat,
                    long,
                    ground,
                )
            },
            LandingToParkedStage::PreTaxiToStandReadback => {
                let dest = get_destination_aerodrome(seed);
                (
                    Status::LandingToParked {
                        position: dest.stand,
                        stage: LandingToParkedStage::Shutdown,
                    },
                    lat,
                    long,
                    current_target,
                )
            },
            LandingToParkedStage::Shutdown => (
                Status::LandingToParked { position, stage: LandingToParkedStage::Shutdown },
                lat,
                long,
                current_target,
            ),
        },
    };
    State {
        status,
        lat,
        long,
        current_target,
        prefix,
        callsign,
        target_allocated_callsign,
        emergency,
        squark,
        current_radio_frequency,
        current_transponder_frequency,
    }
}

/// Applies an accepted intent to the state; the state is consumed and a new
/// one returned.
pub fn advance(state: State, intent: ParsedIntent, seed: u32) -> (r: State)
    ensures
        r@ == apply_intent(state@, intent, seed),
{
    match intent {
        ParsedIntent::Advance => next_stage_state(state, seed),
        ParsedIntent::Declare(e) => {
            let mut next = state;
            next.emergency = e;
            next
        },
        ParsedIntent::Squawk(c) => {
            let mut next = state;
            next.squark = true;
            next.current_transponder_frequency = c;
            next
        },
        ParsedIntent::Tune(k) => {
            let mut next = state;
            next.current_radio_frequency = k;
            next
        },
    }
}

/// Every accepted exchange moves the scenario on by exactly one stage: to the
/// next stage of the same phase, or to the first stage of the next phase. It
/// never goes back and never skips a stage.
pub proof fn lemma_stage_monotonic(s: StateModel, seed: u32)
    requires
        !is_terminal(s.status),
    ensures
        progress(next_stage(s, seed).status) == progress(s.status) + 1,
        phase_index(next_stage(s, seed).status) == phase_index(s.status) || (phase_index(
            next_stage(s, seed).status,
        ) == phase_index(s.status) + 1 && is_initial_stage(next_stage(s, seed).status)),
{
}

/// Emergency, squawk and frequency calls leave the phase and stage as they were.
pub proof fn lemma_side_calls_keep_stage(s: StateModel, intent: ParsedIntent, seed: u32)
    requires
        !(intent is Advance),
    ensures
        apply_intent(s, intent, seed).status == s.status,
        apply_intent(s, intent, seed).current_target == s.current_target,
{
}

} // verus!

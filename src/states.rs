//! The scenario session: starting a scenario from its parameters and taking
//! one turn of the radio exchange.
use vstd::prelude::*;
use crate::aerodrome::{get_start_aerodrome, lemma_table_stations, start_aerodrome, start_index};
use crate::parser::{expected_phrase, interpret, parse, stage_phrase, ParseError};
use crate::state::{Emergency, ParkedToTakeoffStage, State, StateModel, Status, StatusModel};
use crate::text::{fields_of, message_fields};
use crate::transition::{advance, apply_intent};

verus! {

/// What a scenario is started from. `radio_frequency` is in kHz.
#[derive(Clone, PartialEq, Eq, Debug)]
pub struct ScenarioGenerationParameters {
    pub seed: u32,
    pub prefix: String,
    pub user_callsign: String,
    pub aircraft_type: String,
    pub radio_frequency: u32,
    pub transponder_frequency: u16,
}

/// A scenario between two turns: the seed its world comes from and where it stands.
#[derive(Clone, PartialEq, Eq, Debug)]
pub struct ScenarioStatusData {
    pub seed: u32,
    pub current_state: State,
}

/// The outcome of one turn: the next state, and why the transmission was
/// refused where it was.
#[derive(Clone, PartialEq, Eq, Debug)]
pub struct Turn {
    pub state: State,
    pub error: Option<ParseError>,
}

/// The transponder code set before any is assigned.
pub const CONSPICUITY_SQUAWK: u16 = 7000;

/// The state a scenario starts in: on the first stand of the start aerodrome,
/// before the radio check, calling its first station.
pub open spec fn initial_state(seed: u32, prefix: Seq<char>, callsign: Seq<char>, radio: u32) -> StateModel {
    let start = start_aerodrome(seed);
    StateModel {
        status: StatusModel::Parked {
            position: "A1"@,
            stage: ParkedToTakeoffStage::PreRadioCheck,
        },
        lat: start.lat,
        long: start.long,
        current_target: start.com_frequencies[0],
        prefix,
        callsign,
        target_allocated_callsign: callsign,
        emergency: Emergency::Normal,
        squark: false,
        current_radio_frequency: radio,
        current_transponder_frequency: CONSPICUITY_SQUAWK,
    }
}

/// One turn: the transmission is read against the stage of `s`; if it is
/// accepted the state moves on, otherwise it stays and the reason is given.
pub open spec fn next_turn(s: StateModel, seed: u32, message: Seq<char>) -> (StateModel, Option<
    ParseError,
>) {
    match interpret(message_fields(message), s, expected_phrase(s.status, seed)) {
        Ok(intent) => (apply_intent(s, intent, seed), None),
        Err(e) => (s, Some(e)),
    }
}

/// Starts a scenario.
pub fn generate_initial_state(parameters: ScenarioGenerationParameters) -> (r: State)
    ensures
        r@ == initial_state(
            parameters.seed,
            parameters.prefix@,
            parameters.user_callsign@,
            parameters.radio_frequency,
        ),
{
    let start_aerodrome = get_start_aerodrome(parameters.seed);
    proof {
        lemma_table_stations(start_index(parameters.seed));
    }
    let current_target = start_aerodrome.com_frequencies[0].duplicate();
    let allocated = parameters.user_callsign.clone();
    State {
        status: Status::Parked {
            position: "A1".to_owned(),
            stage: ParkedToTakeoffStage::PreRadioCheck,
        },
        lat: start_aerodrome.lat,
        long: start_aerodrome.long,
        current_target,
        prefix: parameters.prefix,
        callsign: parameters.user_callsign,
        target_allocated_callsign: allocated,
        emergency: Emergency::Normal,
        squark: false,
        current_radio_frequency: parameters.radio_frequency,
        current_transponder_frequency: CONSPICUITY_SQUAWK,
    }
}

/// Takes one turn of the scenario with the pilot's transmission. A refused
/// transmission returns the state unchanged, with the reason.
pub fn generate_next_state(current_state_data: ScenarioStatusData, message: &str) -> (r: Turn)
    ensures
        (r.state@, r.error) == next_turn(
            current_state_data.current_state@,
            current_state_data.seed,
            message@,
        ),
        r.error is Some ==> r.state == current_state_data.current_state,
{
    let ScenarioStatusData { seed, current_state } = current_state_data;
    let fields = fields_of(message);
    let expected = stage_phrase(&current_state, seed);
    match parse(&fields, &current_state, &expected) {
        Ok(intent) => Turn { state: advance(current_state, intent, seed), error: None },
        Err(e) => Turn { state: current_state, error: Some(e) },
    }
}

/// A refused transmission changes nothing: the state after it is the state before.
pub proof fn lemma_refusal_keeps_state(s: StateModel, seed: u32, message: Seq<char>)
    requires
        interpret(message_fields(message), s, expected_phrase(s.status, seed)) is Err,
    ensures
        next_turn(s, seed, message).0 == s,
        next_turn(s, seed, message).1 is Some,
{
}

/// A transmission addressed to any station but the current one is refused as
/// addressed to the wrong station, in every phase.
pub proof fn lemma_wrong_station_refused(s: StateModel, seed: u32, message: Seq<char>)
    requires
        message_fields(message)[0] != s.current_target.callsign,
    ensures
        next_turn(s, seed, message) == (s, Some(ParseError::WrongStation)),
{
}

/// A turn depends on the seed, the state's contents and the transmission
/// alone: a scenario rebuilt from a faithful copy of its data takes the same
/// turn as the scenario it was copied from.
pub proof fn lemma_restart_takes_same_turn(
    a: ScenarioStatusData,
    b: ScenarioStatusData,
    message: Seq<char>,
)
    requires
        a.seed == b.seed,
        a.current_state@ == b.current_state@,
    ensures
        next_turn(a.current_state@, a.seed, message) == next_turn(
            b.current_state@,
            b.seed,
            message,
        ),
{
}

} // verus!

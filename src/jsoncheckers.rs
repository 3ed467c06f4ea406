//! Checks on the requests that start a scenario or take a turn; each
//! returns `true` where the request must be refused.
use vstd::prelude::*;
use crate::state::{State, StateMessageSeed};
use crate::states::ScenarioGenerationParameters;
use crate::text::{chars_of, same_chars};

verus! {

/// The callsign prefixes that a scenario can be started with.
pub open spec fn is_recognized_prefix(p: Seq<char>) -> bool {
    p == "none"@ || p == "student"@ || p == "helicopter"@ || p == "police"@ || p == "super"@
}

/// Whether `p` is one of the recognized callsign prefixes.
pub fn recognized_prefix(p: &str) -> (r: bool)
    ensures
        r == is_recognized_prefix(p@),
{
    let p = chars_of(p);
    same_chars(&p, &chars_of("none")) || same_chars(
        &p,
        &chars_of("student"),
    ) || same_chars(&p, &chars_of("helicopter")) || same_chars(
        &p,
        &chars_of("police"),
    ) || same_chars(&p, &chars_of("super"))
}

/// Whether the parameters lack a recognized prefix, a callsign or an aircraft type.
pub fn empty_scenario_generation_parameters_json(
    scenario_generation_parameters: &ScenarioGenerationParameters,
) -> (r: bool)
    ensures
        r == (!is_recognized_prefix(scenario_generation_parameters.prefix@)
            || scenario_generation_parameters.user_callsign@.len() == 0
            || scenario_generation_parameters.aircraft_type@.len() == 0),
{
    !recognized_prefix(scenario_generation_parameters.prefix.as_str())
        || scenario_generation_parameters.user_callsign.as_str().is_empty()
        || scenario_generation_parameters.aircraft_type.as_str().is_empty()
}

/// Whether the parameters must be refused.
pub fn invalid_scenario_generation_parameters_json(
    scenario_generation_parameters: &ScenarioGenerationParameters,
) -> (r: bool)
    ensures
        r == (!is_recognized_prefix(scenario_generation_parameters.prefix@)
            || scenario_generation_parameters.user_callsign@.len() == 0
            || scenario_generation_parameters.aircraft_type@.len() == 0),
{
    empty_scenario_generation_parameters_json(scenario_generation_parameters)
}

/// Whether the state lacks a callsign or a prefix.
pub fn empty_state_data_json(state: &State) -> (r: bool)
    ensures
        r == (state.callsign@.len() == 0 || state.prefix@.len() == 0),
{
    state.callsign.as_str().is_empty() || state.prefix.as_str().is_empty()
}

/// Whether the state must be refused.
pub fn invalid_state_data_json(state: &State) -> (r: bool)
    ensures
        r == (state.callsign@.len() == 0 || state.prefix@.len() == 0),
{
    empty_state_data_json(state)
}

/// Whether the turn lacks a transmission or the state a callsign.
pub fn empty_state_message_seed_data_json(state_message: &StateMessageSeed) -> (r: bool)
    ensures
        r == (state_message.message@.len() == 0 || state_message.state.callsign@.len() == 0),
{
    state_message.message.as_str().is_empty() || state_message.state.callsign.as_str().is_empty()
}

/// Whether the turn must be refused.
pub fn invalid_state_message_seed_data_json(state_message: &StateMessageSeed) -> (r: bool)
    ensures
        r == (state_message.message@.len() == 0 || state_message.state.callsign@.len() == 0),
{
    empty_state_message_seed_data_json(state_message)
}

} // verus!

use rt_webserver::parser::ParseError;
use rt_webserver::jsoncheckers::{
    empty_scenario_generation_parameters_json, empty_state_data_json,
    empty_state_message_seed_data_json, invalid_scenario_generation_parameters_json,
    invalid_state_data_json, invalid_state_message_seed_data_json, recognized_prefix,
};
use rt_webserver::state::StateMessageSeed;
use rt_webserver::states::{generate_initial_state, ScenarioGenerationParameters};

fn parameters(prefix: &str, callsign: &str, aircraft: &str) -> ScenarioGenerationParameters {
    ScenarioGenerationParameters {
        seed: 1,
        prefix: prefix.to_string(),
        user_callsign: callsign.to_string(),
        aircraft_type: aircraft.to_string(),
        radio_frequency: 121930,
        transponder_frequency: 7000,
    }
}

#[test]
fn generation_parameters_are_checked() {
    assert!(!invalid_scenario_generation_parameters_json(&parameters("student", "G-ABCD", "C172")));
    assert!(!empty_scenario_generation_parameters_json(&parameters("none", "G-ABCD", "C172")));
    assert!(invalid_scenario_generation_parameters_json(&parameters("", "G-ABCD", "C172")));
    assert!(invalid_scenario_generation_parameters_json(&parameters("pilot", "G-ABCD", "C172")));
    assert!(invalid_scenario_generation_parameters_json(&parameters("police", "", "C172")));
    assert!(empty_scenario_generation_parameters_json(&parameters("super", "G-ABCD", "")));
    for p in ["none", "student", "helicopter", "police", "super"] {
        assert!(recognized_prefix(p));
    }
    assert!(!recognized_prefix("Student"));
}

#[test]
fn state_and_turn_requests_are_checked() {
    let s = generate_initial_state(parameters("none", "G-ABCD", "C172"));
    assert!(!invalid_state_data_json(&s));
    let mut no_prefix = s.clone();
    no_prefix.prefix = String::new();
    assert!(empty_state_data_json(&no_prefix));
    let turn = StateMessageSeed { state: s.clone(), message: "radio check".to_string(), seed: 1 };
    assert!(!invalid_state_message_seed_data_json(&turn));
    let silent = StateMessageSeed { state: s.clone(), message: String::new(), seed: 1 };
    assert!(empty_state_message_seed_data_json(&silent));
    let mut anonymous = s;
    anonymous.callsign = String::new();
    assert!(invalid_state_data_json(&anonymous));
    let nobody = StateMessageSeed { state: anonymous, message: "radio check".to_string(), seed: 1 };
    assert!(invalid_state_message_seed_data_json(&nobody));
}

#[test]
fn every_error_has_a_description() {
    for e in [
        ParseError::WrongStation,
        ParseError::WrongCallsign,
        ParseError::MissingPhrase,
        ParseError::MalformedFrequency,
        ParseError::MalformedSquawk,
        ParseError::UnexpectedStage,
    ] {
        assert!(!e.describe().is_empty());
    }
    assert_eq!(ParseError::WrongStation.describe(), "addressed station does not match");
    assert_eq!(ParseError::MalformedSquawk.describe(), "squawk code not valid");
}

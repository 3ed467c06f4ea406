use rt_webserver::aerodrome::{get_destination_aerodrome, get_start_aerodrome, FrequencyType};
use rt_webserver::parser::ParseError;
use rt_webserver::state::{
    Emergency, LandingToParkedStage, ParkedToTakeoffStage, State, Status, TaxiingToTakeoffStage,
};
use rt_webserver::states::{
    generate_initial_state, generate_next_state, ScenarioGenerationParameters, ScenarioStatusData,
    Turn,
};

fn parameters(seed: u32) -> ScenarioGenerationParameters {
    ScenarioGenerationParameters {
        seed,
        prefix: "none".to_string(),
        user_callsign: "G-ABCD".to_string(),
        aircraft_type: "C172".to_string(),
        radio_frequency: 121705,
        transponder_frequency: 7000,
    }
}

fn turn(seed: u32, state: &State, message: &str) -> Turn {
    generate_next_state(
        ScenarioStatusData { seed, current_state: state.clone() },
        message,
    )
}

fn accepted(seed: u32, state: &State, message: &str) -> State {
    let t = turn(seed, state, message);
    assert_eq!(t.error, None, "refused: {}", message);
    t.state
}

#[test]
fn seed_42_starts_parked_at_a1() {
    let s = generate_initial_state(parameters(42));
    assert_eq!(
        s.status,
        Status::Parked { position: "A1".to_string(), stage: ParkedToTakeoffStage::PreRadioCheck }
    );
    let start = get_start_aerodrome(42);
    assert_eq!(start.name, "Cardiff");
    assert_eq!(s.current_target, start.com_frequencies[0]);
    assert_eq!(s.current_target.callsign, "Cardiff Ground");
    assert_eq!(s.current_target.frequency, 121705);
    assert_eq!(s.current_target.frequency_type, FrequencyType::Ground);
    assert_eq!((s.lat, s.long), (51396700, -3343300));
    assert_eq!(s.callsign, "G-ABCD");
    assert_eq!(s.target_allocated_callsign, "G-ABCD");
    assert_eq!(s.prefix, "none");
    assert_eq!(s.emergency, Emergency::Normal);
    assert!(!s.squark);
    assert_eq!(s.current_radio_frequency, 121705);
    assert_eq!(s.current_transponder_frequency, 7000);
}

#[test]
fn radio_check_advances_to_depart_info() {
    let s = generate_initial_state(parameters(42));
    let t = turn(42, &s, "Cardiff Ground, G-ABCD, radio check");
    assert_eq!(t.error, None);
    assert_eq!(
        t.state.status,
        Status::Parked { position: "A1".to_string(), stage: ParkedToTakeoffStage::PreDepartInfo }
    );
    assert_eq!(t.state.current_target, s.current_target);
}

#[test]
fn radio_check_to_wrong_station_is_refused() {
    let s = generate_initial_state(parameters(42));
    let t = turn(42, &s, "Bristol Ground, G-ABCD, radio check");
    assert_eq!(t.error, Some(ParseError::WrongStation));
    assert_eq!(t.state, s);
}

#[test]
fn full_flight_reaches_shutdown() {
    let seed = 42;
    let mut s = generate_initial_state(parameters(seed));
    for m in [
        "Cardiff Ground, G-ABCD, radio check",
        "Cardiff Ground, G-ABCD, request departure information",
        "Cardiff Ground, G-ABCD, runway 30",
        "Cardiff Ground, G-ABCD, request taxi",
        "Cardiff Ground, G-ABCD, taxi to holding point C",
    ] {
        s = accepted(seed, &s, m);
    }
    assert_eq!(
        s.status,
        Status::TaxiingToTakeoff {
            holdpoint: "C".to_string(),
            runway: "30".to_string(),
            stage: TaxiingToTakeoffStage::PreReadyForDeparture,
        }
    );
    assert_eq!(s.current_target.callsign, "Cardiff Tower");
    for m in [
        "Cardiff Tower, G-ABCD, ready for departure",
        "Cardiff Tower, G-ABCD, roger",
        "Cardiff Tower, G-ABCD, request takeoff",
        "Cardiff Tower, G-ABCD, cleared for takeoff runway 30",
    ] {
        s = accepted(seed, &s, m);
    }
    assert_eq!(
        s.status,
        Status::Airborne {
            altitude: 2000,
            heading: 300,
            speed: 90,
            next_point: "Exeter".to_string(),
        }
    );
    assert_eq!(s.current_target.callsign, "Exeter Radar");
    assert_eq!(s.current_target.frequency, 128975);
    s = accepted(seed, &s, "Exeter Radar, G-ABCD, request join");
    assert_eq!(s.status, Status::Landing { runway: "26".to_string() });
    assert_eq!((s.lat, s.long), (50734400, -3413900));
    assert_eq!(s.current_target.callsign, "Exeter Tower");
    s = accepted(seed, &s, "Exeter Tower, G-ABCD, final runway 26");
    assert_eq!(
        s.status,
        Status::LandingToParked {
            position: "26".to_string(),
            stage: LandingToParkedStage::PreRunwayVacated,
        }
    );
    s = accepted(seed, &s, "Exeter Tower, G-ABCD, runway vacated");
    assert_eq!(s.current_target.callsign, "Exeter Ground");
    s = accepted(seed, &s, "Exeter Ground, G-ABCD, taxi to stand 4");
    assert_eq!(
        s.status,
        Status::LandingToParked { position: "4".to_string(), stage: LandingToParkedStage::Shutdown }
    );
    let t = turn(seed, &s, "Exeter Ground, G-ABCD, radio check");
    assert_eq!(t.error, Some(ParseError::UnexpectedStage));
    assert_eq!(t.state, s);
    let t = turn(seed, &s, "Exeter Ground, G-ABCD, taxi to stand 4");
    assert_eq!(t.error, Some(ParseError::UnexpectedStage));
}

#[test]
fn destination_is_the_same_on_every_derivation() {
    for seed in [0u32, 1, 7, 42, 1000, u32::MAX] {
        let a = get_destination_aerodrome(seed);
        let b = get_destination_aerodrome(seed);
        assert_eq!(a, b);
        assert_eq!(get_start_aerodrome(seed), get_start_aerodrome(seed));
        assert_ne!(a.name, get_start_aerodrome(seed).name);
    }
    assert_eq!(get_destination_aerodrome(42).name, "Exeter");
    assert_eq!(get_start_aerodrome(1).name, "Bristol");
    assert_eq!(get_start_aerodrome(3).name, "Gloucester");
    assert_eq!(get_destination_aerodrome(3).name, "Exeter");
    assert_eq!(get_destination_aerodrome(4).name, "Cardiff");
}

#[test]
fn accepted_turn_moves_exactly_one_stage() {
    let s = generate_initial_state(parameters(42));
    let s1 = accepted(42, &s, "Cardiff Ground, G-ABCD, radio check");
    let s2 = accepted(42, &s1, "Cardiff Ground, G-ABCD, request departure information");
    assert_eq!(
        s2.status,
        Status::Parked {
            position: "A1".to_string(),
            stage: ParkedToTakeoffStage::PreReadbackDepartInfo,
        }
    );
    // the phrase of a later stage is not accepted early
    let t = turn(42, &s1, "Cardiff Ground, G-ABCD, request taxi");
    assert_eq!(t.error, Some(ParseError::UnexpectedStage));
    assert_eq!(t.state, s1);
}

#[test]
fn malformed_messages_leave_state_unchanged() {
    let s = generate_initial_state(parameters(42));
    let cases = [
        ("", ParseError::WrongStation),
        ("Cardiff Ground", ParseError::WrongCallsign),
        ("Cardiff Ground, G-XYZW, radio check", ParseError::WrongCallsign),
        ("Cardiff Ground, G-ABCD", ParseError::MissingPhrase),
        ("Cardiff Ground, G-ABCD, hello", ParseError::MissingPhrase),
        ("Cardiff Ground, G-ABCD, squawk 7800", ParseError::MalformedSquawk),
        ("Cardiff Ground, G-ABCD, squawk 70", ParseError::MalformedSquawk),
        ("Cardiff Ground, G-ABCD, frequency 99.000", ParseError::MalformedFrequency),
        ("Cardiff Ground, G-ABCD, frequency 140.000", ParseError::MalformedFrequency),
        ("Cardiff Ground, G-ABCD, request takeoff", ParseError::UnexpectedStage),
    ];
    for (m, e) in cases {
        let t = turn(42, &s, m);
        assert_eq!(t.error, Some(e), "message {:?}", m);
        assert_eq!(t.state, s);
    }
}

#[test]
fn wrong_station_is_refused_in_every_phase() {
    let seed = 42;
    let mut s = generate_initial_state(parameters(seed));
    let script = [
        "Cardiff Ground, G-ABCD, radio check",
        "Cardiff Ground, G-ABCD, request departure information",
        "Cardiff Ground, G-ABCD, runway 30",
        "Cardiff Ground, G-ABCD, request taxi",
        "Cardiff Ground, G-ABCD, taxi to holding point C",
        "Cardiff Tower, G-ABCD, ready for departure",
        "Cardiff Tower, G-ABCD, roger",
        "Cardiff Tower, G-ABCD, request takeoff",
        "Cardiff Tower, G-ABCD, cleared for takeoff runway 30",
        "Exeter Radar, G-ABCD, request join",
        "Exeter Tower, G-ABCD, final runway 26",
        "Exeter Tower, G-ABCD, runway vacated",
        "Exeter Ground, G-ABCD, taxi to stand 4",
    ];
    for m in script {
        let t = turn(seed, &s, "London Information, G-ABCD, radio check");
        assert_eq!(t.error, Some(ParseError::WrongStation));
        assert_eq!(t.state, s);
        s = accepted(seed, &s, m);
    }
    let t = turn(seed, &s, "London Information, G-ABCD, radio check");
    assert_eq!(t.error, Some(ParseError::WrongStation));
}

#[test]
fn restart_from_copy_takes_same_turn() {
    let s = generate_initial_state(parameters(42));
    let data = ScenarioStatusData { seed: 42, current_state: s.clone() };
    let copy = ScenarioStatusData { seed: data.seed, current_state: data.current_state.clone() };
    let a = generate_next_state(data, "Cardiff Ground, G-ABCD, radio check");
    let b = generate_next_state(copy, "Cardiff Ground, G-ABCD, radio check");
    assert_eq!(a, b);
}

#[test]
fn side_calls_keep_stage() {
    let s = generate_initial_state(parameters(42));
    let m = accepted(42, &s, "Cardiff Ground, G-ABCD, mayday");
    assert_eq!(m.emergency, Emergency::Mayday);
    assert_eq!(m.status, s.status);
    let p = accepted(42, &s, "Cardiff Ground, G-ABCD, pan pan");
    assert_eq!(p.emergency, Emergency::PanPan);
    let q = accepted(42, &s, "Cardiff Ground, G-ABCD, squawk 4521");
    assert!(q.squark);
    assert_eq!(q.current_transponder_frequency, 4521);
    assert_eq!(q.status, s.status);
    let f = accepted(42, &s, "Cardiff Ground, G-ABCD, frequency 133.105");
    assert_eq!(f.current_radio_frequency, 133105);
    assert_eq!(f.status, s.status);
}

#[test]
fn phrases_may_come_in_any_order_and_spacing() {
    let s = generate_initial_state(parameters(42));
    let t = turn(42, &s, "  Cardiff Ground ,G-ABCD,  good morning , radio check  ");
    assert_eq!(t.error, None);
    assert_eq!(
        t.state.status,
        Status::Parked { position: "A1".to_string(), stage: ParkedToTakeoffStage::PreDepartInfo }
    );
}

#[test]
fn readback_uses_the_seeded_runway() {
    let s = generate_initial_state(parameters(42));
    let s = accepted(42, &s, "Cardiff Ground, G-ABCD, radio check");
    let s = accepted(42, &s, "Cardiff Ground, G-ABCD, request departure information");
    let t = turn(42, &s, "Cardiff Ground, G-ABCD, runway 27");
    assert_eq!(t.error, Some(ParseError::MissingPhrase));
    let t = turn(42, &s, "Cardiff Ground, G-ABCD, runway 30");
    assert_eq!(t.error, None);
}

#[test]
fn prefixed_callsign_is_accepted() {
    let mut p = parameters(42);
    p.prefix = "student".to_string();
    let s = generate_initial_state(p);
    let t = turn(42, &s, "Cardiff Ground, student G-ABCD, radio check");
    assert_eq!(t.error, None);
    let t = turn(42, &s, "Cardiff Ground, G-ABCD, radio check");
    assert_eq!(t.error, None);
    let t = turn(42, &s, "Cardiff Ground, police G-ABCD, radio check");
    assert_eq!(t.error, Some(ParseError::WrongCallsign));
    let plain = generate_initial_state(parameters(42));
    let t = turn(42, &plain, "Cardiff Ground, none G-ABCD, radio check");
    assert_eq!(t.error, Some(ParseError::WrongCallsign));
}

//! The phraseology parser: what a transmission says at the current stage.
use vstd::prelude::*;
use crate::aerodrome::{destination_aerodrome, get_destination_aerodrome, get_start_aerodrome, start_aerodrome};
use crate::state::{
    is_terminal, scenario_finished, Emergency, LandingToParkedStage, ParkedToTakeoffStage, State,
    StateModel, Status, StatusModel, TaxiingToTakeoffStage,
};
use crate::text::{chars_of, has_prefix, joined, same_chars, starts_with, suffix_from, views};

verus! {

/// Why a transmission was not accepted; the scenario stays where it was.
#[derive(Clone, Copy, PartialEq, Eq, Structural, Debug)]
pub enum ParseError {
    WrongStation,
    WrongCallsign,
    MissingPhrase,
    MalformedFrequency,
    MalformedSquawk,
    UnexpectedStage,
}

/// What an accepted transmission asks for.
#[derive(Clone, Copy, PartialEq, Eq, Structural, Debug)]
pub enum ParsedIntent {
    /// The exchange that the current stage waits for.
    Advance,
    /// An emergency call, accepted at any stage.
    Declare(Emergency),
    /// A transponder code, accepted at any stage.
    Squawk(u16),
    /// A radio frequency in kHz, accepted at any stage.
    Tune(u32),
}

/// What each refusal tells the pilot.
pub open spec fn description(e: ParseError) -> Seq<char> {
    match e {
        ParseError::WrongStation => "addressed station does not match"@,
        ParseError::WrongCallsign => "own callsign does not match"@,
        ParseError::MissingPhrase => "required phrase missing"@,
        ParseError::MalformedFrequency => "frequency not valid"@,
        ParseError::MalformedSquawk => "squawk code not valid"@,
        ParseError::UnexpectedStage => "not expected at this stage"@,
    }
}

impl ParseError {
    /// A short description for the pilot.
    pub fn describe(&self) -> (r: String)
        ensures
            r@ == description(*self),
    {
        let r = match self {
            ParseError::WrongStation => "addressed station does not match",
            ParseError::WrongCallsign => "own callsign does not match",
            ParseError::MissingPhrase => "required phrase missing",
            ParseError::MalformedFrequency => "frequency not valid",
            ParseError::MalformedSquawk => "squawk code not valid",
            ParseError::UnexpectedStage => "not expected at this stage",
        };
        r.to_owned()
    }
}

/// The callsigns the aircraft may give for itself: its own, the one ATC
/// allocated, and, with a prefix other than `none`, its own after the prefix
/// (`student G-ABCD`).
pub open spec fn is_own_callsign(c: Seq<char>, s: StateModel) -> bool {
    c == s.callsign || c == s.target_allocated_callsign || (s.prefix != "none"@ && c == s.prefix
        + " "@ + s.callsign)
}

pub open spec fn digit(c: char) -> int {
    (c as u32) as int - 48
}

pub open spec fn is_decimal_digit(c: char) -> bool {
    48 <= (c as u32) <= 57
}

pub open spec fn is_octal_digit(c: char) -> bool {
    48 <= (c as u32) <= 55
}

/// A transponder code: four octal digits, read as the decimal number they spell.
pub open spec fn squawk_code(t: Seq<char>) -> Option<u16> {
    if t.len() == 4 && is_octal_digit(t[0]) && is_octal_digit(t[1]) && is_octal_digit(t[2])
        && is_octal_digit(t[3]) {
        Some((digit(t[0]) * 1000 + digit(t[1]) * 100 + digit(t[2]) * 10 + digit(t[3])) as u16)
    } else {
        None
    }
}

/// A VHF airband frequency written `ddd.ddd` in MHz, as kHz.
pub open spec fn radio_khz(t: Seq<char>) -> Option<u32> {
    if t.len() == 7 && is_decimal_digit(t[0]) && is_decimal_digit(t[1]) && is_decimal_digit(t[2])
        && t[3] == '.' && is_decimal_digit(t[4]) && is_decimal_digit(t[5]) && is_decimal_digit(
        t[6],
    ) {
        let v = digit(t[0]) * 100000 + digit(t[1]) * 10000 + digit(t[2]) * 1000 + digit(t[4])
            * 100 + digit(t[5]) * 10 + digit(t[6]);
        if MIN_AIRBAND_KHZ <= v <= MAX_AIRBAND_KHZ {
            Some(v as u32)
        } else {
            None
        }
    } else {
        None
    }
}

pub const MIN_AIRBAND_KHZ: u32 = 118000;

pub const MAX_AIRBAND_KHZ: u32 = 136975;

/// The phrases that stand alone at some stage.
pub open spec fn known_phrases() -> Seq<Seq<char>> {
    seq![
        "radio check"@,
        "request departure information"@,
        "request taxi"@,
        "ready for departure"@,
        "roger"@,
        "request takeoff"@,
        "request join"@,
        "runway vacated"@,
    ]
}

/// The phrase the pilot must say at this stage.
pub open spec fn expected_phrase(s: StatusModel, seed: u32) -> Seq<char> {
    match s {
        StatusModel::Parked { stage, .. } => match stage {
            ParkedToTakeoffStage::PreRadioCheck => "radio check"@,
            ParkedToTakeoffStage::PreDepartInfo => "request departure information"@,
            ParkedToTakeoffStage::PreReadbackDepartInfo => "runway "@ + start_aerodrome(seed).runway,
            ParkedToTakeoffStage::PreTaxiRequest => "request taxi"@,
            ParkedToTakeoffStage::PreTaxiClearanceReadback => "taxi to holding point "@
                + start_aerodrome(seed).holdpoint,
        },
        StatusModel::TaxiingToTakeoff { runway, stage, .. } => match stage {
            TaxiingToTakeoffStage::PreReadyForDeparture => "ready for departure"@,
            TaxiingToTakeoffStage::PreInfoGivenForDeparture => "roger"@,
            TaxiingToTakeoffStage::PreClearedForTakeoff => "request takeoff"@,
            TaxiingToTakeoffStage::PreReadbackClearedForTakeoff => "cleared for takeoff runway "@
                + runway,
        },
        StatusModel::Airborne { .. } => "request join"@,
        StatusModel::Landing { runway } => "final runway "@ + runway,
        StatusModel::LandingToParked { stage, .. } => match stage {
            LandingToParkedStage::PreRunwayVacated => "runway vacated"@,
            LandingToParkedStage::PreTaxiToStandReadback => "taxi to stand "@ + destination_aerodrome(
                seed,
            ).stand,
            LandingToParkedStage::Shutdown => Seq::empty(),
        },
    }
}

/// Whether some field from position `from` on is `p`.
pub open spec fn has_field_from(f: Seq<Seq<char>>, from: int, p: Seq<char>) -> bool {
    exists|k: int| from <= k < f.len() && f[k] == p
}

/// Whether some field from position `from` on belongs to some stage.
pub open spec fn has_known_field_from(f: Seq<Seq<char>>, from: int) -> bool {
    exists|k: int| from <= k < f.len() && known_phrases().contains(f[k])
}

/// The meaning of a transmission, given as its fields: the station addressed,
/// the aircraft's own callsign, then phrases. An emergency, squawk or
/// frequency call must come first among the phrases; the stage's own phrase
/// may stand anywhere among them.
pub open spec fn interpret(f: Seq<Seq<char>>, s: StateModel, expected: Seq<char>) -> Result<
    ParsedIntent,
    ParseError,
> {
    if f.len() == 0 || f[0] != s.current_target.callsign {
        Err(ParseError::WrongStation)
    } else if f.len() < 2 || !is_own_callsign(f[1], s) {
        Err(ParseError::WrongCallsign)
    } else if is_terminal(s.status) {
        Err(ParseError::UnexpectedStage)
    } else if f.len() < 3 {
        Err(ParseError::MissingPhrase)
    } else if f[2] == "mayday"@ {
        Ok(ParsedIntent::Declare(Emergency::Mayday))
    } else if f[2] == "pan pan"@ {
        Ok(ParsedIntent::Declare(Emergency::PanPan))
    } else if starts_with(f[2], "squawk "@) {
        match squawk_code(f[2].subrange("squawk "@.len() as int, f[2].len() as int)) {
            Some(c) => Ok(ParsedIntent::Squawk(c)),
            None => Err(ParseError::MalformedSquawk),
        }
    } else if starts_with(f[2], "frequency "@) {
        match radio_khz(f[2].subrange("frequency "@.len() as int, f[2].len() as int)) {
            Some(k) => Ok(ParsedIntent::Tune(k)),
            None => Err(ParseError::MalformedFrequency),
        }
    } else if has_field_from(f, 2, expected) {
        Ok(ParsedIntent::Advance)
    } else if has_known_field_from(f, 2) {
        Err(ParseError::UnexpectedStage)
    } else {
        Err(ParseError::MissingPhrase)
    }
}

fn octal_digit(c: char) -> (r: Option<u16>)
    ensures
        r == (if is_octal_digit(c) { Some(digit(c) as u16) } else { None::<u16> }),
{
    let v = c as u32;
    if 48 <= v && v <= 55 {
        Some((v - 48) as u16)
    } else {
        None
    }
}

fn decimal_digit(c: char) -> (r: Option<u32>)
    ensures
        r == (if is_decimal_digit(c) { Some(digit(c) as u32) } else { None::<u32> }),
{
    let v = c as u32;
    if 48 <= v && v <= 57 {
        Some(v - 48)
    } else {
        None
    }
}

/// Reads a transponder code of four octal digits.
pub fn read_squawk(t: &Vec<char>) -> (r: Option<u16>)
    ensures
        r == squawk_code(t@),
{
    if t.len() != 4 {
        return None;
    }
    match (octal_digit(t[0]), octal_digit(t[1]), octal_digit(t[2]), octal_digit(t[3])) {
        (Some(a), Some(b), Some(c), Some(d)) => Some(a * 1000 + b * 100 + c * 10 + d),
        _ => None,
    }
}

/// Reads an airband frequency written `ddd.ddd`, in kHz.
pub fn read_frequency(t: &Vec<char>) -> (r: Option<u32>)
    ensures
        r == radio_khz(t@),
{
    if t.len() != 7 || t[3] != '.' {
        return None;
    }
    match (
        decimal_digit(t[0]),
        decimal_digit(t[1]),
        decimal_digit(t[2]),
        decimal_digit(t[4]),
        decimal_digit(t[5]),
        decimal_digit(t[6]),
    ) {
        (Some(a), Some(b), Some(c), Some(d), Some(e), Some(g)) => {
            let v = a * 100000 + b * 10000 + c * 1000 + d * 100 + e * 10 + g;
            if MIN_AIRBAND_KHZ <= v && v <= MAX_AIRBAND_KHZ {
                Some(v)
            } else {
                None
            }
        },
        _ => None,
    }
}

fn known_phrase_list() -> (r: Vec<Vec<char>>)
    ensures
        views(r@) == known_phrases(),
{
    let mut r: Vec<Vec<char>> = Vec::new();
    r.push(chars_of("radio check"));
    r.push(chars_of("request departure information"));
    r.push(chars_of("request taxi"));
    r.push(chars_of("ready for departure"));
    r.push(chars_of("roger"));
    r.push(chars_of("request takeoff"));
    r.push(chars_of("request join"));
    r.push(chars_of("runway vacated"));
    assert(views(r@) =~= known_phrases());
    r
}

/// Whether `p` is one of the phrases that stand alone at some stage.
pub fn is_known_phrase(p: &Vec<char>) -> (r: bool)
    ensures
        r == known_phrases().contains(p@),
{
    let list = known_phrase_list();
    let mut i: usize = 0;
    while i < list.len()
        invariant
            i <= list.len(),
            views(list@) == known_phrases(),
            forall|k: int| 0 <= k < i ==> known_phrases()[k] != p@,
        decreases list.len() - i,
    {
        assert(views(list@)[i as int] == list@[i as int]@);
        if same_chars(&list[i], p) {
            return true;
        }
        i = i + 1;
    }
    false
}

/// Whether some field from position `from` on is `p`.
pub fn contains_field_from(f: &Vec<Vec<char>>, from: usize, p: &Vec<char>) -> (r: bool)
    ensures
        r == has_field_from(views(f@), from as int, p@),
{
    let mut i: usize = from;
    while i < f.len()
        invariant
            from <= i,
            forall|k: int| from <= k < i && k < f.len() ==> views(f@)[k] != p@,
        decreases f.len() - i,
    {
        assert(views(f@)[i as int] == f@[i as int]@);
        if same_chars(&f[i], p) {
            assert(from <= i < f.len() && views(f@)[i as int] == p@);
            return true;
        }
        i = i + 1;
    }
    false
}

/// Whether some field from position `from` on belongs to some stage.
pub fn contains_known_field_from(f: &Vec<Vec<char>>, from: usize) -> (r: bool)
    ensures
        r == has_known_field_from(views(f@), from as int),
{
    let mut i: usize = from;
    while i < f.len()
        invariant
            from <= i,
            forall|k: int| from <= k < i && k < f.len() ==> !known_phrases().contains(views(f@)[k]),
        decreases f.len() - i,
    {
        assert(views(f@)[i as int] == f@[i as int]@);
        if is_known_phrase(&f[i]) {
            assert(from <= i < f.len() && known_phrases().contains(views(f@)[i as int]));
            return true;
        }
        i = i + 1;
    }
    false
}

/// The phrase the pilot must say at the current stage of `state`.
pub fn stage_phrase(state: &State, seed: u32) -> (r: Vec<char>)
    ensures
        r@ == expected_phrase(state.status@, seed),
{
    match &state.status {
        Status::Parked { stage, .. } => match stage {
            ParkedToTakeoffStage::PreRadioCheck => chars_of("radio check"),
            ParkedToTakeoffStage::PreDepartInfo => chars_of("request departure information"),
            ParkedToTakeoffStage::PreReadbackDepartInfo => {
                let start = get_start_aerodrome(seed);
                joined("runway ", start.runway.as_str())
            },
            ParkedToTakeoffStage::PreTaxiRequest => chars_of("request taxi"),
            ParkedToTakeoffStage::PreTaxiClearanceReadback => {
                let start = get_start_aerodrome(seed);
                joined("taxi to holding point ", start.holdpoint.as_str())
            },
        },
        Status::TaxiingToTakeoff { runway, stage, .. } => match stage {
            TaxiingToTakeoffStage::PreReadyForDeparture => chars_of("ready for departure"),
            TaxiingToTakeoffStage::PreInfoGivenForDeparture => chars_of("roger"),
            TaxiingToTakeoffStage::PreClearedForTakeoff => chars_of("request takeoff"),
            TaxiingToTakeoffStage::PreReadbackClearedForTakeoff => joined(
                "cleared for takeoff runway ",
                runway.as_str(),
            ),
        },
        Status::Airborne { .. } => chars_of("request join"),
        Status::Landing { runway } => joined("final runway ", runway.as_str()),
        Status::LandingToParked { stage, .. } => match stage {
            LandingToParkedStage::PreRunwayVacated => chars_of("runway vacated"),
            LandingToParkedStage::PreTaxiToStandReadback => {
                let destination = get_destination_aerodrome(seed);
                joined("taxi to stand ", destination.stand.as_str())
            },
            LandingToParkedStage::Shutdown => Vec::new(),
        },
    }
}

/// Whether `c` is a callsign the aircraft may give for itself.
pub fn own_callsign(c: &Vec<char>, state: &State) -> (r: bool)
    ensures
        r == is_own_callsign(c@, state@),
{
    if same_chars(c, &chars_of(state.callsign.as_str())) || same_chars(
        c,
        &chars_of(state.target_allocated_callsign.as_str()),
    ) {
        return true;
    }
    let prefix = chars_of(state.prefix.as_str());
    if same_chars(&prefix, &chars_of("none")) {
        return false;
    }
    let mut qualified = joined(state.prefix.as_str(), " ");
    let mut own = chars_of(state.callsign.as_str());
    qualified.append(&mut own);
    same_chars(c, &qualified)
}

/// Reads a transmission, given as its fields, against the state it is sent in
/// and the phrase its stage waits for.
pub fn parse(f: &Vec<Vec<char>>, state: &State, expected: &Vec<char>) -> (r: Result<
    ParsedIntent,
    ParseError,
>)
    ensures
        r == interpret(views(f@), state@, expected@),
{
    let ghost v = views(f@);
    assert(v.len() == f@.len());
    if f.len() == 0 {
        return Err(ParseError::WrongStation);
    }
    assert(v[0] == f@[0]@);
    if !same_chars(&f[0], &chars_of(state.current_target.callsign.as_str())) {
        return Err(ParseError::WrongStation);
    }
    if f.len() < 2 {
        return Err(ParseError::WrongCallsign);
    }
    assert(v[1] == f@[1]@);
    if !own_callsign(&f[1], state) {
        return Err(ParseError::WrongCallsign);
    }
    if scenario_finished(&state.status) {
        return Err(ParseError::UnexpectedStage);
    }
    if f.len() < 3 {
        return Err(ParseError::MissingPhrase);
    }
    let first = &f[2];
    assert(v[2] == first@);
    if same_chars(first, &chars_of("mayday")) {
        return Ok(ParsedIntent::Declare(Emergency::Mayday));
    }
    if same_chars(first, &chars_of("pan pan")) {
        return Ok(ParsedIntent::Declare(Emergency::PanPan));
    }
    let squawk = chars_of("squawk ");
    if has_prefix(first, &squawk) {
        return match read_squawk(&suffix_from(first, squawk.len())) {
            Some(c) => Ok(ParsedIntent::Squawk(c)),
            None => Err(ParseError::MalformedSquawk),
        };
    }
    let tune = chars_of("frequency ");
    if has_prefix(first, &tune) {
        return match read_frequency(&suffix_from(first, tune.len())) {
            Some(k) => Ok(ParsedIntent::Tune(k)),
            None => Err(ParseError::MalformedFrequency),
        };
    }
    if contains_field_from(f, 2, expected) {
        return Ok(ParsedIntent::Advance);
    }
    if contains_known_field_from(f, 2) {
        return Err(ParseError::UnexpectedStage);
    }
    Err(ParseError::MissingPhrase)
}

} // verus!

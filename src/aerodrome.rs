//! The reference aerodromes and the seeded choice of start and destination.
use vstd::prelude::*;

verus! {

/// The kind of air-traffic service a frequency belongs to.
#[derive(Clone, Copy, PartialEq, Eq, Structural, Debug)]
pub enum FrequencyType {
    Ground,
    Tower,
    Approach,
    Radar,
}

/// A station that the aircraft can talk to; `frequency` is in kHz.
#[derive(Clone, PartialEq, Eq, Debug)]
pub struct COMFrequency {
    pub frequency_type: FrequencyType,
    pub frequency: u32,
    pub callsign: String,
}

pub struct COMFrequencyModel {
    pub frequency_type: FrequencyType,
    pub frequency: u32,
    pub callsign: Seq<char>,
}

impl View for COMFrequency {
    type V = COMFrequencyModel;

    open spec fn view(&self) -> COMFrequencyModel {
        COMFrequencyModel {
            frequency_type: self.frequency_type,
            frequency: self.frequency,
            callsign: self.callsign@,
        }
    }
}

impl COMFrequency {
    /// An equal copy of this frequency.
    pub fn duplicate(&self) -> (r: COMFrequency)
        ensures
            r == *self,
    {
        COMFrequency {
            frequency_type: self.frequency_type,
            frequency: self.frequency,
            callsign: self.callsign.clone(),
        }
    }
}

/// An aerodrome: position in millionths of a degree, its stations in the
/// order ground, tower, approach, and the places a scenario uses.
#[derive(Clone, PartialEq, Eq, Debug)]
pub struct Aerodrome {
    pub name: String,
    pub lat: i32,
    pub long: i32,
    pub com_frequencies: Vec<COMFrequency>,
    pub runway: String,
    pub runway_heading: u16,
    pub holdpoint: String,
    pub stand: String,
}

pub struct AerodromeModel {
    pub name: Seq<char>,
    pub lat: i32,
    pub long: i32,
    pub com_frequencies: Seq<COMFrequencyModel>,
    pub runway: Seq<char>,
    pub runway_heading: u16,
    pub holdpoint: Seq<char>,
    pub stand: Seq<char>,
}

impl View for Aerodrome {
    type V = AerodromeModel;

    open spec fn view(&self) -> AerodromeModel {
        AerodromeModel {
            name: self.name@,
            lat: self.lat,
            long: self.long,
            com_frequencies: self.com_frequencies@.map_values(|f: COMFrequency| f@),
            runway: self.runway@,
            runway_heading: self.runway_heading,
            holdpoint: self.holdpoint@,
            stand: self.stand@,
        }
    }
}

/// How many aerodromes the reference table holds.
pub const AERODROME_COUNT: u32 = 4;

pub open spec fn station(t: FrequencyType, khz: u32, callsign: Seq<char>) -> COMFrequencyModel {
    COMFrequencyModel { frequency_type: t, frequency: khz, callsign }
}

/// The reference table of aerodromes, indexed from zero.
pub open spec fn aerodrome_model(i: int) -> AerodromeModel {
    if i == 0 {
        AerodromeModel {
            name: "Exeter"@,
            lat: 50734400,
            long: (-3413900) as i32,
            com_frequencies: seq![
                station(FrequencyType::Ground, 121930, "Exeter Ground"@),
                station(FrequencyType::Tower, 119805, "Exeter Tower"@),
                station(FrequencyType::Radar, 128975, "Exeter Radar"@),
            ],
            runway: "26"@,
            runway_heading: 260,
            holdpoint: "A1"@,
            stand: "4"@,
        }
    } else if i == 1 {
        AerodromeModel {
            name: "Bristol"@,
            lat: 51382700,
            long: (-2719100) as i32,
            com_frequencies: seq![
                station(FrequencyType::Ground, 121930, "Bristol Ground"@),
                station(FrequencyType::Tower, 133855, "Bristol Tower"@),
                station(FrequencyType::Radar, 125650, "Bristol Radar"@),
            ],
            runway: "27"@,
            runway_heading: 270,
            holdpoint: "B"@,
            stand: "12"@,
        }
    } else if i == 2 {
        AerodromeModel {
            name: "Cardiff"@,
            lat: 51396700,
            long: (-3343300) as i32,
            com_frequencies: seq![
                station(FrequencyType::Ground, 121705, "Cardiff Ground"@),
                station(FrequencyType::Tower, 133105, "Cardiff Tower"@),
                station(FrequencyType::Approach, 125855, "Cardiff Approach"@),
            ],
            runway: "30"@,
            runway_heading: 300,
            holdpoint: "C"@,
            stand: "5"@,
        }
    } else {
        AerodromeModel {
            name: "Gloucester"@,
            lat: 51894200,
            long: (-2167200) as i32,
            com_frequencies: seq![
                station(FrequencyType::Ground, 118905, "Gloster Ground"@),
                station(FrequencyType::Tower, 122905, "Gloster Tower"@),
                station(FrequencyType::Approach, 128555, "Gloster Approach"@),
            ],
            runway: "27"@,
            runway_heading: 270,
            holdpoint: "D"@,
            stand: "2"@,
        }
    }
}

/// Index of the aerodrome a scenario starts at.
pub open spec fn start_index(seed: u32) -> int {
    (seed as int) % (AERODROME_COUNT as int)
}

/// Index of the aerodrome a scenario flies to; never the start.
pub open spec fn destination_index(seed: u32) -> int {
    (start_index(seed) + 1 + ((seed as int) / (AERODROME_COUNT as int)) % (AERODROME_COUNT as int
        - 1)) % (AERODROME_COUNT as int)
}

pub open spec fn start_aerodrome(seed: u32) -> AerodromeModel {
    aerodrome_model(start_index(seed))
}

pub open spec fn destination_aerodrome(seed: u32) -> AerodromeModel {
    aerodrome_model(destination_index(seed))
}

fn frequency(frequency_type: FrequencyType, khz: u32, callsign: &str) -> (r: COMFrequency)
    ensures
        r@ == station(frequency_type, khz, callsign@),
{
    COMFrequency { frequency_type, frequency: khz, callsign: callsign.to_owned() }
}

fn stations(ground: COMFrequency, tower: COMFrequency, approach: COMFrequency) -> (r: Vec<
    COMFrequency,
>)
    ensures
        r@.map_values(|f: COMFrequency| f@) == seq![ground@, tower@, approach@],
{
    let ghost g = ground@;
    let ghost t = tower@;
    let ghost a = approach@;
    let mut r: Vec<COMFrequency> = Vec::new();
    r.push(ground);
    r.push(tower);
    r.push(approach);
    assert(r@.map_values(|f: COMFrequency| f@) =~= seq![g, t, a]);
    r
}

/// Entry `i` of the reference table.
pub fn reference_aerodrome(i: u32) -> (r: Aerodrome)
    requires
        i < AERODROME_COUNT,
    ensures
        r@ == aerodrome_model(i as int),
{
    if i == 0 {
        Aerodrome {
            name: "Exeter".to_owned(),
            lat: 50734400,
            long: -3413900,
            com_frequencies: stations(
                frequency(FrequencyType::Ground, 121930, "Exeter Ground"),
                frequency(FrequencyType::Tower, 119805, "Exeter Tower"),
                frequency(FrequencyType::Radar, 128975, "Exeter Radar"),
            ),
            runway: "26".to_owned(),
            runway_heading: 260,
            holdpoint: "A1".to_owned(),
            stand: "4".to_owned(),
        }
    } else if i == 1 {
        Aerodrome {
            name: "Bristol".to_owned(),
            lat: 51382700,
            long: -2719100,
            com_frequencies: stations(
                frequency(FrequencyType::Ground, 121930, "Bristol Ground"),
                frequency(FrequencyType::Tower, 133855, "Bristol Tower"),
                frequency(FrequencyType::Radar, 125650, "Bristol Radar"),
            ),
            runway: "27".to_owned(),
            runway_heading: 270,
            holdpoint: "B".to_owned(),
            stand: "12".to_owned(),
        }
    } else if i == 2 {
        Aerodrome {
            name: "Cardiff".to_owned(),
            lat: 51396700,
            long: -3343300,
            com_frequencies: stations(
                frequency(FrequencyType::Ground, 121705, "Cardiff Ground"),
                frequency(FrequencyType::Tower, 133105, "Cardiff Tower"),
                frequency(FrequencyType::Approach, 125855, "Cardiff Approach"),
            ),
            runway: "30".to_owned(),
            runway_heading: 300,
            holdpoint: "C".to_owned(),
            stand: "5".to_owned(),
        }
    } else {
        Aerodrome {
            name: "Gloucester".to_owned(),
            lat: 51894200,
            long: -2167200,
            com_frequencies: stations(
                frequency(FrequencyType::Ground, 118905, "Gloster Ground"),
                frequency(FrequencyType::Tower, 122905, "Gloster Tower"),
                frequency(FrequencyType::Approach, 128555, "Gloster Approach"),
            ),
            runway: "27".to_owned(),
            runway_heading: 270,
            holdpoint: "D".to_owned(),
            stand: "2".to_owned(),
        }
    }
}

/// The aerodrome a scenario with this seed starts at.
pub fn get_start_aerodrome(seed: u32) -> (r: Aerodrome)
    ensures
        r@ == start_aerodrome(seed),
{
    reference_aerodrome(seed % AERODROME_COUNT)
}

/// The aerodrome a scenario with this seed flies to.
pub fn get_destination_aerodrome(seed: u32) -> (r: Aerodrome)
    ensures
        r@ == destination_aerodrome(seed),
{
    let start = seed % AERODROME_COUNT;
    let hop = (seed / AERODROME_COUNT) % (AERODROME_COUNT - 1);
    reference_aerodrome((start + 1 + hop) % AERODROME_COUNT)
}

/// Every table entry has a ground, a tower and an approach station.
pub proof fn lemma_table_stations(i: int)
    ensures
        aerodrome_model(i).com_frequencies.len() == 3,
        aerodrome_model(i).com_frequencies[0].frequency_type == FrequencyType::Ground,
        aerodrome_model(i).com_frequencies[1].frequency_type == FrequencyType::Tower,
{
}

/// The destination is never the aerodrome the scenario starts at.
pub proof fn lemma_destination_differs(seed: u32)
    ensures
        0 <= start_index(seed) < AERODROME_COUNT,
        0 <= destination_index(seed) < AERODROME_COUNT,
        destination_index(seed) != start_index(seed),
{
}

/// The world is a function of the seed alone: two aerodromes derived as the
/// destination of one seed are the same aerodrome, and so are two starts.
pub proof fn lemma_world_fixed_by_seed(seed: u32, a: Aerodrome, b: Aerodrome, c: Aerodrome, d: Aerodrome)
    requires
        a@ == destination_aerodrome(seed),
        b@ == destination_aerodrome(seed),
        c@ == start_aerodrome(seed),
        d@ == start_aerodrome(seed),
    ensures
        a@ == b@,
        a.com_frequencies@.map_values(|f: COMFrequency| f@) == b.com_frequencies@.map_values(
            |f: COMFrequency| f@,
        ),
        c@ == d@,
{
}

} // verus!

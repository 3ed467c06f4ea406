//! A simulated air-traffic-control radio exchange: a seeded world generator,
//! a phraseology parser and the flight-phase state machine that a scenario
//! session drives one transmission at a time.

pub mod aerodrome;
pub mod jsoncheckers;
pub mod parser;
pub mod state;
pub mod states;
pub mod text;
pub mod transition;

//! A two-player pebble game against an automated opponent, as a verified
//! state machine.
//!
//! A pile of pebbles is shared by a user and the program. They move in turn,
//! each removing between one pebble and a fixed maximum; whoever empties the
//! pile wins.

pub mod analysis;
pub mod engine;
pub mod game;
pub mod history;
pub mod random;
pub mod strategy;
pub mod types;

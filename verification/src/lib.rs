//! Driver logic for MIPI-DCS display controllers.
//!
//! The crate holds everything a driver decides: how commands are encoded,
//! which steps bring a panel up and in which order, how colors become wire
//! data, and how a bring-up run reacts to a failing step.  Performing a step
//! (clocking bytes onto a bus, toggling a pin, waiting) is left to the caller,
//! who asks a run for its current step and reports what happened.

pub mod options;
pub mod dcs;
pub mod color;
pub mod encoder;
pub mod models;
pub mod error;
pub mod run;
pub mod builder;
pub mod display;

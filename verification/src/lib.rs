//! Simulation of planted agricultural units growing through ordered stages.
//!
//! Units progress from `Seed` to `Harvest` over simulated days, one stage at a
//! time, with a per-species table of required days per stage. A day-tick
//! scheduler advances every unit, fires periodic maintenance actions, and
//! tracks aggregate harvest/failure counts. Stage transitions and weather are
//! driven by an explicit event source, so the whole state machine is
//! deterministic given the drawn values.

mod clock;
pub mod crop_parser;
pub mod dto;
pub mod errors;
pub mod plant_service;
mod rng;
pub mod seeds;
pub mod setup;
pub mod weather_service;

//! Calendar, season and camera logic of a small orbiting-planet game.
//!
//! The engine-facing systems call into these functions with plain values
//! and write the results back into the engine's stores.

pub mod calendar;
pub mod camera;
pub mod input;
pub mod seasons;
pub mod motion;

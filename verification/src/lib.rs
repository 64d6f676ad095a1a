//! Verified game logic of a small arcade racing game: the screen flow, the
//! difficulty menu, lap progress, race standings, driver controls, dashboard
//! indicators and the integer side of mesh and texture generation.
//!
//! Everything that depends on floating-point physics, rendering or the ECS
//! engine lives in the application crate that drives this library.

pub mod flow;
pub mod settings;
pub mod laps;
pub mod standings;
pub mod controls;
pub mod indicators;
pub mod geometry;
pub mod grid;

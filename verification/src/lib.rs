//! Simulation core of a falling-block avoidance game.
//!
//! An avatar moves on a ground plane while blocks spawn above it and fall.
//! A block that reaches the avatar ends the run; the score counts the ticks
//! survived. The host engine owns windows, input devices and rendering: it
//! feeds this crate elapsed time and held keys, and applies the creation and
//! destruction requests that the systems hand back.
//!
//! All quantities are integers. Lengths are in micro-units (`UNIT` of them
//! make one world unit), durations in milliseconds and speeds in micro-units
//! per millisecond, so that `distance = speed * duration` holds exactly.

pub mod config;
pub mod entity;
pub mod geometry;
pub mod model;
pub mod preservation;
mod random;
pub mod trace;
pub mod world;

pub use config::{Boundary, Config, ConfigError, SpawnRegion};
pub use entity::{Avatar, Cleanup, Counter, Cubes, Death, FallingBlock, Movable, Score};
pub use geometry::{Position, UNIT, UNIT_PER_SECOND};
pub use model::{Keys, Phase};
pub use world::World;

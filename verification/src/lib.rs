//! Discrete decision logic of a simulation of Jupiter's Galilean moons: application state
//! transitions, time-flow presets, camera lock and movement intents, sky asset readiness and the
//! seed layout of the procedural lineae generator.

pub mod camera;
pub mod input;
pub mod linea;
pub mod moons;
pub mod sim;
pub mod sky;

//! The per-tick systems of the simulation.

pub mod bird;
pub mod collision;
pub mod effects;
pub mod game;
pub mod pipes;
pub mod score;
pub mod viewport;

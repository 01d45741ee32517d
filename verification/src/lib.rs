//! Verified core of a side-scrolling flap-and-dodge arcade game.
//!
//! A player-controlled actor falls under gravity and rises on discrete flap
//! impulses. It must pass through gaps between scrolling pipe pairs; passing a
//! pair scores a point, and any collision with a pipe, the ground or the
//! ceiling ends the round. Gap sizes shrink with the score, visual feedback
//! (screen shake, flashes, particles, squash and pop animations) reacts to
//! gameplay events, and a three-state mode machine drives menu, play and
//! restart.
//!
//! All quantities are scaled 64-bit integers: one world unit, one second or
//! one full-opacity step is 1000, so a value of this crate is a fixed-point
//! number in thousandths. A host layer owns the window, rendering and input;
//! it feeds the simulation the elapsed milliseconds and the edge-triggered
//! flap and confirm signals, and reads positions, colors and alphas back.

pub mod components;
pub mod constants;
pub mod num;
pub mod resources;
pub mod rng;
pub mod sim;
pub mod states;
pub mod systems;
pub mod trig;

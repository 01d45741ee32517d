//! Tunable parameters of the simulation.
//!
//! Lengths and speeds are in thousandths of a world unit (the playfield is
//! 600 units tall), durations in milliseconds, angles in thousandths of a
//! radian, and color channels, alphas and scale factors in thousandths of
//! full intensity.

use vstd::prelude::*;

verus! {

/// Playfield height; fixed for the whole session.
pub const GAME_HEIGHT: i64 = 600_000;

/// Playfield width at the default 2:3 aspect ratio.
pub const GAME_WIDTH: i64 = 400_000;

/// Gravity, applied to the actor's vertical speed every tick (per second).
pub const GRAVITY: i64 = -800_000;

/// Vertical speed set by a flap impulse.
pub const FLAP_STRENGTH: i64 = 350_000;

/// Side length of the actor's square.
pub const BIRD_SIZE: i64 = 30_000;

/// Horizontal start position of the actor.
pub const BIRD_START_X: i64 = -50_000;

/// Vertical start position of the actor.
pub const BIRD_START_Y: i64 = 0;

/// Largest upward tilt of the actor (about 28 degrees).
pub const MAX_TILT_UP: i64 = 500;

/// Largest downward tilt of the actor (about 68 degrees).
pub const MAX_TILT_DOWN: i64 = -1200;

/// Rate at which the tilt angle chases its target (per second).
pub const TILT_SPEED: i64 = 5;

/// Falling speed that maps onto one radian of downward tilt.
pub const TILT_FALL_DIVISOR: i64 = 500_000;

/// Width of every pipe.
pub const PIPE_WIDTH: i64 = 60_000;

/// Interval of the repeating pipe spawn timer.
pub const PIPE_SPAWN_TIME: i64 = 2000;

/// Smallest gap drawn at score zero.
pub const PIPE_GAP_START_MIN: i64 = 140_000;

/// Largest gap drawn at score zero.
pub const PIPE_GAP_START_MAX: i64 = 160_000;

/// Gap at full difficulty; both bounds collapse onto it.
pub const PIPE_GAP_END: i64 = 110_000;

/// Score at which the gap bounds reach `PIPE_GAP_END`.
pub const PIPE_GAP_SCALE_SCORE: u32 = 20;

/// Vertical margin kept free when placing a gap's center.
pub const PIPE_GAP_MARGIN: i64 = 100_000;

/// Leftward speed of pipes and of world-scrolling particles (per second).
pub const WORLD_SCROLL_SPEED: i64 = 150_000;

/// Height of the ground strip at the bottom of the playfield.
pub const GROUND_HEIGHT: i64 = 50_000;

/// Duration of the screen shake raised on death.
pub const SCREEN_SHAKE_DURATION: i64 = 300;

/// Peak camera displacement of the screen shake.
pub const SCREEN_SHAKE_INTENSITY: i64 = 8_000;

/// Angular frequency of the shake waves (radians per second).
pub const SCREEN_SHAKE_FREQUENCY: i64 = 30;

/// Duration of the full-screen flash raised on death.
pub const DEATH_FLASH_DURATION: i64 = 150;

/// Red channel of the death flash.
pub const DEATH_FLASH_RED: i64 = 1000;

/// Green channel of the death flash.
pub const DEATH_FLASH_GREEN: i64 = 300;

/// Blue channel of the death flash.
pub const DEATH_FLASH_BLUE: i64 = 200;

/// Peak alpha of the death flash.
pub const DEATH_FLASH_ALPHA: i64 = 600;

/// Duration of the edge flash raised on a score.
pub const SCORE_FLASH_DURATION: i64 = 100;

/// Red channel of the score flash.
pub const SCORE_FLASH_RED: i64 = 1000;

/// Green channel of the score flash.
pub const SCORE_FLASH_GREEN: i64 = 900;

/// Blue channel of the score flash.
pub const SCORE_FLASH_BLUE: i64 = 300;

/// Peak alpha of the score flash.
pub const SCORE_FLASH_ALPHA: i64 = 300;

/// Duration of the actor's squash-and-stretch animation.
pub const FLAP_SQUASH_DURATION: i64 = 150;

/// Horizontal scale at the deepest point of the squash.
pub const FLAP_SQUASH_SCALE: i64 = 650;

/// Vertical scale at the highest point of the stretch.
pub const FLAP_STRETCH_SCALE: i64 = 1500;

/// Duration of the score text pop animation.
pub const SCORE_POP_DURATION: i64 = 200;

/// Peak scale of the score text pop.
pub const SCORE_POP_SCALE: i64 = 1400;

/// Fewest particles in a flap burst.
pub const FLAP_PARTICLE_COUNT_MIN: u32 = 3;

/// Most particles in a flap burst.
pub const FLAP_PARTICLE_COUNT_MAX: u32 = 6;

/// Smallest flap particle diameter.
pub const FLAP_PARTICLE_SIZE_MIN: i64 = 10_000;

/// Largest flap particle diameter.
pub const FLAP_PARTICLE_SIZE_MAX: i64 = 16_000;

/// Base lifetime of a flap particle.
pub const FLAP_PARTICLE_LIFETIME: i64 = 1500;

/// Number of particles in a death burst.
pub const DEATH_PARTICLE_COUNT: u32 = 15;

/// Smallest death particle diameter.
pub const DEATH_PARTICLE_SIZE_MIN: i64 = 4_000;

/// Largest death particle diameter.
pub const DEATH_PARTICLE_SIZE_MAX: i64 = 10_000;

/// Base speed of a death particle.
pub const DEATH_PARTICLE_SPEED: i64 = 200_000;

/// Base lifetime of a death particle.
pub const DEATH_PARTICLE_LIFETIME: i64 = 600;

/// Total width of the edge flash border.
pub const SCORE_FLASH_BORDER_WIDTH: i64 = 40_000;

/// Number of gradient strips per playfield edge.
pub const SCORE_FLASH_GRADIENT_STRIPS: u32 = 8;

/// Fraction of the border that stays at full opacity before the falloff.
pub const SCORE_FLASH_SOLID_RATIO: i64 = 350;

/// Most milliseconds a single tick may advance the clock by.
pub const DT_LIMIT: i64 = 10_000;

/// Magnitude bound on speeds, tilt angles and shake intensities.
pub const VEL_LIMIT: i64 = 1_000_000_000;

/// Magnitude bound on every coordinate the simulation holds.
pub const POS_LIMIT: i64 = 1_000_000_000_000;

/// Bound on effect durations, timer intervals and particle lifetimes.
pub const DUR_LIMIT: i64 = 1_000_000;

} // verus!

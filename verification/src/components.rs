//! The entities of the simulation.

use vstd::prelude::*;

verus! {

use crate::constants::{BIRD_START_X, BIRD_START_Y, POS_LIMIT};

/// The player-controlled actor: a falling and flapping square.
#[derive(Clone, Copy, Debug, PartialEq, Eq, Structural)]
pub struct Bird {
    /// Vertical speed, upward positive.
    pub velocity: i64,
    /// Horizontal position; the actor never moves sideways.
    pub x: i64,
    /// Vertical position of the square's center.
    pub y: i64,
    /// Visual tilt angle, upward positive.
    pub tilt: i64,
}

impl Bird {
    /// The fixed start state: resting at the start position, untilted.
    pub open spec fn start_spec() -> Bird {
        Bird { velocity: 0, x: BIRD_START_X, y: BIRD_START_Y, tilt: 0 }
    }

    /// Builds the fixed start state.
    pub fn start() -> (bird: Bird)
        ensures
            bird == Bird::start_spec(),
    {
        Bird { velocity: 0, x: BIRD_START_X, y: BIRD_START_Y, tilt: 0 }
    }
}

impl Default for Bird {
    /// The start state.
    fn default() -> (bird: Bird)
        ensures
            bird == Bird::start_spec(),
    {
        Bird::start()
    }
}

/// Whether a bottom pipe has been passed and counted.
#[derive(Clone, Copy, Debug, PartialEq, Eq, Structural)]
pub struct Scored(pub bool);

/// Which half of a pipe pair a pipe is. Only the bottom half carries the
/// scored flag, so each pair is counted exactly once.
#[derive(Clone, Copy, Debug, PartialEq, Eq, Structural)]
pub enum PipeRole {
    /// Hangs from the ceiling down to the top of the gap.
    Top,
    /// Stands on the ground up to the bottom of the gap.
    Bottom(Scored),
}

/// One scrolling pipe: an axis-aligned rectangle given by its center.
#[derive(Clone, Copy, Debug, PartialEq, Eq, Structural)]
pub struct Pipe {
    /// Horizontal position of the rectangle's center.
    pub x: i64,
    /// Vertical position of the rectangle's center.
    pub y: i64,
    /// Full width of the rectangle.
    pub width: i64,
    /// Full height of the rectangle.
    pub height: i64,
    /// Which half of its pair this pipe is.
    pub role: PipeRole,
}

impl Pipe {
    /// Sane pipe: a rectangle of nonnegative extent within coordinate bounds.
    pub open spec fn wf(self) -> bool {
        &&& -POS_LIMIT <= self.x <= POS_LIMIT
        &&& -POS_LIMIT <= self.y <= POS_LIMIT
        &&& 0 <= self.width <= POS_LIMIT
        &&& 0 <= self.height <= POS_LIMIT
    }

    /// True of a bottom pipe that has not been counted yet.
    pub open spec fn is_unscored_bottom(self) -> bool {
        self.role == PipeRole::Bottom(Scored(false))
    }
}

/// What spawned a particle; decides its look.
#[derive(Clone, Copy, Debug, PartialEq, Eq, Structural)]
pub enum ParticleKind {
    /// A small puff from a flap.
    Flap,
    /// A shard of the burst on death.
    Death,
}

/// A short-lived drifting particle.
#[derive(Clone, Copy, Debug, PartialEq, Eq, Structural)]
pub struct Particle {
    /// Horizontal position.
    pub x: i64,
    /// Vertical position.
    pub y: i64,
    /// Horizontal drift speed, damped every tick.
    pub velocity_x: i64,
    /// Vertical drift speed, damped every tick.
    pub velocity_y: i64,
    /// Horizontal world-scroll speed; applied only while a round is playing.
    pub world_velocity_x: i64,
    /// Vertical world-scroll speed; applied only while a round is playing.
    pub world_velocity_y: i64,
    /// Milliseconds left to live; the particle dies at zero.
    pub lifetime: i64,
    /// Lifetime the particle started with; fixes the scale curve.
    pub initial_lifetime: i64,
    /// Diameter of the rendered dot.
    pub size: i64,
    /// Current visual scale in thousandths.
    pub scale: i64,
    /// Red channel of the dot in thousandths.
    pub color_r: i64,
    /// Green channel of the dot in thousandths.
    pub color_g: i64,
    /// Blue channel of the dot in thousandths.
    pub color_b: i64,
    /// Alpha of the dot in thousandths.
    pub alpha: i64,
    /// What spawned the particle.
    pub kind: ParticleKind,
}

/// Pop animation of the score text, run once per point.
#[derive(Clone, Copy, Debug, PartialEq, Eq, Structural)]
pub struct ScorePopAnimation {
    /// Milliseconds the animation has run for.
    pub timer: i64,
    /// Total length of the animation.
    pub duration: i64,
}

/// Squash-and-stretch deformation of the actor, run once per flap.
#[derive(Clone, Copy, Debug, PartialEq, Eq, Structural)]
pub struct BirdSquashStretch {
    /// Milliseconds the animation has run for.
    pub timer: i64,
    /// Total length of the animation.
    pub duration: i64,
    /// True while the deformation narrows the actor.
    pub is_squash: bool,
}

/// Which playfield edge an edge flash strip hugs.
#[derive(Clone, Copy, Debug, PartialEq, Eq, Structural)]
pub enum EdgeType {
    /// The upper edge.
    Top,
    /// The lower edge.
    Bottom,
    /// The left edge.
    Left,
    /// The right edge.
    Right,
}

/// One gradient strip of the edge flash border. Its alpha multiplier is
/// fixed at setup from the strip index alone; the flash's decaying alpha is
/// multiplied by it every tick.
#[derive(Clone, Copy, Debug, PartialEq, Eq, Structural)]
pub struct EdgeFlash {
    /// Fixed gradient multiplier in thousandths; full at the edge, falling
    /// off quadratically toward the playfield center.
    pub alpha_multiplier: i64,
    /// Which edge the strip hugs.
    pub edge: EdgeType,
    /// Index of the strip, zero at the outermost.
    pub strip_index: usize,
}

} // verus!

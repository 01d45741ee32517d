//! Shared state of the simulation: viewport, score, spawn timer, and the
//! decaying-timer effect resources.

use vstd::prelude::*;

verus! {

use crate::constants::{
    DT_LIMIT, DUR_LIMIT, GAME_HEIGHT, GAME_WIDTH, PIPE_SPAWN_TIME, VEL_LIMIT,
};

/// Logical playfield dimensions. The height is fixed for the whole session;
/// the width follows the display's aspect ratio.
#[derive(Clone, Copy, Debug, PartialEq, Eq, Structural)]
pub struct GameViewport {
    /// Current logical width of the playfield.
    pub width: i64,
    /// Fixed logical height of the playfield.
    pub height: i64,
}

impl GameViewport {
    /// Sane viewport: the fixed height, and a positive, bounded width.
    pub open spec fn wf(self) -> bool {
        &&& self.height == GAME_HEIGHT
        &&& 0 < self.width <= 100_000 * GAME_HEIGHT
    }

    /// Recomputes the width so that the playfield matches the display's
    /// aspect ratio; the height never changes.
    pub fn update_from_window(&mut self, window_width: i64, window_height: i64)
        requires
            old(self).wf(),
            0 < window_width,
            0 < window_height,
            window_width <= 1_000_000_000,
            window_height <= 1_000_000_000,
            window_width <= 100_000 * window_height,
            window_height <= GAME_HEIGHT * window_width,
        ensures
            final(self).height == old(self).height,
            final(self).width == old(self).height * window_width / (window_height as int),
            final(self).wf(),
    {
        proof {
            let h = self.height as int;
            let ww = window_width as int;
            let wh = window_height as int;
            assert(h * ww <= wh * (100_000 * h)) by (nonlinear_arith)
                requires
                    h == GAME_HEIGHT as int,
                    0 < ww,
                    0 < wh,
                    ww <= 100_000 * wh,
            ;
            assert(h * ww >= wh) by (nonlinear_arith)
                requires
                    h == GAME_HEIGHT as int,
                    0 < ww,
                    0 < wh,
                    wh <= GAME_HEIGHT as int * ww,
            ;
            vstd::arithmetic::div_mod::lemma_div_non_zero(h * ww, wh);
            vstd::arithmetic::div_mod::lemma_div_is_ordered(h * ww, wh * (100_000 * h), wh);
            vstd::arithmetic::div_mod::lemma_div_multiples_vanish(100_000 * h, wh);
        }
        let w: i64 = self.height * window_width / window_height;
        self.width = w;
    }

    /// Half the playfield width, the right playfield edge.
    pub fn half_width(&self) -> (r: i64)
        requires
            self.wf(),
        ensures
            r == self.width as int / 2,
    {
        self.width / 2
    }

    /// Half the playfield height, the upper playfield edge.
    pub fn half_height(&self) -> (r: i64)
        requires
            self.wf(),
        ensures
            r == self.height as int / 2,
    {
        self.height / 2
    }
}

impl Default for GameViewport {
    /// The playfield at the default aspect ratio.
    fn default() -> (vp: GameViewport)
        ensures
            vp.width == GAME_WIDTH,
            vp.height == GAME_HEIGHT,
            vp.wf(),
    {
        GameViewport { width: GAME_WIDTH, height: GAME_HEIGHT }
    }
}

/// The player's score: pipe pairs passed this round.
#[derive(Clone, Copy, Debug, PartialEq, Eq, Structural)]
pub struct Score(pub u32);

impl Score {
    /// Sets the score back to zero.
    pub fn reset(&mut self)
        ensures
            final(self).0 == 0,
    {
        self.0 = 0;
    }

    /// Counts one more passed pipe pair.
    pub fn increment(&mut self)
        requires
            old(self).0 < u32::MAX,
        ensures
            final(self).0 == old(self).0 + 1,
    {
        self.0 = self.0 + 1;
    }
}

/// Repeating countdown pacing the pipe spawner. It ticks only while a round
/// is playing, fires on expiry and restarts, carrying any overshoot into the
/// next period.
#[derive(Clone, Copy, Debug, PartialEq, Eq, Structural)]
pub struct PipeSpawnTimer {
    /// Milliseconds left until the next spawn.
    pub remaining: i64,
    /// Full period of the countdown.
    pub interval: i64,
}

/// Whether a countdown at `t` expires within `dt` more milliseconds.
pub open spec fn timer_fires(t: PipeSpawnTimer, dt: int) -> bool {
    dt >= t.remaining
}

/// The countdown after `dt` milliseconds: run down, or restarted past an
/// expiry with the overshoot carried into the next period.
pub open spec fn timer_after(t: PipeSpawnTimer, dt: int) -> PipeSpawnTimer {
    if timer_fires(t, dt) {
        PipeSpawnTimer {
            remaining: (t.interval - (dt - t.remaining) % (t.interval as int)) as i64,
            interval: t.interval,
        }
    } else {
        PipeSpawnTimer { remaining: (t.remaining - dt) as i64, interval: t.interval }
    }
}

impl PipeSpawnTimer {
    /// Sane timer: a positive, bounded period, with at most one period left.
    pub open spec fn wf(self) -> bool {
        &&& 0 < self.interval <= DUR_LIMIT
        &&& 0 < self.remaining <= self.interval
    }

    /// Advances the countdown by `dt` and reports whether it expired. On
    /// expiry the countdown restarts, less the overshoot beyond the period.
    pub fn tick(&mut self, dt: i64) -> (fired: bool)
        requires
            old(self).wf(),
            0 <= dt <= DT_LIMIT,
        ensures
            fired == timer_fires(*old(self), dt as int),
            *final(self) == timer_after(*old(self), dt as int),
            final(self).wf(),
    {
        if dt >= self.remaining {
            let overshoot: i64 = (dt - self.remaining) % self.interval;
            self.remaining = self.interval - overshoot;
            true
        } else {
            self.remaining = self.remaining - dt;
            false
        }
    }

    /// Winds the countdown back to a full period.
    pub fn reset(&mut self)
        ensures
            final(self).interval == old(self).interval,
            final(self).remaining == old(self).interval,
    {
        self.remaining = self.interval;
    }
}

impl Default for PipeSpawnTimer {
    /// A full countdown at the spawn interval.
    fn default() -> (timer: PipeSpawnTimer)
        ensures
            timer.interval == PIPE_SPAWN_TIME,
            timer.remaining == PIPE_SPAWN_TIME,
            timer.wf(),
    {
        PipeSpawnTimer { remaining: PIPE_SPAWN_TIME, interval: PIPE_SPAWN_TIME }
    }
}

/// State of the camera shake raised on death.
#[derive(Clone, Copy, Debug, PartialEq, Eq, Structural)]
pub struct ScreenShake {
    /// Milliseconds of shake left; inert at or below zero.
    pub duration: i64,
    /// Peak displacement of the camera.
    pub intensity: i64,
    /// Milliseconds the shake has run for, the phase of its waves.
    pub elapsed: i64,
}

impl ScreenShake {
    /// Sane shake: bounded fields, and phase plus remaining time within one
    /// trigger's budget while the shake is live.
    pub open spec fn wf(self) -> bool {
        &&& -DT_LIMIT <= self.duration <= DUR_LIMIT
        &&& 0 <= self.intensity <= VEL_LIMIT
        &&& 0 <= self.elapsed <= DUR_LIMIT + DT_LIMIT
        &&& self.duration > 0 ==> self.elapsed + self.duration <= DUR_LIMIT
    }

    /// Starts a new shake, restarting the wave phase.
    pub fn trigger(&mut self, duration: i64, intensity: i64)
        requires
            0 <= duration <= DUR_LIMIT,
            0 <= intensity <= VEL_LIMIT,
        ensures
            final(self).duration == duration,
            final(self).intensity == intensity,
            final(self).elapsed == 0,
            final(self).wf(),
    {
        self.duration = duration;
        self.intensity = intensity;
        self.elapsed = 0;
    }

    /// True while the shake still displaces the camera.
    pub fn is_active(&self) -> (r: bool)
        ensures
            r == (self.duration > 0),
    {
        self.duration > 0
    }
}

impl Default for ScreenShake {
    /// An inert shake.
    fn default() -> (shake: ScreenShake)
        ensures
            shake.duration == 0,
            shake.intensity == 0,
            shake.elapsed == 0,
            shake.wf(),
    {
        ScreenShake { duration: 0, intensity: 0, elapsed: 0 }
    }
}

/// Alpha of a decaying flash: the linear fraction of the time left times the
/// peak alpha, zero once the flash has run out.
pub open spec fn flash_alpha_spec(duration: int, total: int, max_alpha: int) -> int {
    if total <= 0 || duration <= 0 {
        0
    } else {
        duration * max_alpha / total
    }
}

/// State of the full-screen flash raised on death.
#[derive(Clone, Copy, Debug, PartialEq, Eq, Structural)]
pub struct ScreenFlashState {
    /// Milliseconds of flash left; inert at or below zero.
    pub duration: i64,
    /// Length the flash started with, fixing the fade curve.
    pub total_duration: i64,
    /// Red channel of the overlay in thousandths.
    pub color_r: i64,
    /// Green channel of the overlay in thousandths.
    pub color_g: i64,
    /// Blue channel of the overlay in thousandths.
    pub color_b: i64,
    /// Alpha at the moment of the trigger.
    pub max_alpha: i64,
}

impl ScreenFlashState {
    /// Sane flash: bounded, with no more time left than it started with.
    pub open spec fn wf(self) -> bool {
        &&& -DT_LIMIT <= self.duration
        &&& self.duration <= self.total_duration <= DUR_LIMIT
        &&& 0 <= self.max_alpha <= VEL_LIMIT
    }

    /// Starts a new flash at full alpha.
    pub fn trigger(&mut self, duration: i64, color_r: i64, color_g: i64, color_b: i64, alpha: i64)
        requires
            0 <= duration <= DUR_LIMIT,
            0 <= alpha <= VEL_LIMIT,
        ensures
            final(self).duration == duration,
            final(self).total_duration == duration,
            final(self).color_r == color_r,
            final(self).color_g == color_g,
            final(self).color_b == color_b,
            final(self).max_alpha == alpha,
            final(self).wf(),
    {
        self.duration = duration;
        self.total_duration = duration;
        self.color_r = color_r;
        self.color_g = color_g;
        self.color_b = color_b;
        self.max_alpha = alpha;
    }

    /// True while the flash is still visible.
    pub fn is_active(&self) -> (r: bool)
        ensures
            r == (self.duration > 0),
    {
        self.duration > 0
    }

    /// The current alpha: the fraction of time left times the peak alpha.
    pub fn current_alpha(&self) -> (r: i64)
        requires
            self.wf(),
        ensures
            r == flash_alpha_spec(
                self.duration as int,
                self.total_duration as int,
                self.max_alpha as int,
            ),
            0 <= r <= self.max_alpha,
    {
        if self.total_duration <= 0 || self.duration <= 0 {
            0
        } else {
            proof {
                assert(self.duration as int * self.max_alpha as int
                    <= DUR_LIMIT as int * VEL_LIMIT as int) by (nonlinear_arith)
                    requires
                        0 < self.duration as int <= DUR_LIMIT as int,
                        0 <= self.max_alpha as int <= VEL_LIMIT as int,
                ;
                assert(self.duration as int * self.max_alpha as int >= 0) by (nonlinear_arith)
                    requires
                        0 < self.duration as int,
                        0 <= self.max_alpha as int,
                ;
                vstd::arithmetic::div_mod::lemma_div_pos_is_pos(
                    self.duration as int * self.max_alpha as int,
                    self.total_duration as int,
                );
                vstd::arithmetic::mul::lemma_mul_inequality(
                    self.duration as int,
                    self.total_duration as int,
                    self.max_alpha as int,
                );
                vstd::arithmetic::div_mod::lemma_div_is_ordered(
                    self.duration as int * self.max_alpha as int,
                    self.total_duration as int * self.max_alpha as int,
                    self.total_duration as int,
                );
                vstd::arithmetic::div_mod::lemma_div_multiples_vanish(
                    self.max_alpha as int,
                    self.total_duration as int,
                );
            }
            self.duration * self.max_alpha / self.total_duration
        }
    }
}

impl Default for ScreenFlashState {
    /// An inert flash.
    fn default() -> (flash: ScreenFlashState)
        ensures
            flash.duration == 0,
            flash.total_duration == 0,
            flash.color_r == 0,
            flash.color_g == 0,
            flash.color_b == 0,
            flash.max_alpha == 0,
            flash.wf(),
    {
        ScreenFlashState {
            duration: 0,
            total_duration: 0,
            color_r: 0,
            color_g: 0,
            color_b: 0,
            max_alpha: 0,
        }
    }
}

/// State of the playfield-edge flash raised on a score. Its time decay is
/// that of the screen flash; each border strip then scales it by a fixed
/// gradient multiplier.
#[derive(Clone, Copy, Debug, PartialEq, Eq, Structural)]
pub struct EdgeFlashState {
    /// Milliseconds of flash left; inert at or below zero.
    pub duration: i64,
    /// Length the flash started with, fixing the fade curve.
    pub total_duration: i64,
    /// Red channel of the strips in thousandths.
    pub color_r: i64,
    /// Green channel of the strips in thousandths.
    pub color_g: i64,
    /// Blue channel of the strips in thousandths.
    pub color_b: i64,
    /// Alpha at the moment of the trigger, before the strip multipliers.
    pub max_alpha: i64,
}

impl EdgeFlashState {
    /// Sane flash: bounded, with no more time left than it started with.
    pub open spec fn wf(self) -> bool {
        &&& -DT_LIMIT <= self.duration
        &&& self.duration <= self.total_duration <= DUR_LIMIT
        &&& 0 <= self.max_alpha <= VEL_LIMIT
    }

    /// Starts a new edge flash at full alpha.
    pub fn trigger(&mut self, duration: i64, color_r: i64, color_g: i64, color_b: i64, alpha: i64)
        requires
            0 <= duration <= DUR_LIMIT,
            0 <= alpha <= VEL_LIMIT,
        ensures
            final(self).duration == duration,
            final(self).total_duration == duration,
            final(self).color_r == color_r,
            final(self).color_g == color_g,
            final(self).color_b == color_b,
            final(self).max_alpha == alpha,
            final(self).wf(),
    {
        self.duration = duration;
        self.total_duration = duration;
        self.color_r = color_r;
        self.color_g = color_g;
        self.color_b = color_b;
        self.max_alpha = alpha;
    }

    /// True while the flash is still visible.
    pub fn is_active(&self) -> (r: bool)
        ensures
            r == (self.duration > 0),
    {
        self.duration > 0
    }

    /// The current alpha before the per-strip multiplier: the fraction of
    /// time left times the peak alpha.
    pub fn current_alpha(&self) -> (r: i64)
        requires
            self.wf(),
        ensures
            r == flash_alpha_spec(
                self.duration as int,
                self.total_duration as int,
                self.max_alpha as int,
            ),
            0 <= r <= self.max_alpha,
    {
        if self.total_duration <= 0 || self.duration <= 0 {
            0
        } else {
            proof {
                assert(self.duration as int * self.max_alpha as int
                    <= DUR_LIMIT as int * VEL_LIMIT as int) by (nonlinear_arith)
                    requires
                        0 < self.duration as int <= DUR_LIMIT as int,
                        0 <= self.max_alpha as int <= VEL_LIMIT as int,
                ;
                assert(self.duration as int * self.max_alpha as int >= 0) by (nonlinear_arith)
                    requires
                        0 < self.duration as int,
                        0 <= self.max_alpha as int,
                ;
                vstd::arithmetic::div_mod::lemma_div_pos_is_pos(
                    self.duration as int * self.max_alpha as int,
                    self.total_duration as int,
                );
                vstd::arithmetic::mul::lemma_mul_inequality(
                    self.duration as int,
                    self.total_duration as int,
                    self.max_alpha as int,
                );
                vstd::arithmetic::div_mod::lemma_div_is_ordered(
                    self.duration as int * self.max_alpha as int,
                    self.total_duration as int * self.max_alpha as int,
                    self.total_duration as int,
                );
                vstd::arithmetic::div_mod::lemma_div_multiples_vanish(
                    self.max_alpha as int,
                    self.total_duration as int,
                );
            }
            self.duration * self.max_alpha / self.total_duration
        }
    }
}

impl Default for EdgeFlashState {
    /// An inert flash.
    fn default() -> (flash: EdgeFlashState)
        ensures
            flash.duration == 0,
            flash.total_duration == 0,
            flash.color_r == 0,
            flash.color_g == 0,
            flash.color_b == 0,
            flash.max_alpha == 0,
            flash.wf(),
    {
        EdgeFlashState {
            duration: 0,
            total_duration: 0,
            color_r: 0,
            color_g: 0,
            color_b: 0,
            max_alpha: 0,
        }
    }
}

/// Raised when the actor flaps; carries the actor's position.
#[derive(Clone, Copy, Debug, PartialEq, Eq, Structural)]
pub struct FlapEvent {
    /// Horizontal position of the flap.
    pub x: i64,
    /// Vertical position of the flap.
    pub y: i64,
}

/// Raised when the actor passes a pipe pair.
#[derive(Clone, Copy, Debug, PartialEq, Eq, Structural)]
pub struct ScoreEvent;

/// Raised when the actor collides; carries the place of death.
#[derive(Clone, Copy, Debug, PartialEq, Eq, Structural)]
pub struct DeathEvent {
    /// Horizontal position of the collision.
    pub x: i64,
    /// Vertical position of the collision.
    pub y: i64,
}

} // verus!

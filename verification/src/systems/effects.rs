//! The visual feedback pipeline: screen shake, screen and edge flashes,
//! particles, and the squash and pop animations. Every updater runs once per
//! tick whatever the mode, decaying its own timer toward zero.

use vstd::prelude::*;

verus! {

use crate::components::{BirdSquashStretch, Particle, ParticleKind, ScorePopAnimation};
use crate::constants::{
    DEATH_FLASH_ALPHA, DEATH_FLASH_BLUE, DEATH_FLASH_DURATION, DEATH_FLASH_GREEN, DEATH_FLASH_RED,
    DT_LIMIT, DUR_LIMIT, FLAP_SQUASH_DURATION, FLAP_SQUASH_SCALE, FLAP_STRETCH_SCALE,
    SCORE_FLASH_ALPHA, SCORE_FLASH_BLUE, SCORE_FLASH_DURATION, SCORE_FLASH_GREEN, SCORE_FLASH_RED,
    DEATH_PARTICLE_COUNT, DEATH_PARTICLE_LIFETIME, DEATH_PARTICLE_SIZE_MAX,
    DEATH_PARTICLE_SIZE_MIN, DEATH_PARTICLE_SPEED, FLAP_PARTICLE_COUNT_MAX,
    FLAP_PARTICLE_COUNT_MIN, FLAP_PARTICLE_LIFETIME, FLAP_PARTICLE_SIZE_MAX,
    FLAP_PARTICLE_SIZE_MIN, SCORE_POP_DURATION, SCORE_POP_SCALE, SCREEN_SHAKE_DURATION,
    SCREEN_SHAKE_FREQUENCY, SCREEN_SHAKE_INTENSITY, VEL_LIMIT, WORLD_SCROLL_SPEED,
};
use crate::num::{
    clamp_i64, clamp_spec, div_trunc, lemma_div_trunc_bounds, lemma_div_trunc_ordered,
    mul_div_trunc,
};
use crate::resources::{flash_alpha_spec, EdgeFlashState, ScreenFlashState, ScreenShake};
use crate::rng::{draw_spec, fraction_of, lemma_rng_nth_step, rng_nth_state, xorshift_step, RandomSource};
use crate::trig::{cos_milli, sin_milli, sin_milli_spec, QUARTER_TURN_MILLI};

/// The shake's decay envelope: the fraction of the nominal shake length
/// still to run, in thousandths, floored at zero.
pub open spec fn shake_decay_spec(duration: int) -> int {
    if duration <= 0 {
        0
    } else {
        duration * 1000 / (SCREEN_SHAKE_DURATION as int)
    }
}

/// One axis of the camera displacement: a wave sample scaled by the
/// intensity, the decay envelope and a per-tick random jitter.
pub open spec fn shake_offset_spec(wave: int, intensity: int, decay: int, r: int) -> int {
    div_trunc(div_trunc(div_trunc(wave * intensity, 1000) * decay, 1000) * r, 10000)
}

/// Computes one axis of the camera displacement.
fn shake_component(wave: i64, intensity: i64, decay: i64, r: i64) -> (o: i64)
    requires
        -1000 <= wave <= 1000,
        0 <= intensity <= VEL_LIMIT,
        0 <= decay <= 4_000_000,
        0 <= r < 10000,
    ensures
        o == shake_offset_spec(wave as int, intensity as int, decay as int, r as int),
{
    proof {
        assert(-1000 * intensity as int <= wave as int * intensity as int <= 1000
            * intensity as int) by (nonlinear_arith)
            requires
                -1000 <= wave as int <= 1000,
                0 <= intensity as int,
        ;
        lemma_div_trunc_bounds(wave as int * intensity as int, 1000);
    }
    let a: i64 = mul_div_trunc(wave, intensity, 1000);
    proof {
        lemma_div_trunc_ordered(wave as int * intensity as int, 1000 * intensity as int, 1000);
        lemma_div_trunc_ordered(-1000 * intensity as int, wave as int * intensity as int, 1000);
        vstd::arithmetic::div_mod::lemma_div_multiples_vanish(intensity as int, 1000);
        assert(-(intensity as int) <= a as int <= intensity as int);
        assert(-(VEL_LIMIT as int) * 4_000_000 <= a as int * decay as int <= VEL_LIMIT as int
            * 4_000_000) by (nonlinear_arith)
            requires
                -(VEL_LIMIT as int) <= a as int <= VEL_LIMIT as int,
                0 <= decay as int <= 4_000_000,
        ;
        lemma_div_trunc_bounds(a as int * decay as int, 1000);
    }
    let b: i64 = mul_div_trunc(a, decay, 1000);
    proof {
        lemma_div_trunc_ordered(a as int * decay as int, 4_000_000_000_000_000, 1000);
        lemma_div_trunc_ordered(-4_000_000_000_000_000, a as int * decay as int, 1000);
        assert(-4_000_000_000_000 <= b as int <= 4_000_000_000_000);
        assert(-10000 * 4_000_000_000_000 <= b as int * r as int <= 10000 * 4_000_000_000_000)
            by (nonlinear_arith)
            requires
                -4_000_000_000_000 <= b as int <= 4_000_000_000_000,
                0 <= (r as int) < 10000,
        ;
    }
    mul_div_trunc(b, r, 10000)
}

/// Advances the screen shake and writes the camera displacement: two
/// out-of-phase waves scaled by a per-tick jitter and the decay envelope.
/// The displacement is reset to zero exactly when the shake expires, and an
/// inert shake touches nothing.
pub fn update_screen_shake(
    shake: &mut ScreenShake,
    rng: &mut RandomSource,
    offset_x: &mut i64,
    offset_y: &mut i64,
    dt: i64,
)
    requires
        old(shake).wf(),
        0 <= dt <= DT_LIMIT,
    ensures
        old(shake).duration <= 0 ==> *final(shake) == *old(shake) && *final(rng) == *old(rng)
            && *final(offset_x) == *old(offset_x) && *final(offset_y) == *old(offset_y),
        old(shake).duration > 0 ==> ({
            let elapsed = old(shake).elapsed + dt;
            let duration = old(shake).duration - dt;
            let r1 = fraction_of(xorshift_step(old(rng).state)) as int;
            let r2 = fraction_of(xorshift_step(xorshift_step(old(rng).state))) as int;
            &&& final(shake).elapsed == elapsed
            &&& final(shake).duration == duration
            &&& final(shake).intensity == old(shake).intensity
            &&& final(rng).state == xorshift_step(xorshift_step(old(rng).state))
            &&& duration > 0 ==> *final(offset_x) == shake_offset_spec(
                sin_milli_spec(elapsed * SCREEN_SHAKE_FREQUENCY),
                old(shake).intensity as int,
                shake_decay_spec(duration),
                r1,
            ) && *final(offset_y) == shake_offset_spec(
                sin_milli_spec(
                    elapsed * SCREEN_SHAKE_FREQUENCY * 13 / 10 + QUARTER_TURN_MILLI,
                ),
                old(shake).intensity as int,
                shake_decay_spec(duration),
                r2,
            )
            &&& duration <= 0 ==> *final(offset_x) == 0 && *final(offset_y) == 0
        }),
        final(shake).wf(),
{
    if !shake.is_active() {
        return ;
    }
    shake.elapsed = shake.elapsed + dt;
    shake.duration = shake.duration - dt;
    let decay: i64 = if shake.duration <= 0 {
        0
    } else {
        proof {
            vstd::arithmetic::div_mod::lemma_div_pos_is_pos(
                shake.duration as int * 1000,
                SCREEN_SHAKE_DURATION as int,
            );
            lemma_div_trunc_ordered(
                shake.duration as int * 1000,
                DUR_LIMIT as int * 1000,
                SCREEN_SHAKE_DURATION as int,
            );
        }
        shake.duration * 1000 / SCREEN_SHAKE_DURATION
    };
    let r1: i64 = rng.next_fraction() as i64;
    let r2: i64 = rng.next_fraction() as i64;
    let wave_x: i64 = sin_milli(shake.elapsed * SCREEN_SHAKE_FREQUENCY);
    let phase_y: i64 = shake.elapsed * SCREEN_SHAKE_FREQUENCY * 13 / 10;
    let wave_y: i64 = cos_milli(phase_y);
    let ox: i64 = shake_component(wave_x, shake.intensity, decay, r1);
    let oy: i64 = shake_component(wave_y, shake.intensity, decay, r2);
    if shake.duration > 0 {
        *offset_x = ox;
        *offset_y = oy;
    } else {
        *offset_x = 0;
        *offset_y = 0;
    }
}

/// Advances the full-screen flash and returns the overlay color and alpha to
/// draw this tick; transparent black once the flash has run out.
pub fn update_screen_flash(flash: &mut ScreenFlashState, dt: i64) -> (overlay: (i64, i64, i64, i64))
    requires
        old(flash).wf(),
        0 <= dt <= DT_LIMIT,
    ensures
        old(flash).duration <= 0 ==> *final(flash) == *old(flash) && overlay == (
            0i64,
            0i64,
            0i64,
            0i64,
        ),
        old(flash).duration > 0 ==> *final(flash) == (ScreenFlashState {
            duration: (old(flash).duration - dt) as i64,
            ..*old(flash)
        }) && overlay.0 == old(flash).color_r && overlay.1 == old(flash).color_g && overlay.2
            == old(flash).color_b && overlay.3 == flash_alpha_spec(
            old(flash).duration - dt,
            old(flash).total_duration as int,
            old(flash).max_alpha as int,
        ),
        final(flash).wf(),
{
    if !flash.is_active() {
        return (0, 0, 0, 0);
    }
    flash.duration = flash.duration - dt;
    let alpha: i64 = flash.current_alpha();
    (flash.color_r, flash.color_g, flash.color_b, alpha)
}

/// Advances the edge flash and returns the shared color and base alpha for
/// the border strips this tick; transparent black once it has run out. Each
/// strip then scales the base alpha by its own gradient multiplier.
pub fn update_edge_flash(flash: &mut EdgeFlashState, dt: i64) -> (overlay: (i64, i64, i64, i64))
    requires
        old(flash).wf(),
        0 <= dt <= DT_LIMIT,
    ensures
        old(flash).duration <= 0 ==> *final(flash) == *old(flash) && overlay == (
            0i64,
            0i64,
            0i64,
            0i64,
        ),
        old(flash).duration > 0 ==> *final(flash) == (EdgeFlashState {
            duration: (old(flash).duration - dt) as i64,
            ..*old(flash)
        }) && overlay.0 == old(flash).color_r && overlay.1 == old(flash).color_g && overlay.2
            == old(flash).color_b && overlay.3 == flash_alpha_spec(
            old(flash).duration - dt,
            old(flash).total_duration as int,
            old(flash).max_alpha as int,
        ),
        final(flash).wf(),
{
    if !flash.is_active() {
        return (0, 0, 0, 0);
    }
    flash.duration = flash.duration - dt;
    let alpha: i64 = flash.current_alpha();
    (flash.color_r, flash.color_g, flash.color_b, alpha)
}

/// One strip's alpha: the flash's decayed base alpha times the strip's
/// fixed gradient multiplier.
pub fn edge_strip_alpha(base_alpha: i64, multiplier: i64) -> (alpha: i64)
    requires
        0 <= base_alpha <= VEL_LIMIT,
        0 <= multiplier <= 1000,
    ensures
        alpha == div_trunc(base_alpha as int * multiplier as int, 1000),
        0 <= alpha <= base_alpha,
{
    proof {
        assert(0 <= base_alpha as int * multiplier as int <= base_alpha as int * 1000)
            by (nonlinear_arith)
            requires
                0 <= base_alpha as int,
                0 <= multiplier as int <= 1000,
        ;
        lemma_div_trunc_bounds(base_alpha as int * multiplier as int, 1000);
        lemma_div_trunc_ordered(
            base_alpha as int * multiplier as int,
            1000 * base_alpha as int,
            1000,
        );
        vstd::arithmetic::div_mod::lemma_div_multiples_vanish(base_alpha as int, 1000);
    }
    mul_div_trunc(base_alpha, multiplier, 1000)
}

/// Two to the `k`-th power, for small nonnegative `k`.
pub open spec fn pow2_small(k: int) -> int
    decreases k,
{
    if k <= 0 {
        1
    } else {
        2 * pow2_small(k - 1)
    }
}

/// Elastic-out easing in thousandths: an exponentially decaying wave around
/// the finish line, clamped into `[0, 1000]`. It starts at zero, ends at one,
/// and overshoots like a spring in between.
pub open spec fn elastic_out_spec(t: int) -> int {
    if t <= 0 {
        0
    } else if t >= 1000 {
        1000
    } else {
        let e = 10 * t;
        let decay = (1000 - (e % 1000) / 2) / pow2_small(e / 1000);
        let wave = sin_milli_spec(div_trunc((t - 75) * 20944, 1000));
        clamp_spec(1000 + div_trunc(decay * wave, 1000), 0, 1000)
    }
}

/// Computes the elastic-out easing of a progress fraction.
pub fn elastic_out(t: i64) -> (r: i64)
    requires
        0 <= t <= 1000,
    ensures
        r == elastic_out_spec(t as int),
        0 <= r <= 1000,
        t == 0 ==> r == 0,
        t == 1000 ==> r == 1000,
{
    if t == 0 {
        return 0;
    }
    if t == 1000 {
        return 1000;
    }
    let e: i64 = 10 * t;
    let k: i64 = e / 1000;
    let f: i64 = e % 1000;
    let p2: i64 = if k == 0 {
        1
    } else if k == 1 {
        2
    } else if k == 2 {
        4
    } else if k == 3 {
        8
    } else if k == 4 {
        16
    } else if k == 5 {
        32
    } else if k == 6 {
        64
    } else if k == 7 {
        128
    } else if k == 8 {
        256
    } else {
        512
    };
    proof {
        reveal_with_fuel(pow2_small, 11);
        assert(p2 == pow2_small(k as int));
    }
    let decay: i64 = (1000 - f / 2) / p2;
    let phase: i64 = mul_div_trunc(t - 75, 20944, 1000);
    let wave: i64 = sin_milli(phase);
    proof {
        lemma_div_trunc_bounds((1000 - f as int / 2), p2 as int);
        assert(0 <= decay <= 1000);
        assert(-1000 * 1000 <= decay as int * wave as int <= 1000 * 1000) by (nonlinear_arith)
            requires
                0 <= decay as int <= 1000,
                -1000 <= wave as int <= 1000,
        ;
        lemma_div_trunc_bounds(decay as int * wave as int, 1000);
    }
    let raw: i64 = 1000 + mul_div_trunc(decay, wave, 1000);
    clamp_i64(raw, 0, 1000)
}

/// Starts (or restarts) the score pop animation on the score text.
pub fn trigger_score_pop(pop: &mut Option<ScorePopAnimation>)
    ensures
        *final(pop) == Some(ScorePopAnimation { timer: 0, duration: SCORE_POP_DURATION }),
{
    *pop = Some(ScorePopAnimation { timer: 0, duration: SCORE_POP_DURATION });
}

/// Sane pop animation: a positive, bounded length, not yet finished.
pub open spec fn pop_wf(pop: Option<ScorePopAnimation>) -> bool {
    match pop {
        Option::None => true,
        Option::Some(a) => 0 < a.duration <= DUR_LIMIT && 0 <= a.timer < a.duration,
    }
}

/// The score text's scale while the pop runs: a half sine bump up to the pop
/// scale and back.
pub open spec fn pop_scale_spec(timer: int, duration: int) -> int {
    1000 + div_trunc(
        sin_milli_spec(div_trunc(timer * 1000, duration) * 3141 / 1000) * (SCORE_POP_SCALE - 1000),
        1000,
    )
}

/// Advances the score pop animation and returns the text scale to draw. The
/// animation removes itself on completion and leaves the scale neutral.
pub fn update_score_pop(pop: &mut Option<ScorePopAnimation>, dt: i64) -> (scale: i64)
    requires
        pop_wf(*old(pop)),
        0 <= dt <= DT_LIMIT,
    ensures
        (*old(pop)) is None ==> *final(pop) == *old(pop) && scale == 1000,
        (*old(pop)) matches Some(a) ==> (if a.timer + dt >= a.duration {
            *final(pop) == Option::<ScorePopAnimation>::None && scale == 1000
        } else {
            *final(pop) == Some(ScorePopAnimation { timer: (a.timer + dt) as i64, duration: a.duration }) && scale
                == pop_scale_spec(a.timer + dt, a.duration as int)
        }),
        pop_wf(*final(pop)),
{
    match *pop {
        Option::None => 1000,
        Option::Some(anim) => {
            let timer: i64 = anim.timer + dt;
            if timer >= anim.duration {
                *pop = None;
                1000
            } else {
                *pop = Some(ScorePopAnimation { timer, duration: anim.duration });
                proof {
                    vstd::arithmetic::div_mod::lemma_div_pos_is_pos(timer as int * 1000, anim.duration as int);
                    lemma_div_trunc_ordered(
                        timer as int * 1000,
                        anim.duration as int * 1000,
                        anim.duration as int,
                    );
                    vstd::arithmetic::div_mod::lemma_div_multiples_vanish(
                        1000,
                        anim.duration as int,
                    );
                }
                let progress: i64 = mul_div_trunc(timer, 1000, anim.duration);
                let wave: i64 = sin_milli(progress * 3141 / 1000);
                let bump: i64 = mul_div_trunc(wave, SCORE_POP_SCALE - 1000, 1000);
                1000 + bump
            }
        },
    }
}

/// Starts (or restarts) the actor's squash-and-stretch animation on a flap.
pub fn trigger_bird_squash(squash: &mut Option<BirdSquashStretch>)
    ensures
        *final(squash) == Some(
            BirdSquashStretch { timer: 0, duration: FLAP_SQUASH_DURATION, is_squash: true },
        ),
{
    *squash = Some(BirdSquashStretch { timer: 0, duration: FLAP_SQUASH_DURATION, is_squash: true });
}

/// Sane squash animation: a positive, bounded length, not yet finished.
pub open spec fn squash_wf(squash: Option<BirdSquashStretch>) -> bool {
    match squash {
        Option::None => true,
        Option::Some(a) => 0 < a.duration <= DUR_LIMIT && 0 <= a.timer < a.duration,
    }
}

/// The actor's horizontal scale while the squash runs: fully deformed at the
/// start, eased elastically back to neutral.
pub open spec fn squash_scale_x_spec(timer: int, duration: int) -> int {
    1000 + div_trunc(
        (FLAP_SQUASH_SCALE - 1000) * (1000 - elastic_out_spec(div_trunc(timer * 1000, duration))),
        1000,
    )
}

/// The actor's vertical scale while the squash runs.
pub open spec fn squash_scale_y_spec(timer: int, duration: int) -> int {
    1000 + div_trunc(
        (FLAP_STRETCH_SCALE - 1000) * (1000 - elastic_out_spec(div_trunc(timer * 1000, duration))),
        1000,
    )
}

/// Advances the squash-and-stretch animation and returns the actor's scale
/// pair to draw. The animation removes itself on completion and leaves the
/// scale neutral.
pub fn update_bird_squash(squash: &mut Option<BirdSquashStretch>, dt: i64) -> (scales: (i64, i64))
    requires
        squash_wf(*old(squash)),
        0 <= dt <= DT_LIMIT,
    ensures
        (*old(squash)) is None ==> *final(squash) == *old(squash) && scales == (1000i64, 1000i64),
        (*old(squash)) matches Some(a) ==> (if a.timer + dt >= a.duration {
            *final(squash) == Option::<BirdSquashStretch>::None && scales == (1000i64, 1000i64)
        } else {
            *final(squash) == Some(BirdSquashStretch { timer: (a.timer + dt) as i64, duration: a.duration, is_squash: a.is_squash })
                && scales.0 == squash_scale_x_spec(a.timer + dt, a.duration as int) && scales.1
                == squash_scale_y_spec(a.timer + dt, a.duration as int)
        }),
        squash_wf(*final(squash)),
{
    match *squash {
        Option::None => (1000, 1000),
        Option::Some(anim) => {
            let timer: i64 = anim.timer + dt;
            if timer >= anim.duration {
                *squash = None;
                (1000, 1000)
            } else {
                *squash = Some(
                    BirdSquashStretch {
                        timer,
                        duration: anim.duration,
                        is_squash: anim.is_squash,
                    },
                );
                proof {
                    vstd::arithmetic::div_mod::lemma_div_pos_is_pos(timer as int * 1000, anim.duration as int);
                    lemma_div_trunc_ordered(
                        timer as int * 1000,
                        anim.duration as int * 1000,
                        anim.duration as int,
                    );
                    vstd::arithmetic::div_mod::lemma_div_multiples_vanish(
                        1000,
                        anim.duration as int,
                    );
                }
                let progress: i64 = mul_div_trunc(timer, 1000, anim.duration);
                let eased: i64 = elastic_out(progress);
                let deform: i64 = 1000 - eased;
                let sx: i64 = 1000 + mul_div_trunc(FLAP_SQUASH_SCALE - 1000, deform, 1000);
                let sy: i64 = 1000 + mul_div_trunc(FLAP_STRETCH_SCALE - 1000, deform, 1000);
                (sx, sy)
            }
        },
    }
}

/// How far a particle may have drifted: a spawn-position budget plus the
/// distance its speeds could have covered over its life so far.
pub open spec fn particle_pos_bound(p: Particle) -> int {
    100_000_000_000 + (p.initial_lifetime - p.lifetime) * 2_000_000
}

/// Sane particle: alive, with bounded speeds, a position within its drift
/// budget, and a drawable size and scale.
pub open spec fn particle_wf(p: Particle) -> bool {
    &&& 0 < p.lifetime <= p.initial_lifetime <= DUR_LIMIT
    &&& -VEL_LIMIT <= p.velocity_x <= VEL_LIMIT
    &&& -VEL_LIMIT <= p.velocity_y <= VEL_LIMIT
    &&& -VEL_LIMIT <= p.world_velocity_x <= VEL_LIMIT
    &&& -VEL_LIMIT <= p.world_velocity_y <= VEL_LIMIT
    &&& -particle_pos_bound(p) <= p.x <= particle_pos_bound(p)
    &&& -particle_pos_bound(p) <= p.y <= particle_pos_bound(p)
    &&& 0 <= p.size <= 1_000_000
    &&& 0 <= p.scale <= 1000
}

/// A particle's visual scale from the fraction of its life left: a fast
/// ease-out growth over the first lived fraction, then a linear shrink back
/// to zero.
pub open spec fn particle_scale_spec(lifetime: int, initial: int) -> int
    recommends
        0 < lifetime <= initial,
{
    let ratio = lifetime * 1000 / initial;
    if ratio > 850 {
        let gp = (1000 - ratio) * 1000 / 150;
        1000 - (1000 - gp) * (1000 - gp) / 1000
    } else {
        ratio * 1000 / 850
    }
}

/// The scale curve never leaves `[0, 1000]`.
pub proof fn lemma_particle_scale_bounds(lifetime: int, initial: int)
    requires
        0 < lifetime <= initial,
    ensures
        0 <= particle_scale_spec(lifetime, initial) <= 1000,
{
    let ratio = lifetime * 1000 / initial;
    assert(0 < lifetime * 1000 <= initial * 1000) by (nonlinear_arith)
        requires
            0 < lifetime <= initial,
    ;
    vstd::arithmetic::div_mod::lemma_div_pos_is_pos(lifetime * 1000, initial);
    vstd::arithmetic::div_mod::lemma_div_is_ordered(lifetime * 1000, initial * 1000, initial);
    vstd::arithmetic::div_mod::lemma_div_multiples_vanish(1000, initial);
    assert(0 <= ratio <= 1000);
    if ratio > 850 {
        let gp = (1000 - ratio) * 1000 / 150;
        vstd::arithmetic::div_mod::lemma_div_pos_is_pos((1000 - ratio) * 1000, 150);
        assert(gp <= 1000);
        assert(0 <= (1000 - gp) * (1000 - gp) <= 1_000_000) by (nonlinear_arith)
            requires
                0 <= 1000 - gp <= 1000,
        ;
        vstd::arithmetic::div_mod::lemma_div_pos_is_pos((1000 - gp) * (1000 - gp), 1000);
        vstd::arithmetic::div_mod::lemma_div_is_ordered(
            (1000 - gp) * (1000 - gp),
            1_000_000,
            1000,
        );
    } else {
        vstd::arithmetic::div_mod::lemma_div_pos_is_pos(ratio * 1000, 850);
        vstd::arithmetic::div_mod::lemma_div_is_ordered(ratio * 1000, 850int * 1000, 850);
        vstd::arithmetic::div_mod::lemma_div_multiples_vanish(1000, 850);
    }
}

/// A particle one tick later: its life shortened, drifted by its own speed
/// and, while a round is playing, by the world scroll; its drift speed
/// damped, and its scale moved along the two-phase curve.
pub open spec fn aged_particle_spec(p: Particle, playing: bool, dt: int) -> Particle {
    let lifetime = p.lifetime - dt;
    let x1 = p.x + div_trunc(p.velocity_x * dt, 1000);
    let y1 = p.y + div_trunc(p.velocity_y * dt, 1000);
    let x2 = if playing {
        x1 + div_trunc(p.world_velocity_x * dt, 1000)
    } else {
        x1
    };
    let y2 = if playing {
        y1 + div_trunc(p.world_velocity_y * dt, 1000)
    } else {
        y1
    };
    Particle {
        x: x2 as i64,
        y: y2 as i64,
        velocity_x: div_trunc(p.velocity_x * 98, 100) as i64,
        velocity_y: div_trunc(p.velocity_y * 98, 100) as i64,
        lifetime: lifetime as i64,
        scale: particle_scale_spec(lifetime, p.initial_lifetime as int) as i64,
        ..p
    }
}

/// A bounded speed over one tick moves a position by a bounded amount.
proof fn lemma_velocity_step(v: int, dt: int)
    requires
        -VEL_LIMIT <= v <= VEL_LIMIT,
        0 <= dt <= DT_LIMIT,
    ensures
        -0x7fff_ffff_ffff_ffff <= v * dt <= 0x7fff_ffff_ffff_ffff,
        -1_000_000 * dt <= div_trunc(v * dt, 1000) <= 1_000_000 * dt,
{
    assert(-(VEL_LIMIT as int) * dt <= v * dt <= VEL_LIMIT as int * dt) by (nonlinear_arith)
        requires
            -(VEL_LIMIT as int) <= v <= VEL_LIMIT as int,
            0 <= dt,
    ;
    assert(VEL_LIMIT as int * dt <= VEL_LIMIT as int * DT_LIMIT) by (nonlinear_arith)
        requires
            0 <= dt <= DT_LIMIT as int,
    ;
    lemma_div_trunc_ordered(v * dt, VEL_LIMIT as int * dt, 1000);
    lemma_div_trunc_ordered(-(VEL_LIMIT as int) * dt, v * dt, 1000);
    assert(VEL_LIMIT as int * dt == 1000 * (1_000_000 * dt));
    vstd::arithmetic::div_mod::lemma_div_multiples_vanish(1_000_000 * dt, 1000);
    assert(div_trunc(VEL_LIMIT as int * dt, 1000) == 1_000_000 * dt);
    assert(-(VEL_LIMIT as int) * dt == -(VEL_LIMIT as int * dt)) by (nonlinear_arith);
    assert(div_trunc(-(VEL_LIMIT as int) * dt, 1000) == -(1_000_000 * dt));
}

/// Ages one surviving particle by `dt` milliseconds.
fn age_particle(p: &Particle, playing: bool, dt: i64) -> (q: Particle)
    requires
        particle_wf(*p),
        0 <= dt <= DT_LIMIT,
        dt < p.lifetime,
    ensures
        q == aged_particle_spec(*p, playing, dt as int),
        particle_wf(q),
{
    proof {
        lemma_velocity_step(p.velocity_x as int, dt as int);
        lemma_velocity_step(p.velocity_y as int, dt as int);
        lemma_velocity_step(p.world_velocity_x as int, dt as int);
        lemma_velocity_step(p.world_velocity_y as int, dt as int);
        lemma_damping_bounds(p.velocity_x as int);
        lemma_damping_bounds(p.velocity_y as int);
        lemma_particle_scale_bounds(p.lifetime - dt, p.initial_lifetime as int);
    }
    let lifetime: i64 = p.lifetime - dt;
    let mut x: i64 = p.x + mul_div_trunc(p.velocity_x, dt, 1000);
    let mut y: i64 = p.y + mul_div_trunc(p.velocity_y, dt, 1000);
    if playing {
        x = x + mul_div_trunc(p.world_velocity_x, dt, 1000);
        y = y + mul_div_trunc(p.world_velocity_y, dt, 1000);
    }
    let vx: i64 = mul_div_trunc(p.velocity_x, 98, 100);
    let vy: i64 = mul_div_trunc(p.velocity_y, 98, 100);
    proof {
        vstd::arithmetic::div_mod::lemma_div_pos_is_pos(lifetime as int * 1000, p.initial_lifetime as int);
        lemma_div_trunc_ordered(
            lifetime as int * 1000,
            p.initial_lifetime as int * 1000,
            p.initial_lifetime as int,
        );
        vstd::arithmetic::div_mod::lemma_div_multiples_vanish(1000, p.initial_lifetime as int);
    }
    let ratio: i64 = mul_div_trunc(lifetime, 1000, p.initial_lifetime);
    let scale: i64 = if ratio > 850 {
        let gp: i64 = (1000 - ratio) * 1000 / 150;
        proof {
            vstd::arithmetic::div_mod::lemma_div_pos_is_pos((1000 - ratio as int) * 1000, 150);
        }
        1000 - (1000 - gp) * (1000 - gp) / 1000
    } else {
        proof {
            vstd::arithmetic::div_mod::lemma_div_pos_is_pos(ratio as int * 1000, 850);
        }
        ratio * 1000 / 850
    };
    Particle {
        x,
        y,
        velocity_x: vx,
        velocity_y: vy,
        world_velocity_x: p.world_velocity_x,
        world_velocity_y: p.world_velocity_y,
        lifetime,
        initial_lifetime: p.initial_lifetime,
        size: p.size,
        scale,
        color_r: p.color_r,
        color_g: p.color_g,
        color_b: p.color_b,
        alpha: p.alpha,
        kind: p.kind,
    }
}

/// Damping by a fraction under one never grows a speed's magnitude.
proof fn lemma_damping_bounds(v: int)
    ensures
        v >= 0 ==> 0 <= div_trunc(v * 98, 100) <= v,
        v <= 0 ==> v <= div_trunc(v * 98, 100) <= 0,
{
    vstd::arithmetic::div_mod::lemma_div_multiples_vanish(v, 100);
    vstd::arithmetic::div_mod::lemma_div_multiples_vanish(-v, 100);
    assert(v * 100 == 100 * v) by (nonlinear_arith);
    if v >= 0 {
        assert(0 <= v * 98 <= v * 100) by (nonlinear_arith)
            requires
                v >= 0,
        ;
        lemma_div_trunc_bounds(v * 98, 100);
        lemma_div_trunc_ordered(v * 98, 100 * v, 100);
    } else {
        assert(v * 100 <= v * 98 <= 0) by (nonlinear_arith)
            requires
                v <= 0,
        ;
        lemma_div_trunc_bounds(v * 98, 100);
        lemma_div_trunc_ordered(100 * v, v * 98, 100);
        assert(div_trunc(100 * v, 100) == v) by {
            assert(100 * v <= 0);
            assert(-(100 * v) == 100 * (-v));
        }
    }
}

/// Ages every particle by one tick and removes those whose life ran out,
/// keeping the order of the rest. World scroll applies only while a round is
/// playing.
pub fn update_particles(particles: &mut Vec<Particle>, playing: bool, dt: i64)
    requires
        0 <= dt <= DT_LIMIT,
        forall|i: int| 0 <= i < old(particles)@.len() ==> particle_wf(#[trigger] old(
            particles,
        )@[i]),
    ensures
        final(particles)@ == old(particles)@.filter(|p: Particle| p.lifetime > dt).map_values(
            |p: Particle| aged_particle_spec(p, playing, dt as int),
        ),
        forall|i: int| 0 <= i < final(particles)@.len() ==> particle_wf(
            #[trigger] final(particles)@[i],
        ),
{
    let ghost alive = |p: Particle| p.lifetime > dt;
    let ghost age = |p: Particle| aged_particle_spec(p, playing, dt as int);
    let mut kept: Vec<Particle> = Vec::new();
    let mut idx: usize = 0;
    proof {
        assert(old(particles)@.take(0int).filter(alive).map_values(age) =~= Seq::<
            Particle,
        >::empty());
    }
    while idx < particles.len()
        invariant
            0 <= idx <= particles@.len(),
            particles@ == old(particles)@,
            0 <= dt <= DT_LIMIT,
            alive == (|p: Particle| p.lifetime > dt),
            age == (|p: Particle| aged_particle_spec(p, playing, dt as int)),
            forall|i: int| 0 <= i < particles@.len() ==> particle_wf(#[trigger] particles@[i]),
            kept@ == particles@.take(idx as int).filter(alive).map_values(age),
            forall|i: int| 0 <= i < kept@.len() ==> particle_wf(#[trigger] kept@[i]),
        decreases particles@.len() - idx,
    {
        let p = particles[idx];
        proof {
            let prefix = particles@.take(idx as int);
            let next = particles@.take(idx as int + 1);
            assert(next.drop_last() =~= prefix);
            assert(next.last() == p);
            reveal(Seq::filter);
            if alive(p) {
                assert(next.filter(alive) == prefix.filter(alive).push(p));
                assert(next.filter(alive).map_values(age) =~= prefix.filter(alive).map_values(
                    age,
                ).push(age(p)));
            } else {
                assert(next.filter(alive) == prefix.filter(alive));
            }
        }
        if p.lifetime > dt {
            let aged = age_particle(&p, playing, dt);
            kept.push(aged);
        }
        idx = idx + 1;
    }
    proof {
        assert(particles@.take(particles@.len() as int) =~= particles@);
    }
    *particles = kept;
}

/// How many particles one flap burst holds, drawn from its first fraction.
pub open spec fn flap_count_spec(r0: int) -> int {
    FLAP_PARTICLE_COUNT_MIN as int + div_trunc(
        r0 * (FLAP_PARTICLE_COUNT_MAX - FLAP_PARTICLE_COUNT_MIN + 1) as int,
        10000,
    )
}

/// The direction of one puff in a flap burst: the burst's base direction,
/// an even share of the full turn, and a little jitter.
pub open spec fn flap_angle_spec(base_angle: int, j: int, count: int, r_jit: int) -> int {
    base_angle + div_trunc(j * 6283, count) + div_trunc((r_jit - 5000) * 600, 10000)
}

/// One puff of a flap burst: a slow white dot drifting outward from just
/// below the flap position, scrolling with the world, starting at scale zero.
pub open spec fn flap_particle_spec(
    x: int,
    y: int,
    base_angle: int,
    j: int,
    count: int,
    r_jit: int,
    r_off: int,
    r_drift: int,
    r_jx: int,
    r_size: int,
    r_life: int,
) -> Particle {
    let angle = flap_angle_spec(base_angle, j, count, r_jit);
    let dist = 5000 + div_trunc(r_off * 8000, 10000);
    let drift = 10000 + div_trunc(r_drift * 15000, 10000);
    let cosv = sin_milli_spec(angle + QUARTER_TURN_MILLI);
    let sinv = sin_milli_spec(angle);
    Particle {
        x: (x + div_trunc(cosv * dist, 1000)) as i64,
        y: (y + div_trunc(sinv * dist, 1000) - 9000) as i64,
        velocity_x: (div_trunc(cosv * drift, 1000) + div_trunc((r_jx - 5000) * 8000, 10000)) as i64,
        velocity_y: (div_trunc(sinv * drift, 1000) - 3000) as i64,
        world_velocity_x: (-WORLD_SCROLL_SPEED) as i64,
        world_velocity_y: 0,
        lifetime: div_trunc(
            FLAP_PARTICLE_LIFETIME as int * (7000 + div_trunc(r_life * 3000, 10000)),
            10000,
        ) as i64,
        initial_lifetime: FLAP_PARTICLE_LIFETIME,
        size: (FLAP_PARTICLE_SIZE_MIN + div_trunc(
            r_size * (FLAP_PARTICLE_SIZE_MAX - FLAP_PARTICLE_SIZE_MIN) as int,
            10000,
        )) as i64,
        scale: 0,
        color_r: 1000,
        color_g: 1000,
        color_b: 1000,
        alpha: 700,
        kind: ParticleKind::Flap,
    }
}

/// Spawns the puff burst of one flap at the flap position: a random count of
/// white particles spread around a random base direction, each with its own
/// jitter, drift, size and lifetime.
pub fn spawn_flap_particles(x: i64, y: i64, rng: &mut RandomSource) -> (burst: Vec<Particle>)
    requires
        -50_000_000_000 <= x <= 50_000_000_000,
        -50_000_000_000 <= y <= 50_000_000_000,
    ensures
        ({
            let s = old(rng).state;
            let count = flap_count_spec(draw_spec(s, 1));
            let base_angle = div_trunc(draw_spec(s, 2) * 6283, 10000);
            &&& burst@.len() == count
            &&& final(rng).state == rng_nth_state(s, (2 + 6 * count) as nat)
            &&& forall|j: int|
                0 <= j < count ==> #[trigger] burst@[j] == flap_particle_spec(
                    x as int,
                    y as int,
                    base_angle,
                    j,
                    count,
                    draw_spec(s, 3 + 6 * j),
                    draw_spec(s, 4 + 6 * j),
                    draw_spec(s, 5 + 6 * j),
                    draw_spec(s, 6 + 6 * j),
                    draw_spec(s, 7 + 6 * j),
                    draw_spec(s, 8 + 6 * j),
                )
        }),
        forall|j: int| 0 <= j < burst@.len() ==> particle_wf(#[trigger] burst@[j]),
{
    let ghost s = rng.state;
    let r0: i64 = rng.next_fraction() as i64;
    let count: u32 = FLAP_PARTICLE_COUNT_MIN + ((r0 * 4) / 10000) as u32;
    proof {
        lemma_rng_nth_step(s, 0);
        assert(count == flap_count_spec(draw_spec(s, 1)));
        assert(3 <= count <= 6);
    }
    let rb: i64 = rng.next_fraction() as i64;
    let base_angle: i64 = rb * 6283 / 10000;
    proof {
        lemma_rng_nth_step(s, 1);
        vstd::arithmetic::div_mod::lemma_div_pos_is_pos(rb as int * 6283, 10000);
        assert(base_angle == div_trunc(draw_spec(s, 2) * 6283, 10000));
        assert(0 <= base_angle <= 6283);
    }
    let mut burst: Vec<Particle> = Vec::new();
    let mut j: u32 = 0;
    while j < count
        invariant
            0 <= j <= count,
            3 <= count <= 6,
            -50_000_000_000 <= x <= 50_000_000_000,
            -50_000_000_000 <= y <= 50_000_000_000,
            0 <= base_angle <= 6283,
            count == flap_count_spec(draw_spec(s, 1)),
            base_angle == div_trunc(draw_spec(s, 2) * 6283, 10000),
            rng.state == rng_nth_state(s, (2 + 6 * j) as nat),
            burst@.len() == j,
            forall|i: int|
                0 <= i < j ==> #[trigger] burst@[i] == flap_particle_spec(
                    x as int,
                    y as int,
                    base_angle as int,
                    i,
                    count as int,
                    draw_spec(s, 3 + 6 * i),
                    draw_spec(s, 4 + 6 * i),
                    draw_spec(s, 5 + 6 * i),
                    draw_spec(s, 6 + 6 * i),
                    draw_spec(s, 7 + 6 * i),
                    draw_spec(s, 8 + 6 * i),
                ),
            forall|i: int| 0 <= i < burst@.len() ==> particle_wf(#[trigger] burst@[i]),
        decreases count - j,
    {
        proof {
            lemma_rng_nth_step(s, (2 + 6 * j) as nat);
        }
        let r_jit: i64 = rng.next_fraction() as i64;
        proof {
            lemma_rng_nth_step(s, (3 + 6 * j) as nat);
        }
        let r_off: i64 = rng.next_fraction() as i64;
        proof {
            lemma_rng_nth_step(s, (4 + 6 * j) as nat);
        }
        let r_drift: i64 = rng.next_fraction() as i64;
        proof {
            lemma_rng_nth_step(s, (5 + 6 * j) as nat);
        }
        let r_jx: i64 = rng.next_fraction() as i64;
        proof {
            lemma_rng_nth_step(s, (6 + 6 * j) as nat);
        }
        let r_size: i64 = rng.next_fraction() as i64;
        proof {
            lemma_rng_nth_step(s, (7 + 6 * j) as nat);
        }
        let r_life: i64 = rng.next_fraction() as i64;
        let share: i64 = (j as i64) * 6283 / (count as i64);
        proof {
            vstd::arithmetic::div_mod::lemma_div_pos_is_pos(j as int * 6283, count as int);
        }
        let jitter: i64 = mul_div_trunc(r_jit - 5000, 600, 10000);
        let angle: i64 = base_angle + share + jitter;
        proof {
            lemma_div_trunc_bounds((r_jit as int - 5000) * 600, 10000);
            assert(-3_000_000 <= (r_jit as int - 5000) * 600 <= 3_000_000) by (nonlinear_arith)
                requires
                    -5000 <= r_jit as int - 5000 < 5000,
            ;
            assert(0 <= j as int * 6283 <= 6283 * 6) by (nonlinear_arith)
                requires
                    0 <= j as int <= 6,
            ;
            lemma_div_trunc_bounds(j as int * 6283, count as int);
            assert(angle == flap_angle_spec(base_angle as int, j as int, count as int, r_jit as int));
        }
        let dist: i64 = 5000 + mul_div_trunc(r_off, 8000, 10000);
        let drift: i64 = 10000 + mul_div_trunc(r_drift, 15000, 10000);
        proof {
            vstd::arithmetic::div_mod::lemma_div_pos_is_pos(r_off as int * 8000, 10000);
            lemma_div_trunc_ordered(r_off as int * 8000, 10000int * 8000, 10000);
            vstd::arithmetic::div_mod::lemma_div_pos_is_pos(r_drift as int * 15000, 10000);
            lemma_div_trunc_ordered(r_drift as int * 15000, 10000int * 15000, 10000);
            assert(5000 <= dist <= 13000);
            assert(10000 <= drift <= 25000);
        }
        let cosv: i64 = cos_milli(angle);
        let sinv: i64 = sin_milli(angle);
        proof {
            assert(-1000 * 13000 <= cosv as int * dist as int <= 1000 * 13000) by (nonlinear_arith)
                requires
                    -1000 <= cosv as int <= 1000,
                    0 <= dist as int <= 13000,
            ;
            assert(-1000 * 13000 <= sinv as int * dist as int <= 1000 * 13000) by (nonlinear_arith)
                requires
                    -1000 <= sinv as int <= 1000,
                    0 <= dist as int <= 13000,
            ;
            assert(-1000 * 25000 <= cosv as int * drift as int <= 1000 * 25000) by (nonlinear_arith)
                requires
                    -1000 <= cosv as int <= 1000,
                    0 <= drift as int <= 25000,
            ;
            assert(-1000 * 25000 <= sinv as int * drift as int <= 1000 * 25000) by (nonlinear_arith)
                requires
                    -1000 <= sinv as int <= 1000,
                    0 <= drift as int <= 25000,
            ;
            lemma_div_trunc_bounds(cosv as int * dist as int, 1000);
            lemma_div_trunc_bounds(sinv as int * dist as int, 1000);
            lemma_div_trunc_bounds(cosv as int * drift as int, 1000);
            lemma_div_trunc_bounds(sinv as int * drift as int, 1000);
            lemma_div_trunc_bounds((r_jx as int - 5000) * 8000, 10000);
            assert(-40_000_000 <= (r_jx as int - 5000) * 8000 <= 40_000_000) by (nonlinear_arith)
                requires
                    -5000 <= r_jx as int - 5000 < 5000,
            ;
            vstd::arithmetic::div_mod::lemma_div_pos_is_pos(r_size as int * 6000, 10000);
            lemma_div_trunc_ordered(r_size as int * 6000, 10000int * 6000, 10000);
            vstd::arithmetic::div_mod::lemma_div_pos_is_pos(r_life as int * 3000, 10000);
            lemma_div_trunc_ordered(r_life as int * 3000, 10000int * 3000, 10000);
        }
        let px: i64 = x + mul_div_trunc(cosv, dist, 1000);
        let py: i64 = y + mul_div_trunc(sinv, dist, 1000) - 9000;
        let vx: i64 = mul_div_trunc(cosv, drift, 1000) + mul_div_trunc(r_jx - 5000, 8000, 10000);
        let vy: i64 = mul_div_trunc(sinv, drift, 1000) - 3000;
        let size: i64 = FLAP_PARTICLE_SIZE_MIN + mul_div_trunc(
            r_size,
            FLAP_PARTICLE_SIZE_MAX - FLAP_PARTICLE_SIZE_MIN,
            10000,
        );
        let life_frac: i64 = 7000 + mul_div_trunc(r_life, 3000, 10000);
        proof {
            vstd::arithmetic::div_mod::lemma_div_pos_is_pos(
                FLAP_PARTICLE_LIFETIME as int * life_frac as int,
                10000,
            );
            lemma_div_trunc_ordered(
                FLAP_PARTICLE_LIFETIME as int * life_frac as int,
                10000int * FLAP_PARTICLE_LIFETIME as int,
                10000,
            );
            vstd::arithmetic::div_mod::lemma_div_multiples_vanish(
                FLAP_PARTICLE_LIFETIME as int,
                10000,
            );
            vstd::arithmetic::div_mod::lemma_div_non_zero(
                FLAP_PARTICLE_LIFETIME as int * life_frac as int,
                10000,
            );
        }
        let lifetime: i64 = mul_div_trunc(FLAP_PARTICLE_LIFETIME, life_frac, 10000);
        let particle = Particle {
            x: px,
            y: py,
            velocity_x: vx,
            velocity_y: vy,
            world_velocity_x: -WORLD_SCROLL_SPEED,
            world_velocity_y: 0,
            lifetime,
            initial_lifetime: FLAP_PARTICLE_LIFETIME,
            size,
            scale: 0,
            color_r: 1000,
            color_g: 1000,
            color_b: 1000,
            alpha: 700,
            kind: ParticleKind::Flap,
        };
        proof {
            assert(particle == flap_particle_spec(
                x as int,
                y as int,
                base_angle as int,
                j as int,
                count as int,
                draw_spec(s, 3 + 6 * j as int),
                draw_spec(s, 4 + 6 * j as int),
                draw_spec(s, 5 + 6 * j as int),
                draw_spec(s, 6 + 6 * j as int),
                draw_spec(s, 7 + 6 * j as int),
                draw_spec(s, 8 + 6 * j as int),
            ));
            assert(particle_wf(particle));
        }
        burst.push(particle);
        j = j + 1;
    }
    burst
}

/// The palette of the death burst: warm shades picked by a drawn index.
pub open spec fn death_color_spec(idx: int) -> (int, int, int) {
    if idx == 0 {
        (1000, 800, 0)
    } else if idx == 1 {
        (1000, 600, 0)
    } else {
        (1000, 400, 0)
    }
}

/// One shard of a death burst: a fast warm-colored dot thrown in a random
/// direction with extra upward momentum, indifferent to the world scroll.
pub open spec fn death_particle_spec(
    x: int,
    y: int,
    r_angle: int,
    r_speed: int,
    r_size: int,
    r_color: int,
    r_life: int,
) -> Particle {
    let angle = div_trunc(r_angle * 6283, 10000);
    let speed = div_trunc(
        DEATH_PARTICLE_SPEED as int * (3000 + div_trunc(r_speed * 7000, 10000)),
        10000,
    );
    let cosv = sin_milli_spec(angle + QUARTER_TURN_MILLI);
    let sinv = sin_milli_spec(angle);
    let color = death_color_spec(div_trunc(r_color * 3, 10000));
    Particle {
        x: x as i64,
        y: y as i64,
        velocity_x: div_trunc(cosv * speed, 1000) as i64,
        velocity_y: div_trunc(div_trunc(sinv * speed, 1000) * 1500, 1000) as i64,
        world_velocity_x: 0,
        world_velocity_y: 0,
        lifetime: div_trunc(
            DEATH_PARTICLE_LIFETIME as int * (6000 + div_trunc(r_life * 4000, 10000)),
            10000,
        ) as i64,
        initial_lifetime: DEATH_PARTICLE_LIFETIME,
        size: (DEATH_PARTICLE_SIZE_MIN + div_trunc(
            r_size * (DEATH_PARTICLE_SIZE_MAX - DEATH_PARTICLE_SIZE_MIN) as int,
            10000,
        )) as i64,
        scale: 1000,
        color_r: color.0 as i64,
        color_g: color.1 as i64,
        color_b: color.2 as i64,
        alpha: 1000,
        kind: ParticleKind::Death,
    }
}

/// Spawns the radial burst of one death at the place of death: a fixed count
/// of warm-colored shards that keep their place in the world.
pub fn spawn_death_particles(x: i64, y: i64, rng: &mut RandomSource) -> (burst: Vec<Particle>)
    requires
        -50_000_000_000 <= x <= 50_000_000_000,
        -50_000_000_000 <= y <= 50_000_000_000,
    ensures
        burst@.len() == DEATH_PARTICLE_COUNT,
        final(rng).state == rng_nth_state(old(rng).state, (5 * DEATH_PARTICLE_COUNT) as nat),
        forall|j: int|
            0 <= j < DEATH_PARTICLE_COUNT ==> #[trigger] burst@[j] == death_particle_spec(
                x as int,
                y as int,
                draw_spec(old(rng).state, 1 + 5 * j),
                draw_spec(old(rng).state, 2 + 5 * j),
                draw_spec(old(rng).state, 3 + 5 * j),
                draw_spec(old(rng).state, 4 + 5 * j),
                draw_spec(old(rng).state, 5 + 5 * j),
            ),
        forall|j: int| 0 <= j < burst@.len() ==> particle_wf(#[trigger] burst@[j]),
{
    let ghost s = rng.state;
    let mut burst: Vec<Particle> = Vec::new();
    let mut j: u32 = 0;
    while j < DEATH_PARTICLE_COUNT
        invariant
            0 <= j <= DEATH_PARTICLE_COUNT,
            -50_000_000_000 <= x <= 50_000_000_000,
            -50_000_000_000 <= y <= 50_000_000_000,
            rng.state == rng_nth_state(s, (5 * j) as nat),
            burst@.len() == j,
            forall|i: int|
                0 <= i < j ==> #[trigger] burst@[i] == death_particle_spec(
                    x as int,
                    y as int,
                    draw_spec(s, 1 + 5 * i),
                    draw_spec(s, 2 + 5 * i),
                    draw_spec(s, 3 + 5 * i),
                    draw_spec(s, 4 + 5 * i),
                    draw_spec(s, 5 + 5 * i),
                ),
            forall|i: int| 0 <= i < burst@.len() ==> particle_wf(#[trigger] burst@[i]),
        decreases DEATH_PARTICLE_COUNT - j,
    {
        proof {
            lemma_rng_nth_step(s, (5 * j) as nat);
        }
        let r_angle: i64 = rng.next_fraction() as i64;
        proof {
            lemma_rng_nth_step(s, (1 + 5 * j) as nat);
        }
        let r_speed: i64 = rng.next_fraction() as i64;
        proof {
            lemma_rng_nth_step(s, (2 + 5 * j) as nat);
        }
        let r_size: i64 = rng.next_fraction() as i64;
        proof {
            lemma_rng_nth_step(s, (3 + 5 * j) as nat);
        }
        let r_color: i64 = rng.next_fraction() as i64;
        proof {
            lemma_rng_nth_step(s, (4 + 5 * j) as nat);
        }
        let r_life: i64 = rng.next_fraction() as i64;
        let angle: i64 = r_angle * 6283 / 10000;
        proof {
            vstd::arithmetic::div_mod::lemma_div_pos_is_pos(r_angle as int * 6283, 10000);
        }
        let speed_frac: i64 = 3000 + mul_div_trunc(r_speed, 7000, 10000);
        proof {
            vstd::arithmetic::div_mod::lemma_div_pos_is_pos(r_speed as int * 7000, 10000);
            lemma_div_trunc_ordered(r_speed as int * 7000, 10000int * 7000, 10000);
            vstd::arithmetic::div_mod::lemma_div_pos_is_pos(
                DEATH_PARTICLE_SPEED as int * speed_frac as int,
                10000,
            );
            lemma_div_trunc_ordered(
                DEATH_PARTICLE_SPEED as int * speed_frac as int,
                10000int * DEATH_PARTICLE_SPEED as int,
                10000,
            );
            vstd::arithmetic::div_mod::lemma_div_multiples_vanish(
                DEATH_PARTICLE_SPEED as int,
                10000,
            );
        }
        let speed: i64 = mul_div_trunc(DEATH_PARTICLE_SPEED, speed_frac, 10000);
        let cosv: i64 = cos_milli(angle);
        let sinv: i64 = sin_milli(angle);
        proof {
            assert(-1000 * 200_000 <= cosv as int * speed as int <= 1000 * 200_000)
                by (nonlinear_arith)
                requires
                    -1000 <= cosv as int <= 1000,
                    0 <= speed as int <= 200_000,
            ;
            assert(-1000 * 200_000 <= sinv as int * speed as int <= 1000 * 200_000)
                by (nonlinear_arith)
                requires
                    -1000 <= sinv as int <= 1000,
                    0 <= speed as int <= 200_000,
            ;
            lemma_div_trunc_bounds(cosv as int * speed as int, 1000);
            lemma_div_trunc_bounds(sinv as int * speed as int, 1000);
        }
        let vx: i64 = mul_div_trunc(cosv, speed, 1000);
        let vy0: i64 = mul_div_trunc(sinv, speed, 1000);
        proof {
            lemma_div_trunc_bounds(vy0 as int * 1500, 1000);
            lemma_div_trunc_ordered(vy0 as int * 1500, 200_000int * 1500, 1000);
            lemma_div_trunc_ordered((-200_000int) * 1500, vy0 as int * 1500, 1000);
            assert(vy0 as int * 1500 <= 200_000 * 1500) by (nonlinear_arith)
                requires
                    vy0 as int <= 200_000,
            ;
            assert(-200_000 * 1500 <= vy0 as int * 1500) by (nonlinear_arith)
                requires
                    -200_000 <= vy0 as int,
            ;
        }
        let vy: i64 = mul_div_trunc(vy0, 1500, 1000);
        let size: i64 = DEATH_PARTICLE_SIZE_MIN + mul_div_trunc(
            r_size,
            DEATH_PARTICLE_SIZE_MAX - DEATH_PARTICLE_SIZE_MIN,
            10000,
        );
        proof {
            vstd::arithmetic::div_mod::lemma_div_pos_is_pos(r_size as int * 6000, 10000);
            lemma_div_trunc_ordered(r_size as int * 6000, 10000int * 6000, 10000);
        }
        let color_idx: i64 = mul_div_trunc(r_color, 3, 10000);
        proof {
            vstd::arithmetic::div_mod::lemma_div_pos_is_pos(r_color as int * 3, 10000);
            lemma_div_trunc_ordered(r_color as int * 3, 10000int * 3, 10000);
        }
        let color: (i64, i64, i64) = if color_idx == 0 {
            (1000, 800, 0)
        } else if color_idx == 1 {
            (1000, 600, 0)
        } else {
            (1000, 400, 0)
        };
        let life_frac: i64 = 6000 + mul_div_trunc(r_life, 4000, 10000);
        proof {
            vstd::arithmetic::div_mod::lemma_div_pos_is_pos(r_life as int * 4000, 10000);
            lemma_div_trunc_ordered(r_life as int * 4000, 10000int * 4000, 10000);
            vstd::arithmetic::div_mod::lemma_div_pos_is_pos(
                DEATH_PARTICLE_LIFETIME as int * life_frac as int,
                10000,
            );
            lemma_div_trunc_ordered(
                DEATH_PARTICLE_LIFETIME as int * life_frac as int,
                10000int * DEATH_PARTICLE_LIFETIME as int,
                10000,
            );
            vstd::arithmetic::div_mod::lemma_div_multiples_vanish(
                DEATH_PARTICLE_LIFETIME as int,
                10000,
            );
            vstd::arithmetic::div_mod::lemma_div_non_zero(
                DEATH_PARTICLE_LIFETIME as int * life_frac as int,
                10000,
            );
        }
        let lifetime: i64 = mul_div_trunc(DEATH_PARTICLE_LIFETIME, life_frac, 10000);
        let particle = Particle {
            x,
            y,
            velocity_x: vx,
            velocity_y: vy,
            world_velocity_x: 0,
            world_velocity_y: 0,
            lifetime,
            initial_lifetime: DEATH_PARTICLE_LIFETIME,
            size,
            scale: 1000,
            color_r: color.0,
            color_g: color.1,
            color_b: color.2,
            alpha: 1000,
            kind: ParticleKind::Death,
        };
        proof {
            assert(particle == death_particle_spec(
                x as int,
                y as int,
                draw_spec(s, 1 + 5 * j as int),
                draw_spec(s, 2 + 5 * j as int),
                draw_spec(s, 3 + 5 * j as int),
                draw_spec(s, 4 + 5 * j as int),
                draw_spec(s, 5 + 5 * j as int),
            ));
            assert(particle_wf(particle));
        }
        burst.push(particle);
        j = j + 1;
    }
    burst
}

/// The screen flash one tick later: run down by `dt` unless already inert.
pub open spec fn screen_flash_after_spec(f: ScreenFlashState, dt: int) -> ScreenFlashState {
    if f.duration <= 0 {
        f
    } else {
        ScreenFlashState { duration: (f.duration - dt) as i64, ..f }
    }
}

/// The overlay a ticking screen flash yields: its color at the decayed
/// alpha, or transparent black when inert.
pub open spec fn screen_flash_overlay_spec(f: ScreenFlashState, dt: int) -> (int, int, int, int) {
    if f.duration <= 0 {
        (0, 0, 0, 0)
    } else {
        (
            f.color_r as int,
            f.color_g as int,
            f.color_b as int,
            flash_alpha_spec(f.duration - dt, f.total_duration as int, f.max_alpha as int),
        )
    }
}

/// The edge flash one tick later: run down by `dt` unless already inert.
pub open spec fn edge_flash_after_spec(f: EdgeFlashState, dt: int) -> EdgeFlashState {
    if f.duration <= 0 {
        f
    } else {
        EdgeFlashState { duration: (f.duration - dt) as i64, ..f }
    }
}

/// The base overlay a ticking edge flash yields for its strips.
pub open spec fn edge_flash_overlay_spec(f: EdgeFlashState, dt: int) -> (int, int, int, int) {
    if f.duration <= 0 {
        (0, 0, 0, 0)
    } else {
        (
            f.color_r as int,
            f.color_g as int,
            f.color_b as int,
            flash_alpha_spec(f.duration - dt, f.total_duration as int, f.max_alpha as int),
        )
    }
}

/// The shake one tick later: phase advanced and time run down, unless inert.
pub open spec fn shake_after_spec(s: ScreenShake, dt: int) -> ScreenShake {
    if s.duration <= 0 {
        s
    } else {
        ScreenShake {
            duration: (s.duration - dt) as i64,
            intensity: s.intensity,
            elapsed: (s.elapsed + dt) as i64,
        }
    }
}

/// The camera displacement a ticking shake leaves behind: the wave formulas
/// while it still runs, zero exactly on expiry, and the old displacement
/// untouched once inert.
pub open spec fn shake_offsets_spec(
    sh: ScreenShake,
    s: u64,
    old_x: int,
    old_y: int,
    dt: int,
) -> (int, int) {
    if sh.duration <= 0 {
        (old_x, old_y)
    } else {
        let elapsed = sh.elapsed + dt;
        let duration = sh.duration - dt;
        if duration > 0 {
            (
                shake_offset_spec(
                    sin_milli_spec(elapsed * SCREEN_SHAKE_FREQUENCY),
                    sh.intensity as int,
                    shake_decay_spec(duration),
                    draw_spec(s, 1),
                ),
                shake_offset_spec(
                    sin_milli_spec(
                        elapsed * SCREEN_SHAKE_FREQUENCY * 13 / 10 + QUARTER_TURN_MILLI,
                    ),
                    sh.intensity as int,
                    shake_decay_spec(duration),
                    draw_spec(s, 2),
                ),
            )
        } else {
            (0, 0)
        }
    }
}

/// The squash animation one tick later: advanced, or removed on completion.
pub open spec fn squash_after_spec(o: Option<BirdSquashStretch>, dt: int) -> Option<
    BirdSquashStretch,
> {
    match o {
        Option::None => Option::None,
        Option::Some(a) => if a.timer + dt >= a.duration {
            Option::None
        } else {
            Option::Some(
                BirdSquashStretch {
                    timer: (a.timer + dt) as i64,
                    duration: a.duration,
                    is_squash: a.is_squash,
                },
            )
        },
    }
}

/// The actor scale pair a ticking squash yields; neutral without one.
pub open spec fn squash_scales_spec(o: Option<BirdSquashStretch>, dt: int) -> (int, int) {
    match o {
        Option::None => (1000, 1000),
        Option::Some(a) => if a.timer + dt >= a.duration {
            (1000, 1000)
        } else {
            (
                squash_scale_x_spec(a.timer + dt, a.duration as int),
                squash_scale_y_spec(a.timer + dt, a.duration as int),
            )
        },
    }
}

/// The pop animation one tick later: advanced, or removed on completion.
pub open spec fn pop_after_spec(o: Option<ScorePopAnimation>, dt: int) -> Option<
    ScorePopAnimation,
> {
    match o {
        Option::None => Option::None,
        Option::Some(a) => if a.timer + dt >= a.duration {
            Option::None
        } else {
            Option::Some(ScorePopAnimation { timer: (a.timer + dt) as i64, duration: a.duration })
        },
    }
}

/// The score text scale a ticking pop yields; neutral without one.
pub open spec fn pop_scale_after_spec(o: Option<ScorePopAnimation>, dt: int) -> int {
    match o {
        Option::None => 1000,
        Option::Some(a) => if a.timer + dt >= a.duration {
            1000
        } else {
            pop_scale_spec(a.timer + dt, a.duration as int)
        },
    }
}

/// The shake a death starts.
pub open spec fn death_shake_state_spec() -> ScreenShake {
    ScreenShake { duration: SCREEN_SHAKE_DURATION, intensity: SCREEN_SHAKE_INTENSITY, elapsed: 0 }
}

/// The full-screen flash a death starts.
pub open spec fn death_flash_state_spec() -> ScreenFlashState {
    ScreenFlashState {
        duration: DEATH_FLASH_DURATION,
        total_duration: DEATH_FLASH_DURATION,
        color_r: DEATH_FLASH_RED,
        color_g: DEATH_FLASH_GREEN,
        color_b: DEATH_FLASH_BLUE,
        max_alpha: DEATH_FLASH_ALPHA,
    }
}

/// The edge flash a score starts.
pub open spec fn score_edge_state_spec() -> EdgeFlashState {
    EdgeFlashState {
        duration: SCORE_FLASH_DURATION,
        total_duration: SCORE_FLASH_DURATION,
        color_r: SCORE_FLASH_RED,
        color_g: SCORE_FLASH_GREEN,
        color_b: SCORE_FLASH_BLUE,
        max_alpha: SCORE_FLASH_ALPHA,
    }
}

/// The squash animation a flap starts.
pub open spec fn flap_squash_state_spec() -> BirdSquashStretch {
    BirdSquashStretch { timer: 0, duration: FLAP_SQUASH_DURATION, is_squash: true }
}

/// The pop animation a score starts.
pub open spec fn score_pop_state_spec() -> ScorePopAnimation {
    ScorePopAnimation { timer: 0, duration: SCORE_POP_DURATION }
}

/// The whole puff burst one flap spawns, as a function of the random source
/// state it starts drawing from.
pub open spec fn flap_burst_spec(x: int, y: int, s: u64) -> Seq<Particle> {
    let count = flap_count_spec(draw_spec(s, 1));
    let base_angle = div_trunc(draw_spec(s, 2) * 6283, 10000);
    Seq::new(
        count as nat,
        |j: int|
            flap_particle_spec(
                x,
                y,
                base_angle,
                j,
                count,
                draw_spec(s, 3 + 6 * j),
                draw_spec(s, 4 + 6 * j),
                draw_spec(s, 5 + 6 * j),
                draw_spec(s, 6 + 6 * j),
                draw_spec(s, 7 + 6 * j),
                draw_spec(s, 8 + 6 * j),
            ),
    )
}

/// The whole shard burst one death spawns, as a function of the random
/// source state it starts drawing from.
pub open spec fn death_burst_spec(x: int, y: int, s: u64) -> Seq<Particle> {
    Seq::new(
        DEATH_PARTICLE_COUNT as nat,
        |j: int|
            death_particle_spec(
                x,
                y,
                draw_spec(s, 1 + 5 * j),
                draw_spec(s, 2 + 5 * j),
                draw_spec(s, 3 + 5 * j),
                draw_spec(s, 4 + 5 * j),
                draw_spec(s, 5 + 5 * j),
            ),
    )
}

/// Routes a death into its feedback: a screen shake and a red-tinted
/// full-screen flash, both at their nominal lengths.
pub fn trigger_death_effects(shake: &mut ScreenShake, flash: &mut ScreenFlashState)
    ensures
        final(shake).duration == SCREEN_SHAKE_DURATION,
        final(shake).intensity == SCREEN_SHAKE_INTENSITY,
        final(shake).elapsed == 0,
        *final(flash) == (ScreenFlashState {
            duration: DEATH_FLASH_DURATION,
            total_duration: DEATH_FLASH_DURATION,
            color_r: DEATH_FLASH_RED,
            color_g: DEATH_FLASH_GREEN,
            color_b: DEATH_FLASH_BLUE,
            max_alpha: DEATH_FLASH_ALPHA,
        }),
        final(shake).wf(),
        final(flash).wf(),
{
    shake.trigger(SCREEN_SHAKE_DURATION, SCREEN_SHAKE_INTENSITY);
    flash.trigger(
        DEATH_FLASH_DURATION,
        DEATH_FLASH_RED,
        DEATH_FLASH_GREEN,
        DEATH_FLASH_BLUE,
        DEATH_FLASH_ALPHA,
    );
}

/// Routes a score into its feedback: a short gold flash along the playfield
/// edges.
pub fn trigger_score_effects(flash: &mut EdgeFlashState)
    ensures
        *final(flash) == (EdgeFlashState {
            duration: SCORE_FLASH_DURATION,
            total_duration: SCORE_FLASH_DURATION,
            color_r: SCORE_FLASH_RED,
            color_g: SCORE_FLASH_GREEN,
            color_b: SCORE_FLASH_BLUE,
            max_alpha: SCORE_FLASH_ALPHA,
        }),
        final(flash).wf(),
{
    flash.trigger(
        SCORE_FLASH_DURATION,
        SCORE_FLASH_RED,
        SCORE_FLASH_GREEN,
        SCORE_FLASH_BLUE,
        SCORE_FLASH_ALPHA,
    );
}

} // verus!

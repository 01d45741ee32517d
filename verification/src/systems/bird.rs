//! Actor systems: the flap impulse, vertical physics, and tilt smoothing.

use vstd::prelude::*;

verus! {

use crate::components::Bird;
use crate::constants::{
    DT_LIMIT, FLAP_STRENGTH, GRAVITY, MAX_TILT_DOWN, MAX_TILT_UP, POS_LIMIT, TILT_FALL_DIVISOR,
    TILT_SPEED, VEL_LIMIT,
};
use crate::num::{
    clamp_i64, clamp_spec, div_trunc, lemma_div_trunc_bounds, lemma_div_trunc_ordered,
    lemma_div_trunc_strict_neg, mul_div_trunc,
};

/// The actor's speed after `dt` milliseconds of gravity. The speed saturates
/// at the representable bound, as the real-valued model saturates at its
/// largest magnitude.
pub open spec fn physics_velocity_spec(v: int, dt: int) -> int {
    clamp_spec(v + div_trunc(GRAVITY as int * dt, 1000), -VEL_LIMIT as int, VEL_LIMIT as int)
}

/// The actor's height after moving at speed `v` for `dt` milliseconds.
pub open spec fn physics_position_spec(y: int, v: int, dt: int) -> int {
    y + div_trunc(v * dt, 1000)
}

/// The tilt angle the actor leans toward: proportional to the speed when
/// rising, and a clamped fraction of the falling speed otherwise.
pub open spec fn tilt_target_spec(v: int) -> int {
    if v > 0 {
        div_trunc(v * MAX_TILT_UP, FLAP_STRENGTH as int)
    } else {
        clamp_spec(div_trunc(v * 1000, TILT_FALL_DIVISOR as int), MAX_TILT_DOWN as int, 0)
    }
}

/// The tilt angle after `dt` milliseconds of exponential smoothing toward
/// the target, saturating at the representable bound.
pub open spec fn tilt_next_spec(tilt: int, v: int, dt: int) -> int {
    clamp_spec(
        tilt + div_trunc((tilt_target_spec(v) - tilt) * TILT_SPEED * dt, 1000),
        -VEL_LIMIT as int,
        VEL_LIMIT as int,
    )
}

/// Applies the flap impulse: the vertical speed becomes `FLAP_STRENGTH`
/// outright, overwriting rather than adding.
pub fn bird_flap(bird: &mut Bird)
    ensures
        final(bird).velocity == FLAP_STRENGTH,
        final(bird).x == old(bird).x,
        final(bird).y == old(bird).y,
        final(bird).tilt == old(bird).tilt,
{
    bird.velocity = FLAP_STRENGTH;
}

/// Integrates gravity into the actor's speed, then the speed into its
/// height, over `dt` milliseconds.
pub fn bird_physics(bird: &mut Bird, dt: i64)
    requires
        0 <= dt <= DT_LIMIT,
        -VEL_LIMIT <= old(bird).velocity <= VEL_LIMIT,
        -POS_LIMIT <= old(bird).y <= POS_LIMIT,
    ensures
        final(bird).velocity == physics_velocity_spec(old(bird).velocity as int, dt as int),
        final(bird).y == physics_position_spec(
            old(bird).y as int,
            final(bird).velocity as int,
            dt as int,
        ),
        -VEL_LIMIT <= final(bird).velocity <= VEL_LIMIT,
        old(bird).y - 10_000_000_000 <= final(bird).y <= old(bird).y + 10_000_000_000,
        final(bird).x == old(bird).x,
        final(bird).tilt == old(bird).tilt,
{
    let dv: i64 = mul_div_trunc(GRAVITY, dt, 1000);
    proof {
        lemma_div_trunc_bounds(GRAVITY as int * dt as int, 1000);
    }
    let v: i64 = clamp_i64(bird.velocity + dv, -VEL_LIMIT, VEL_LIMIT);
    bird.velocity = v;
    proof {
        assert(-(VEL_LIMIT as int) * DT_LIMIT <= v as int * dt as int <= VEL_LIMIT as int
            * DT_LIMIT) by (nonlinear_arith)
            requires
                -VEL_LIMIT as int <= v as int <= VEL_LIMIT as int,
                0 <= dt as int <= DT_LIMIT as int,
        ;
        lemma_div_trunc_bounds(v as int * dt as int, 1000);
    }
    let dy: i64 = mul_div_trunc(v, dt, 1000);
    bird.y = bird.y + dy;
}

/// Eases the actor's visual tilt toward the target set by its speed.
pub fn bird_tilt(bird: &mut Bird, dt: i64)
    requires
        0 <= dt <= DT_LIMIT,
        -VEL_LIMIT <= old(bird).velocity <= VEL_LIMIT,
        -VEL_LIMIT <= old(bird).tilt <= VEL_LIMIT,
    ensures
        final(bird).tilt == tilt_next_spec(
            old(bird).tilt as int,
            old(bird).velocity as int,
            dt as int,
        ),
        -VEL_LIMIT <= final(bird).tilt <= VEL_LIMIT,
        final(bird).velocity == old(bird).velocity,
        final(bird).x == old(bird).x,
        final(bird).y == old(bird).y,
{
    let target: i64 = if bird.velocity > 0 {
        proof {
            lemma_div_trunc_bounds(bird.velocity as int * MAX_TILT_UP, 1000);
        }
        mul_div_trunc(bird.velocity, MAX_TILT_UP, FLAP_STRENGTH)
    } else {
        clamp_i64(mul_div_trunc(bird.velocity, 1000, TILT_FALL_DIVISOR), MAX_TILT_DOWN, 0)
    };
    proof {
        if bird.velocity > 0 {
            lemma_div_trunc_ordered(
                bird.velocity as int * MAX_TILT_UP,
                VEL_LIMIT as int * MAX_TILT_UP,
                FLAP_STRENGTH as int,
            );
            lemma_div_trunc_bounds(bird.velocity as int * MAX_TILT_UP, FLAP_STRENGTH as int);
        }
        assert(-2_000_000 <= target as int <= 2_000_000);
    }
    let scaled: i64 = (target - bird.tilt) * TILT_SPEED;
    proof {
        assert(-11_000_000_000 * DT_LIMIT <= scaled as int * dt as int <= 11_000_000_000
            * DT_LIMIT) by (nonlinear_arith)
            requires
                -11_000_000_000 <= scaled as int <= 11_000_000_000,
                0 <= dt as int <= DT_LIMIT as int,
        ;
        lemma_div_trunc_bounds(scaled as int * dt as int, 1000);
    }
    let delta: i64 = mul_div_trunc(scaled, dt, 1000);
    bird.tilt = clamp_i64(bird.tilt + delta, -VEL_LIMIT, VEL_LIMIT);
}

/// One no-flap step never raises the speed, and a speed already at or below
/// one unit per second falls on: gravity only pulls down.
pub proof fn lemma_fall_velocity_step(v: int, dt: int)
    requires
        -VEL_LIMIT <= v <= VEL_LIMIT,
        0 <= dt <= DT_LIMIT,
    ensures
        physics_velocity_spec(v, dt) <= v,
        v <= -1000 ==> physics_velocity_spec(v, dt) <= -1000,
        -VEL_LIMIT <= physics_velocity_spec(v, dt) <= VEL_LIMIT,
{
    assert(GRAVITY as int * dt <= 0) by (nonlinear_arith)
        requires
            dt >= 0,
    ;
    lemma_div_trunc_bounds(GRAVITY as int * dt, 1000);
}

/// A falling actor loses height in one step, strictly so once the step moves
/// it by at least one thousandth: speed at or below minus one unit per
/// second and a tick of at least one millisecond.
pub proof fn lemma_fall_position_step(y: int, v: int, dt: int)
    requires
        -VEL_LIMIT <= v <= -1000,
        1 <= dt <= DT_LIMIT,
    ensures
        physics_position_spec(y, v, dt) < y,
{
    assert(v * dt <= -1000) by (nonlinear_arith)
        requires
            v <= -1000,
            dt >= 1,
    ;
    lemma_div_trunc_strict_neg(v * dt, 1000);
}

/// The actor's speed after a run of no-flap steps.
pub open spec fn fall_velocity_seq(v: int, dts: Seq<int>) -> int
    decreases dts.len(),
{
    if dts.len() == 0 {
        v
    } else {
        fall_velocity_seq(physics_velocity_spec(v, dts[0]), dts.skip(1))
    }
}

/// The actor's height after a run of no-flap steps.
pub open spec fn fall_position_seq(y: int, v: int, dts: Seq<int>) -> int
    decreases dts.len(),
{
    if dts.len() == 0 {
        y
    } else {
        fall_position_seq(
            physics_position_spec(y, physics_velocity_spec(v, dts[0]), dts[0]),
            physics_velocity_spec(v, dts[0]),
            dts.skip(1),
        )
    }
}

/// Integration is monotone absent impulses: over any run of ticks with no
/// flap, a falling actor's speed never rises, and its height strictly
/// decreases. The run starts falling at one unit per second or faster, and
/// each tick advances time by at least one millisecond, so each step moves
/// the actor by at least one thousandth of a unit.
pub proof fn lemma_fall_monotonic(y: int, v: int, dts: Seq<int>)
    requires
        -VEL_LIMIT <= v <= -1000,
        forall|i: int| 0 <= i < dts.len() ==> 1 <= #[trigger] dts[i] <= DT_LIMIT,
    ensures
        fall_velocity_seq(v, dts) <= v,
        -VEL_LIMIT <= fall_velocity_seq(v, dts) <= -1000,
        dts.len() > 0 ==> fall_position_seq(y, v, dts) < y,
    decreases dts.len(),
{
    if dts.len() > 0 {
        let v1 = physics_velocity_spec(v, dts[0]);
        let y1 = physics_position_spec(y, v1, dts[0]);
        lemma_fall_velocity_step(v, dts[0]);
        lemma_fall_position_step(y, v1, dts[0]);
        assert forall|i: int| 0 <= i < dts.skip(1).len() implies 1 <= #[trigger] dts.skip(1)[i]
            <= DT_LIMIT by {
            assert(dts.skip(1)[i] == dts[i + 1]);
        }
        lemma_fall_monotonic(y1, v1, dts.skip(1));
        assert(fall_position_seq(y, v, dts) == fall_position_seq(y1, v1, dts.skip(1)));
    }
}

} // verus!

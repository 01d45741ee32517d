//! Integer sine and cosine on thousandths of a radian.
//!
//! The waves only drive visual effects (screen shake, particle directions,
//! the score pop), so a smooth bounded approximation is enough: a quadratic
//! rational approximation of the sine on a half turn, mirrored onto the
//! other half, with the angle reduced modulo a full turn.

use vstd::prelude::*;

verus! {

use vstd::arithmetic::div_mod::{
    lemma_div_is_ordered, lemma_div_multiples_vanish, lemma_div_pos_is_pos,
    lemma_fundamental_div_mod, lemma_fundamental_div_mod_converse_mod,
};

/// One full turn in thousandths of a radian.
pub const TAU_MILLI: i64 = 6283;

/// A quarter turn in thousandths of a radian.
pub const QUARTER_TURN_MILLI: i64 = 1571;

/// The sine on the first half turn, `x` in `[0, 3141]`, in thousandths:
/// `16 x (h - x) / (5 h^2 - 4 x (h - x))` scaled by 1000, with `h` the half
/// turn.
pub open spec fn sin_half_spec(x: int) -> int {
    16000 * (x * (3141 - x)) / (5 * 3141 * 3141 - 4 * (x * (3141 - x)))
}

/// The sine of any angle in thousandths of a radian: the angle is reduced
/// into one turn, and the second half turn mirrors the first.
pub open spec fn sin_milli_spec(a: int) -> int {
    let m = a % (TAU_MILLI as int);
    if m <= 3141 {
        sin_half_spec(m)
    } else {
        -sin_half_spec(m - 3142)
    }
}

/// Reduces an angle into `[0, TAU_MILLI)`, as the mathematical remainder.
fn angle_mod_tau(a: i64) -> (m: i64)
    ensures
        m == (a as int) % (TAU_MILLI as int),
        0 <= m < TAU_MILLI,
{
    let t: i64 = a % TAU_MILLI;
    proof {
        let ai = a as int;
        let tau = TAU_MILLI as int;
        if ai >= 0 {
            vstd::arithmetic::div_mod::lemma_mod_division_less_than_divisor(ai, tau);
        } else {
            let e = (-ai) % tau;
            let q = (-ai) / tau;
            lemma_fundamental_div_mod(-ai, tau);
            vstd::arithmetic::div_mod::lemma_mod_division_less_than_divisor(-ai, tau);
            if e == 0 {
                assert(ai == tau * (-q) + 0) by (nonlinear_arith)
                    requires
                        -ai == tau * q + e,
                        e == 0,
                ;
                lemma_fundamental_div_mod_converse_mod(ai, tau, -q, 0);
            } else {
                assert(ai == tau * (-q - 1) + (tau - e)) by (nonlinear_arith)
                    requires
                        -ai == tau * q + e,
                ;
                lemma_fundamental_div_mod_converse_mod(ai, tau, -q - 1, tau - e);
            }
        }
    }
    if t < 0 {
        t + TAU_MILLI
    } else {
        t
    }
}

/// The sine on the first half turn; never leaves `[0, 1000]`.
fn sin_half(x: i64) -> (r: i64)
    requires
        0 <= x <= 3141,
    ensures
        r == sin_half_spec(x as int),
        0 <= r <= 1000,
{
    proof {
        let xi = x as int;
        let z = 2 * xi - 3141;
        assert(z != 0);
        assert(z * z >= 1) by (nonlinear_arith)
            requires
                z != 0,
        ;
        assert(4 * (xi * (3141 - xi)) == 9865881 - z * z) by (nonlinear_arith)
            requires
                z == 2 * xi - 3141,
        ;
        assert(0 <= xi * (3141 - xi)) by (nonlinear_arith)
            requires
                0 <= xi <= 3141,
        ;
        assert(xi * (3141 - xi) <= 2466470);
    }
    let u: i64 = x * (3141 - x);
    let n: i64 = 16000 * u;
    let d: i64 = 5 * 3141 * 3141 - 4 * u;
    proof {
        let ui = u as int;
        let ni = n as int;
        let di = d as int;
        assert(ni == 16000 * ui);
        assert(di == 49329405 - 4 * ui);
        assert(ni <= 1000 * di) by (nonlinear_arith)
            requires
                ni == 16000 * ui,
                di == 49329405 - 4 * ui,
                0 <= ui <= 2466470,
        ;
        lemma_div_pos_is_pos(ni, di);
        lemma_div_is_ordered(ni, 1000 * di, di);
        lemma_div_multiples_vanish(1000, di);
    }
    n / d
}

/// The sine of an angle in thousandths of a radian; never leaves
/// `[-1000, 1000]`.
pub fn sin_milli(a: i64) -> (r: i64)
    ensures
        r == sin_milli_spec(a as int),
        -1000 <= r <= 1000,
{
    let m = angle_mod_tau(a);
    if m <= 3141 {
        sin_half(m)
    } else {
        -sin_half(m - 3142)
    }
}

/// The cosine of an angle: the sine a quarter turn ahead.
pub fn cos_milli(a: i64) -> (r: i64)
    requires
        a <= i64::MAX - QUARTER_TURN_MILLI,
    ensures
        r == sin_milli_spec(a as int + QUARTER_TURN_MILLI),
        -1000 <= r <= 1000,
{
    sin_milli(a + QUARTER_TURN_MILLI)
}

} // verus!

//! The pseudo-random source of the simulation.
//!
//! A 64-bit xorshift generator. Each draw advances the state and hands out a
//! fraction in ten-thousandths, i.e. a value in `[0, 10000)` standing for a
//! real in `[0, 1)`. The host seeds it once, typically from the wall clock;
//! tests inject a fixed seed, so every draw is pinned by the contracts.

use vstd::prelude::*;

verus! {

/// One xorshift step: three shift-and-xor rounds over the whole state.
pub open spec fn xorshift_step(s: u64) -> u64 {
    let a = s ^ (s << 13);
    let b = a ^ (a >> 7);
    b ^ (b << 17)
}

/// The fraction a state hands out: its value in ten-thousandths of unity.
pub open spec fn fraction_of(s: u64) -> u64 {
    s % 10000
}

/// The state after `n` xorshift steps from `s`.
pub open spec fn rng_nth_state(s: u64, n: nat) -> u64
    decreases n,
{
    if n == 0 {
        s
    } else {
        xorshift_step(rng_nth_state(s, (n - 1) as nat))
    }
}

/// The fraction handed out by the `n`-th draw after state `s`.
pub open spec fn draw_spec(s: u64, n: int) -> int {
    fraction_of(rng_nth_state(s, n as nat)) as int
}

/// Unrolls one step off the end of an `n`-fold advance.
pub proof fn lemma_rng_nth_step(s: u64, n: nat)
    ensures
        rng_nth_state(s, n + 1) == xorshift_step(rng_nth_state(s, n)),
{
}

/// Seeded pseudo-random generator of fractions in `[0, 10000)`.
pub struct RandomSource {
    /// Current generator state.
    pub state: u64,
}

impl RandomSource {
    /// Starts the generator from a seed. A zero seed is a fixed point of the
    /// xorshift step, so callers seed from a nonzero value.
    pub fn new(seed: u64) -> (rng: RandomSource)
        ensures
            rng.state == seed,
    {
        RandomSource { state: seed }
    }

    /// Advances the state once and returns the fraction it encodes.
    pub fn next_fraction(&mut self) -> (r: u64)
        ensures
            final(self).state == xorshift_step(old(self).state),
            r == fraction_of(final(self).state),
            r < 10000,
    {
        let a: u64 = self.state ^ (self.state << 13);
        let b: u64 = a ^ (a >> 7);
        let c: u64 = b ^ (b << 17);
        self.state = c;
        c % 10000
    }
}

} // verus!

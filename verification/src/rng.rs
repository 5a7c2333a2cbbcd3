//! Deterministic pseudo-random state.
//!
//! Each render task owns one generator, seeded from a global seed plus its
//! row index, so a render is a pure function of the scene and the seed. The
//! generator is a 64-bit xorshift: its whole behaviour is visible to the
//! verifier, which is what makes the renderer's determinism provable.

use vstd::prelude::*;
use crate::fx::FX_ONE;

verus! {

/// One xorshift step of the 64-bit state.
pub open spec fn rng_step(s: u64) -> u64 {
    let a = s ^ (s << 13);
    let b = a ^ (a >> 7);
    b ^ (b << 17)
}

/// Initial state for a seed: never zero, then decorrelated by a few steps.
pub open spec fn rng_init(seed: u64) -> u64 {
    let s = if seed == 0 {
        0x9E3779B97F4A7C15u64
    } else {
        seed
    };
    rng_step(rng_step(rng_step(s)))
}

/// The fixed-point draw in `[0, 1)` produced from state `s`.
pub open spec fn unit_of(s: u64) -> int {
    ((rng_step(s) >> 24) & 0xffff) as int
}

/// Pseudo-random generator state.
#[derive(Clone, Copy, PartialEq, Eq, Structural, Debug)]
pub struct Rng {
    pub state: u64,
}

impl Rng {
    pub fn new(seed: u64) -> (r: Rng)
        ensures
            r.state == rng_init(seed),
    {
        let s: u64 = if seed == 0 {
            0x9E3779B97F4A7C15u64
        } else {
            seed
        };
        let mut r = Rng { state: s };
        r.step();
        r.step();
        r.step();
        r
    }

    /// Advance the state by one xorshift round.
    pub fn step(&mut self)
        ensures
            final(self).state == rng_step(old(self).state),
    {
        let mut s = self.state;
        s = s ^ (s << 13);
        s = s ^ (s >> 7);
        s = s ^ (s << 17);
        self.state = s;
    }

    /// Draw a fixed-point number uniformly from `[0, 1)`.
    pub fn next_unit(&mut self) -> (u: i64)
        ensures
            final(self).state == rng_step(old(self).state),
            u == unit_of(old(self).state),
            0 <= u < FX_ONE,
    {
        self.step();
        let s: u64 = self.state;
        let bits: u64 = (s >> 24) & 0xffff;
        proof {
            assert(((s >> 24) & 0xffff) < 65536) by (bit_vector);
        }
        bits as i64
    }
}

} // verus!

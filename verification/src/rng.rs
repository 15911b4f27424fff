//! The deterministic random number generator.
//!
//! The engine owns its randomness: a 128-bit multiplicative congruential
//! generator whose output is an xorshift-rotate of the state.  The step
//! and the output are stated exactly in the contracts, so every draw is a
//! pure function of the seed and the whole evolution of a seeded system
//! is reproducible.

use vstd::prelude::*;

verus! {

/// The multiplier of the congruential step.
pub const RNG_MULTIPLIER: u128 = 0x2360ed051fc65da44385df649fcccbfb;

/// The state after one step.
pub open spec fn rng_step(s: u128) -> u128 {
    vstd::wrapping::u128_specs::wrapping_mul(s, RNG_MULTIPLIER)
}

/// The output word drawn from a state: the high half folded onto the low
/// half, rotated by the top six bits.
pub open spec fn rng_output(s: u128) -> u64 {
    let hi = (s >> 64) as u64;
    let lo = (s & 0xFFFF_FFFF_FFFF_FFFF) as u64;
    let x = hi ^ lo;
    let rot = (s >> 122) as u64;
    if rot == 0 {
        x
    } else {
        (x >> rot) | (x << (64 - rot))
    }
}

/// A deterministic generator, seeded once and stepped explicitly.
#[derive(Clone, Copy, PartialEq, Eq, Structural, Debug)]
pub struct DeterministicRng {
    pub state: u128,
}

impl DeterministicRng {
    /// Seed the generator; the low bit is forced on so that the state can
    /// never collapse to zero under multiplication.
    pub fn from_seed(seed: u128) -> (r: DeterministicRng)
        ensures
            r.state == seed | 1,
    {
        DeterministicRng { state: seed | 1 }
    }

    /// Step once and draw one word.
    #[verifier::rlimit(100)]
    pub fn next_u64(&mut self) -> (r: u64)
        ensures
            final(self).state == rng_step(old(self).state),
            r == rng_output(rng_step(old(self).state)),
    {
        self.state = self.state.wrapping_mul(RNG_MULTIPLIER);
        let s: u128 = self.state;
        let hi: u64 = (s >> 64) as u64;
        let lo: u64 = (s & 0xFFFF_FFFF_FFFF_FFFF) as u64;
        let x: u64 = hi ^ lo;
        assert((s >> 122) < 64) by (bit_vector);
        let rot: u64 = (s >> 122) as u64;
        if rot == 0 {
            x
        } else {
            (x >> rot) | (x << (64 - rot))
        }
    }

    /// A draw reduced below a positive bound.
    pub fn below(&mut self, bound: u64) -> (r: u64)
        requires
            bound > 0,
        ensures
            final(self).state == rng_step(old(self).state),
            r == rng_output(rng_step(old(self).state)) % bound,
            r < bound,
    {
        let w: u64 = self.next_u64();
        w % bound
    }

    /// A draw of a unit-range value, as fixed-point units.
    pub fn unit_units(&mut self) -> (r: i32)
        ensures
            final(self).state == rng_step(old(self).state),
            r == rng_output(rng_step(old(self).state)) % (crate::continuous::UN_ONE + 1) as u64,
            0 <= r <= crate::continuous::UN_ONE,
    {
        self.below(crate::continuous::UN_ONE as u64 + 1) as i32
    }

    /// A draw of a signed-normalised value, as fixed-point units.
    pub fn signed_units(&mut self) -> (r: i32)
        ensures
            final(self).state == rng_step(old(self).state),
            r == rng_output(rng_step(old(self).state)) % (2 * crate::continuous::SN_ONE + 1) as u64
                - crate::continuous::SN_ONE,
            -crate::continuous::SN_ONE <= r <= crate::continuous::SN_ONE,
    {
        self.below(2 * crate::continuous::SN_ONE as u64 + 1) as i32 - crate::continuous::SN_ONE
    }

    /// A draw of an angle, as fixed-point units below one turn.
    pub fn angle_units(&mut self) -> (r: i32)
        ensures
            final(self).state == rng_step(old(self).state),
            r == rng_output(rng_step(old(self).state)) % crate::continuous::TURN as u64,
            0 <= r < crate::continuous::TURN,
    {
        self.below(crate::continuous::TURN as u64) as i32
    }

    /// A draw of one bit.
    pub fn coin(&mut self) -> (r: bool)
        ensures
            final(self).state == rng_step(old(self).state),
            r == (rng_output(rng_step(old(self).state)) % 2 == 1),
    {
        self.below(2) == 1
    }

    /// A Bernoulli draw: true with probability `prob` in unit-range units.
    pub fn chance(&mut self, prob: i32) -> (r: bool)
        requires
            0 <= prob <= crate::continuous::UN_ONE,
        ensures
            final(self).state == rng_step(old(self).state),
            r == (rng_output(rng_step(old(self).state)) % (crate::continuous::UN_ONE as u64)
                < prob as u64),
            prob == 0 ==> !r,
    {
        self.below(crate::continuous::UN_ONE as u64) < prob as u64
    }

    /// A draw of one byte.
    pub fn byte(&mut self) -> (r: u8)
        ensures
            final(self).state == rng_step(old(self).state),
            r == rng_output(rng_step(old(self).state)) % 256,
    {
        self.below(256) as u8
    }
}

} // verus!

//! Fast pseudo-random numbers: a multiplicative congruential generator
//! whose state is turned into the bits of a single-precision number.

use vstd::prelude::*;

verus! {

/// The multiplier of the generator.
pub const MULTIPLIER: u32 = 16807;

/// Exponent bits of a single-precision number in `[1, 2)`.
pub const ONE_TO_TWO: u32 = 0x3f80_0000;

/// Exponent bits of a single-precision number in `[2, 4)`.
pub const TWO_TO_FOUR: u32 = 0x4000_0000;

/// The state after `seed`: the product with the multiplier, modulo 2^32.
pub open spec fn stepped(seed: u32) -> u32 {
    ((seed * MULTIPLIER) % 0x1_0000_0000) as u32
}

/// The generator.
#[derive(Clone, Copy, Debug)]
pub struct FastRand {
    seed: u32,
}

impl FastRand {
    /// The current state.
    pub closed spec fn state(self) -> u32 {
        self.seed
    }

    /// A generator that starts from `seed`.
    pub fn new(seed: u32) -> (rng: Self)
        ensures
            rng.state() == seed,
    {
        FastRand { seed }
    }

    fn step(&mut self)
        ensures
            final(self).state() == stepped(old(self).state()),
    {
        let product: u64 = (self.seed as u64) * (MULTIPLIER as u64);
        self.seed = (product % 0x1_0000_0000) as u32;
    }

    /// Steps the generator and returns the bits of a single-precision
    /// number in `[1, 2)`: the top 23 bits of the state as the fraction.
    /// One less than that number is uniform in `[0, 1)`.
    pub fn urand(&mut self) -> (bits: u32)
        ensures
            final(self).state() == stepped(old(self).state()),
            bits == (final(self).state() >> 9) | ONE_TO_TWO,
    {
        self.step();
        (self.seed >> 9) | ONE_TO_TWO
    }

    /// Steps the generator and returns the bits of a single-precision
    /// number in `[2, 4)`: the top 23 bits of the state as the fraction.
    /// Three less than that number is uniform in `[-1, 1)`.
    pub fn rand(&mut self) -> (bits: u32)
        ensures
            final(self).state() == stepped(old(self).state()),
            bits == (final(self).state() >> 9) | TWO_TO_FOUR,
    {
        self.step();
        (self.seed >> 9) | TWO_TO_FOUR
    }
}

/// What `urand` returns has the sign clear, the exponent of `[1, 2)` and
/// the top 23 bits of the state as its fraction.
pub proof fn lemma_urand_range(state: u32)
    ensures
        ONE_TO_TWO <= ((state >> 9) | ONE_TO_TWO) < TWO_TO_FOUR,
        (((state >> 9) | ONE_TO_TWO) & 0x007f_ffff) == state >> 9,
{
    assert(0x3f80_0000u32 <= ((state >> 9) | 0x3f80_0000u32) < 0x4000_0000u32) by (bit_vector);
    assert((((state >> 9) | 0x3f80_0000u32) & 0x007f_ffffu32) == state >> 9) by (bit_vector);
}

/// What `rand` returns has the sign clear, the exponent of `[2, 4)` and
/// the top 23 bits of the state as its fraction.
pub proof fn lemma_rand_range(state: u32)
    ensures
        TWO_TO_FOUR <= ((state >> 9) | TWO_TO_FOUR) < 0x4080_0000,
        (((state >> 9) | TWO_TO_FOUR) & 0x007f_ffff) == state >> 9,
{
    assert(0x4000_0000u32 <= ((state >> 9) | 0x4000_0000u32) < 0x4080_0000u32) by (bit_vector);
    assert((((state >> 9) | 0x4000_0000u32) & 0x007f_ffffu32) == state >> 9) by (bit_vector);
}

} // verus!

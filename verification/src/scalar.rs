//! Single-precision numbers as bit patterns.
//!
//! The cameras keep their angles and distances as the 32 bits of an
//! IEEE-754 single-precision number and never compute with them. The one
//! thing decided here is order: among patterns that are neither negative nor
//! NaN, a larger pattern is a larger number.

use vstd::prelude::*;

verus! {

/// The bits of 0.0.
pub const ZERO: u32 = 0;

/// The bits of 0.01.
pub const HUNDREDTH: u32 = 0x3c23_d70a;

/// The bits of 0.1.
pub const TENTH: u32 = 0x3dcc_cccd;

/// The bits of 2.0.
pub const TWO: u32 = 0x4000_0000;

/// The bits of a quarter turn less 0.01 radians.
pub const BELOW_QUARTER_TURN: u32 = 0x3fc7_c82d;

/// The bits of positive infinity.
pub const INFINITY: u32 = 0x7f80_0000;

const SIGN: u32 = 0x8000_0000;

/// Whether the pattern is a NaN.
pub open spec fn is_nan(bits: u32) -> bool {
    (bits & 0x7fff_ffff) > INFINITY
}

/// Whether the sign bit is set (negative zero included).
pub open spec fn is_negative(bits: u32) -> bool {
    (bits & 0x8000_0000) != 0
}

/// Whether the pattern is a number that is zero or more, or positive infinity.
pub open spec fn is_ordered(bits: u32) -> bool {
    !is_nan(bits) && !is_negative(bits)
}

/// The larger of `bits` and `floor`; `floor` where `bits` is a NaN or negative.
pub open spec fn at_least(bits: u32, floor: u32) -> u32 {
    if !is_ordered(bits) || bits < floor {
        floor
    } else {
        bits
    }
}

/// The pattern with its sign bit cleared.
pub open spec fn magnitude(bits: u32) -> u32 {
    bits & 0x7fff_ffff
}

/// The smaller of the magnitude of `bits` and `ceiling`; `ceiling` where `bits` is a NaN.
pub open spec fn magnitude_at_most(bits: u32, ceiling: u32) -> u32 {
    if is_nan(bits) || magnitude(bits) > ceiling {
        ceiling
    } else {
        magnitude(bits)
    }
}

/// The named constants are numbers that are zero or more.
pub proof fn lemma_constants_ordered()
    ensures
        is_ordered(ZERO),
        is_ordered(HUNDREDTH),
        is_ordered(TENTH),
        is_ordered(TWO),
        is_ordered(BELOW_QUARTER_TURN),
        is_ordered(INFINITY),
{
    assert((0u32 & 0x7fff_ffff) <= 0x7f80_0000u32 && (0u32 & 0x8000_0000) == 0) by (bit_vector);
    assert((0x3c23_d70au32 & 0x7fff_ffff) <= 0x7f80_0000u32 && (0x3c23_d70au32 & 0x8000_0000) == 0)
        by (bit_vector);
    assert((0x3dcc_cccdu32 & 0x7fff_ffff) <= 0x7f80_0000u32 && (0x3dcc_cccdu32 & 0x8000_0000) == 0)
        by (bit_vector);
    assert((0x4000_0000u32 & 0x7fff_ffff) <= 0x7f80_0000u32 && (0x4000_0000u32 & 0x8000_0000) == 0)
        by (bit_vector);
    assert((0x3fc7_c82du32 & 0x7fff_ffff) <= 0x7f80_0000u32 && (0x3fc7_c82du32 & 0x8000_0000) == 0)
        by (bit_vector);
    assert((0x7f80_0000u32 & 0x7fff_ffff) <= 0x7f80_0000u32 && (0x7f80_0000u32 & 0x8000_0000) == 0)
        by (bit_vector);
}

/// Raises `bits` to `floor` where it is less, negative or a NaN.
pub fn clamp_at_least(bits: u32, floor: u32) -> (clamped: u32)
    requires
        is_ordered(floor),
    ensures
        clamped == at_least(bits, floor),
        is_ordered(clamped),
        clamped >= floor,
{
    if (bits & 0x7fff_ffff) > INFINITY || (bits & SIGN) != 0 || bits < floor {
        floor
    } else {
        bits
    }
}

/// Takes the magnitude of `bits` and lowers it to `ceiling` where it is
/// more or a NaN.
pub fn clamp_magnitude_at_most(bits: u32, ceiling: u32) -> (clamped: u32)
    requires
        is_ordered(ceiling),
    ensures
        clamped == magnitude_at_most(bits, ceiling),
        is_ordered(clamped),
        clamped <= ceiling,
{
    let mag: u32 = bits & 0x7fff_ffff;
    assert((mag & 0x7fff_ffff) == mag && (mag & 0x8000_0000) == 0) by (bit_vector)
        requires
            mag == bits & 0x7fff_ffff,
    ;
    if mag > INFINITY || mag > ceiling {
        assert(ceiling <= INFINITY) by (bit_vector)
            requires
                (ceiling & 0x7fff_ffff) <= 0x7f80_0000u32,
                (ceiling & 0x8000_0000) == 0,
        ;
        ceiling
    } else {
        mag
    }
}

} // verus!

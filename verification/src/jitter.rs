//! Sub-pixel jitter: a fixed sequence of eight Halton samples in bases 2 and
//! 3, held as exact fractions.

use vstd::prelude::*;

verus! {

/// Number of samples in the jitter sequence.
pub const JITTER_SAMPLES: u32 = 8;

/// The radical inverse of `index` in base `base`, as numerator and
/// denominator: the digits of `index` mirrored about the radix point.
pub open spec fn radical_inverse(index: nat, base: nat) -> (nat, nat)
    decreases index,
    via radical_inverse_decreases
{
    if index == 0 || base < 2 {
        (0, 1)
    } else {
        let (num, den) = radical_inverse(index / base, base);
        ((index % base) * den + num, den * base)
    }
}

#[via_fn]
proof fn radical_inverse_decreases(index: nat, base: nat) {
    if index != 0 && base >= 2 {
        lemma_quotient_smaller(index, base);
    }
}

proof fn lemma_quotient_smaller(index: nat, base: nat)
    by (nonlinear_arith)
    requires
        index > 0,
        base >= 2,
    ensures
        index / base < index,
{
}

/// The radical inverse is a proper fraction with a positive denominator, and
/// the denominator is at most `index * base`.
pub proof fn lemma_radical_inverse_bounds(index: nat, base: nat)
    requires
        base >= 2,
    ensures
        radical_inverse(index, base).1 >= 1,
        radical_inverse(index, base).0 < radical_inverse(index, base).1,
        index >= 1 ==> radical_inverse(index, base).1 <= index * base,
    decreases index,
{
    if index != 0 {
        let rest = index / base;
        let digit = index % base;
        let (num, den) = radical_inverse(rest, base);
        lemma_quotient_smaller(index, base);
        lemma_radical_inverse_bounds(rest, base);
        assert(digit * den + num < den * base) by (nonlinear_arith)
            requires
                num < den,
                digit < base,
        ;
        assert(index == base * rest + digit) by (nonlinear_arith)
            requires
                rest == index / base,
                digit == index % base,
                base >= 2,
        ;
        if rest >= 1 {
            assert(den * base <= index * base) by (nonlinear_arith)
                requires
                    den <= rest * base,
                    index == base * rest + digit,
                    base >= 2,
            ;
        } else {
            assert(den == 1);
            assert(1 * base <= index * base) by (nonlinear_arith)
                requires
                    index >= 1,
            ;
        }
    }
}

/// Computes the radical inverse of `index` in base `base`.
pub fn halton(index: u32, base: u32) -> (sample: (u64, u64))
    requires
        2 <= base <= 0x1_0000,
    ensures
        (sample.0 as nat, sample.1 as nat) == radical_inverse(index as nat, base as nat),
        sample.0 < sample.1,
        index >= 1 ==> sample.1 <= index * base,
{
    let mut rest: u32 = index;
    let mut num: u64 = 0;
    let mut den: u64 = 1;
    proof {
        lemma_radical_inverse_bounds(index as nat, base as nat);
    }
    while rest > 0
        invariant
            2 <= base <= 0x1_0000,
            num < den,
            den * rest <= index,
            den >= 1,
            index >= 1 ==> den <= index * base,
            radical_inverse(index as nat, base as nat).0 == radical_inverse(
                rest as nat,
                base as nat,
            ).0 + num * radical_inverse(rest as nat, base as nat).1,
            radical_inverse(index as nat, base as nat).1 == radical_inverse(
                rest as nat,
                base as nat,
            ).1 * den,
        decreases rest,
    {
        let digit: u32 = rest % base;
        let next: u32 = rest / base;
        proof {
            let b = base as nat;
            let (n1, d1) = radical_inverse(next as nat, b);
            lemma_quotient_smaller(rest as nat, b);
            assert(radical_inverse(rest as nat, b) == ((digit as nat) * d1 + n1, d1 * b));
            assert(den <= index) by (nonlinear_arith)
                requires
                    den * rest <= index,
                    rest >= 1,
            ;
            assert(den * base <= 0x1_0000_0000_0000 && den * base <= index * base)
                by (nonlinear_arith)
                requires
                    den <= index,
                    index <= 0xffff_ffff,
                    base <= 0x1_0000,
            ;
            assert(num * base + digit < den * base) by (nonlinear_arith)
                requires
                    num < den,
                    digit < base,
            ;
            assert((den * base) * next <= index) by (nonlinear_arith)
                requires
                    den * rest <= index,
                    next == rest / base,
                    base >= 2,
            ;
            assert(((digit as nat) * d1 + n1) + num * (d1 * b) == n1 + (num * base + digit) * d1)
                by (nonlinear_arith)
                requires
                    b == base,
            ;
            assert((d1 * b) * den == d1 * (den * base)) by (nonlinear_arith)
                requires
                    b == base,
            ;
        }
        num = num * (base as u64) + (digit as u64);
        den = den * (base as u64);
        rest = next;
    }
    (num, den)
}

/// A jitter offset in normalized pixel units, each axis an exact fraction
/// with a positive denominator.
#[derive(Clone, Copy, Debug, PartialEq, Eq, Structural)]
pub struct JitterOffset {
    pub x_num: i64,
    pub x_den: u64,
    pub y_num: i64,
    pub y_den: u64,
}

/// Position in the jitter sequence that frame `frame_index` draws from.
pub open spec fn sample_index(frame_index: nat) -> nat {
    frame_index % (JITTER_SAMPLES as nat)
}

/// One axis of the jitter offset: the Halton sample in `base` at position
/// `sample` of the sequence, centered on zero and divided by the extent
/// `extent` of the framebuffer along that axis.
pub open spec fn axis_offset(sample: nat, base: nat, extent: nat) -> (int, nat) {
    let (num, den) = radical_inverse(sample + 1, base);
    (2 * num - den, 2 * den * extent)
}

/// The jitter offset of frame `frame_index` for a framebuffer of `width` by
/// `height` pixels.
pub open spec fn jitter_for(frame_index: nat, width: nat, height: nat) -> JitterOffset {
    let x = axis_offset(sample_index(frame_index), 2, width);
    let y = axis_offset(sample_index(frame_index), 3, height);
    JitterOffset { x_num: x.0 as i64, x_den: x.1 as u64, y_num: y.0 as i64, y_den: y.1 as u64 }
}

/// One axis of a jitter offset is no more than half a pixel either way:
/// `|num / den| <= 1 / (2 * extent)`.
pub open spec fn within_half_pixel(num: int, den: nat, extent: nat) -> bool {
    &&& den > 0
    &&& -(den as int) <= 2 * extent * num
    &&& 2 * extent * num <= den
}

fn axis(sample: u32, base: u32, extent: u32) -> (offset: (i64, u64))
    requires
        sample < JITTER_SAMPLES,
        base == 2 || base == 3,
        extent > 0,
    ensures
        (offset.0 as int, offset.1 as nat) == axis_offset(sample as nat, base as nat, extent as nat),
        within_half_pixel(offset.0 as int, offset.1 as nat, extent as nat),
{
    let (num, den) = halton(sample + 1, base);
    assert(den <= 24) by (nonlinear_arith)
        requires
            den <= (sample + 1) * base,
            sample < 8,
            base <= 3,
    ;
    let centered: i64 = 2 * (num as i64) - (den as i64);
    assert(2 * den * extent <= 48 * 0xffff_ffff) by (nonlinear_arith)
        requires
            den <= 24,
            extent <= 0xffff_ffff,
    ;
    let scaled: u64 = 2 * den * (extent as u64);
    proof {
        assert(scaled > 0 && -(scaled as int) <= 2 * extent * centered && 2 * extent * centered
            <= scaled) by (nonlinear_arith)
            requires
                centered == 2 * num - den,
                scaled == 2 * den * extent,
                num < den,
                extent > 0,
        ;
    }
    (centered, scaled)
}

/// Jitter offset for the frame with the given index.
///
/// The sample is picked by `frame_index` modulo 8, so the offsets repeat
/// every eight frames, and each axis stays within half a pixel.
pub fn jitter_offset(frame_index: u64, width: u32, height: u32) -> (offset: JitterOffset)
    requires
        width > 0,
        height > 0,
    ensures
        offset == jitter_for(frame_index as nat, width as nat, height as nat),
        within_half_pixel(offset.x_num as int, offset.x_den as nat, width as nat),
        within_half_pixel(offset.y_num as int, offset.y_den as nat, height as nat),
{
    let sample: u32 = (frame_index % (JITTER_SAMPLES as u64)) as u32;
    let x = axis(sample, 2, width);
    let y = axis(sample, 3, height);
    JitterOffset { x_num: x.0, x_den: x.1, y_num: y.0, y_den: y.1 }
}

/// The jitter sequence has period 8.
pub proof fn lemma_jitter_period(frame_index: nat, width: nat, height: nat)
    ensures
        jitter_for(frame_index + JITTER_SAMPLES as nat, width, height) == jitter_for(
            frame_index,
            width,
            height,
        ),
{
    assert((frame_index + 8) % 8 == frame_index % 8);
}

/// Every offset of the sequence is within half a pixel on both axes.
pub proof fn lemma_jitter_bound(frame_index: nat, width: nat, height: nat)
    requires
        width > 0,
        height > 0,
    ensures
        within_half_pixel(
            axis_offset(sample_index(frame_index), 2, width).0,
            axis_offset(sample_index(frame_index), 2, width).1,
            width,
        ),
        within_half_pixel(
            axis_offset(sample_index(frame_index), 3, height).0,
            axis_offset(sample_index(frame_index), 3, height).1,
            height,
        ),
{
    let s = sample_index(frame_index);
    lemma_axis_bound(s, 2, width);
    lemma_axis_bound(s, 3, height);
}

proof fn lemma_axis_bound(sample: nat, base: nat, extent: nat)
    requires
        base >= 2,
        extent > 0,
    ensures
        within_half_pixel(
            axis_offset(sample, base, extent).0,
            axis_offset(sample, base, extent).1,
            extent,
        ),
{
    let (num, den) = radical_inverse(sample + 1, base);
    lemma_radical_inverse_bounds(sample + 1, base);
    let centered = 2 * num - den;
    let scaled = 2 * den * extent;
    assert(scaled > 0 && -(scaled as int) <= 2 * extent * centered && 2 * extent * centered
        <= scaled) by (nonlinear_arith)
        requires
            centered == 2 * num - den,
            scaled == 2 * den * extent,
            num < den,
            den >= 1,
            extent > 0,
    ;
}

} // verus!

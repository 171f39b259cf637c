//! Sizes of the screen buffers: the chain of depth minimum and maximum
//! below the full-size depth buffer.

use vstd::prelude::*;

verus! {

/// Number of levels in the chain of depth minimum and maximum.
pub const DEPTH_LEVELS: u32 = 4;

/// The extent of level `level` along an axis whose full extent is `full`:
/// `full` divided by two to the power of `level`, rounded up.
pub open spec fn level_extent(full: int, level: int) -> int
    decreases level,
{
    if level <= 0 {
        full
    } else {
        (level_extent(full, level - 1) + 1) / 2
    }
}

/// A level is the full extent divided by two to the power of the level,
/// rounded up.
pub proof fn lemma_level_extent(full: int)
    ensures
        2 * level_extent(full, 1) - 1 <= full <= 2 * level_extent(full, 1),
        4 * level_extent(full, 2) - 3 <= full <= 4 * level_extent(full, 2),
        8 * level_extent(full, 3) - 7 <= full <= 8 * level_extent(full, 3),
        16 * level_extent(full, 4) - 15 <= full <= 16 * level_extent(full, 4),
        0 <= full ==> level_extent(full, 1) == (full + 1) / 2,
        0 <= full ==> level_extent(full, 2) == (full + 3) / 4,
        0 <= full ==> level_extent(full, 3) == (full + 7) / 8,
        0 <= full ==> level_extent(full, 4) == (full + 15) / 16,
{
    reveal_with_fuel(level_extent, 5);
}

/// The quotient of `full` by the positive `divisor`, rounded up.
fn divide_up(full: i32, divisor: i32) -> (quotient: i32)
    requires
        divisor == 2 || divisor == 4 || divisor == 8 || divisor == 16,
    ensures
        divisor * quotient - (divisor - 1) <= full <= divisor * quotient,
{
    let whole: i32 = full / divisor;
    if full > 0 && full % divisor != 0 {
        whole + 1
    } else {
        whole
    }
}

/// Extent of a level of the chain along an axis whose full extent is
/// `full`: each level halves the one above and rounds up, so that no texel
/// of the level above is left out.
pub fn depth_min_max_extent(full: i32, level: u32) -> (extent: i32)
    requires
        1 <= level <= DEPTH_LEVELS,
    ensures
        extent == level_extent(full as int, level as int),
{
    proof {
        lemma_level_extent(full as int);
    }
    if level == 1 {
        divide_up(full, 2)
    } else if level == 2 {
        divide_up(full, 4)
    } else if level == 3 {
        divide_up(full, 8)
    } else {
        divide_up(full, 16)
    }
}

/// Width and height of a level of the chain below a depth buffer of
/// `max_width` by `max_height`.
pub fn depth_min_max_size(max_width: i32, max_height: i32, level: u32) -> (size: (i32, i32))
    requires
        1 <= level <= DEPTH_LEVELS,
    ensures
        size.0 == level_extent(max_width as int, level as int),
        size.1 == level_extent(max_height as int, level as int),
{
    (depth_min_max_extent(max_width, level), depth_min_max_extent(max_height, level))
}

} // verus!

//! Render targets: G-buffer (color, reversed-Z depth, velocity), the resolve
//! target, the two history targets and the bloom mip chain.

use vstd::prelude::*;

verus! {

/// Number of downsample levels in the bloom chain.
pub const BLOOM_MIP_LEVELS: usize = 5;

/// Downsample levels plus the lens level.
pub const BLOOM_MIP_COUNT: usize = BLOOM_MIP_LEVELS + 1;

/// Number of textures in one target set.
pub const TARGET_COUNT: usize = 12;

/// A surface that a pass can read from or write to.
#[derive(Clone, Copy, Debug, PartialEq, Eq, Structural)]
pub enum Target {
    /// Scene color of the G-buffer.
    Color,
    /// Reversed-Z depth of the G-buffer, cleared to 0.
    Depth,
    /// Screen-space velocity of the G-buffer.
    Velocity,
    /// Output of the temporal resolve.
    Resolve,
    /// One of the two ping-pong history targets.
    History(usize),
    /// A level of the bloom chain; the last level is the lens level.
    BloomMip(usize),
    /// The image that is presented.
    Swapchain,
    /// Depth shared by the passes that draw straight to the presented image.
    MainDepth,
}

/// Texel layout of a target.
#[derive(Clone, Copy, Debug, PartialEq, Eq, Structural)]
pub enum TextureFormat {
    Rgba16Float,
    Rg16Float,
    Depth32Float,
}

/// What is needed to create one texture of a target set.
#[derive(Clone, Copy, Debug, PartialEq, Eq, Structural)]
pub struct TextureSpec {
    pub target: Target,
    pub width: u32,
    pub height: u32,
    pub format: TextureFormat,
}

/// Right shift that takes a full extent to the extent of bloom level `index`.
pub open spec fn bloom_shift(index: int) -> u32 {
    if index < BLOOM_MIP_LEVELS - 1 {
        (index + 1) as u32
    } else {
        BLOOM_MIP_LEVELS as u32
    }
}

/// Extent of bloom level `index` along an axis whose full extent is `full`.
pub open spec fn bloom_extent(full: u32, index: int) -> u32 {
    let shifted = full >> bloom_shift(index);
    if shifted < 1 {
        1
    } else {
        shifted
    }
}

/// Width and height of bloom level `index` for a full size of `width` by `height`.
pub open spec fn bloom_size(width: u32, height: u32, index: int) -> (u32, u32) {
    (bloom_extent(width, index), bloom_extent(height, index))
}

/// The slot that a target occupies in a set, if the set holds it.
pub open spec fn slot_of(target: Target) -> Option<int> {
    match target {
        Target::Color => Some(0),
        Target::Depth => Some(1),
        Target::Velocity => Some(2),
        Target::Resolve => Some(3),
        Target::History(i) => if i < 2 {
            Some(4 + i)
        } else {
            None
        },
        Target::BloomMip(i) => if i < BLOOM_MIP_COUNT {
            Some(6 + i)
        } else {
            None
        },
        Target::Swapchain => None,
        Target::MainDepth => None,
    }
}

/// The target that occupies slot `slot` of a set.
pub open spec fn target_at(slot: int) -> Target {
    if slot == 0 {
        Target::Color
    } else if slot == 1 {
        Target::Depth
    } else if slot == 2 {
        Target::Velocity
    } else if slot == 3 {
        Target::Resolve
    } else if slot < 6 {
        Target::History((slot - 4) as usize)
    } else {
        Target::BloomMip((slot - 6) as usize)
    }
}

/// The format that a target of a set is created with.
pub open spec fn format_of(target: Target) -> TextureFormat {
    match target {
        Target::Depth => TextureFormat::Depth32Float,
        Target::MainDepth => TextureFormat::Depth32Float,
        Target::Velocity => TextureFormat::Rg16Float,
        _ => TextureFormat::Rgba16Float,
    }
}

/// The texture in slot `slot` of a set made for `width` by `height`.
pub open spec fn texture_at(width: u32, height: u32, slot: int) -> TextureSpec {
    let target = target_at(slot);
    match target {
        Target::BloomMip(i) => TextureSpec {
            target,
            width: bloom_extent(width, i as int),
            height: bloom_extent(height, i as int),
            format: format_of(target),
        },
        _ => TextureSpec { target, width, height, format: format_of(target) },
    }
}

/// All textures of a set made for `width` by `height`, in slot order.
pub open spec fn textures_for(width: u32, height: u32) -> Seq<TextureSpec> {
    Seq::new(TARGET_COUNT as nat, |slot: int| texture_at(width, height, slot))
}

fn bloom_extent_of(full: u32, index: usize) -> (r: u32)
    ensures
        r == bloom_extent(full, index as int),
{
    let shift: u32 = if index < BLOOM_MIP_LEVELS - 1 {
        (index + 1) as u32
    } else {
        BLOOM_MIP_LEVELS as u32
    };
    let shifted: u32 = full >> shift;
    if shifted < 1 {
        1
    } else {
        shifted
    }
}

/// One set of G-buffer, resolve, history and bloom targets for a single size.
///
/// A set is made whole for one size and never resized: a different size
/// takes a new set.
#[derive(Debug)]
pub struct GbufferSet {
    width: u32,
    height: u32,
    textures: Vec<TextureSpec>,
}

impl GbufferSet {
    #[verifier::type_invariant]
    spec fn inv(self) -> bool {
        self.textures@ =~= textures_for(self.width, self.height)
    }

    /// The size the set was made for.
    pub closed spec fn size(self) -> (u32, u32) {
        (self.width, self.height)
    }

    /// The textures of the set, in slot order.
    pub closed spec fn view(self) -> Seq<TextureSpec> {
        self.textures@
    }

    /// Plans the targets for the given size.
    pub fn new(width: u32, height: u32) -> (set: Self)
        ensures
            set.size() == (width, height),
            set@ == textures_for(width, height),
    {
        let mut textures: Vec<TextureSpec> = Vec::new();
        textures.push(
            TextureSpec { target: Target::Color, width, height, format: TextureFormat::Rgba16Float },
        );
        textures.push(
            TextureSpec { target: Target::Depth, width, height, format: TextureFormat::Depth32Float },
        );
        textures.push(
            TextureSpec { target: Target::Velocity, width, height, format: TextureFormat::Rg16Float },
        );
        textures.push(
            TextureSpec { target: Target::Resolve, width, height, format: TextureFormat::Rgba16Float },
        );
        textures.push(
            TextureSpec {
                target: Target::History(0),
                width,
                height,
                format: TextureFormat::Rgba16Float,
            },
        );
        textures.push(
            TextureSpec {
                target: Target::History(1),
                width,
                height,
                format: TextureFormat::Rgba16Float,
            },
        );
        let mut level: usize = 0;
        while level < BLOOM_MIP_COUNT
            invariant
                level <= BLOOM_MIP_COUNT,
                textures@.len() == 6 + level,
                forall|slot: int|
                    0 <= slot < 6 + level ==> textures@[slot] == texture_at(width, height, slot),
            decreases BLOOM_MIP_COUNT - level,
        {
            textures.push(
                TextureSpec {
                    target: Target::BloomMip(level),
                    width: bloom_extent_of(width, level),
                    height: bloom_extent_of(height, level),
                    format: TextureFormat::Rgba16Float,
                },
            );
            level = level + 1;
        }
        assert(textures@ =~= textures_for(width, height));
        GbufferSet { width, height, textures }
    }

    /// Width the set was made for.
    pub fn width(&self) -> (w: u32)
        ensures
            w == self.size().0,
    {
        self.width
    }

    /// Height the set was made for.
    pub fn height(&self) -> (h: u32)
        ensures
            h == self.size().1,
    {
        self.height
    }

    /// Width and height of a bloom level (0-based, where 0 is half resolution).
    /// Levels past the last downsample level have the size of that level.
    pub fn bloom_mip_size(&self, index: usize) -> (size: (u32, u32))
        ensures
            size == bloom_size(self.size().0, self.size().1, index as int),
    {
        (bloom_extent_of(self.width, index), bloom_extent_of(self.height, index))
    }

    /// The texture that backs `target`, or `None` where the set holds no such target.
    pub fn texture(&self, target: Target) -> (found: Option<TextureSpec>)
        ensures
            self@ == textures_for(self.size().0, self.size().1),
            match slot_of(target) {
                Some(slot) => found == Some(self@[slot]),
                None => found.is_none(),
            },
    {
        proof {
            use_type_invariant(self);
        }
        let slot: usize = match target {
            Target::Color => 0,
            Target::Depth => 1,
            Target::Velocity => 2,
            Target::Resolve => 3,
            Target::History(i) => {
                if i < 2 {
                    4 + i
                } else {
                    return None;
                }
            },
            Target::BloomMip(i) => {
                if i < BLOOM_MIP_COUNT {
                    6 + i
                } else {
                    return None;
                }
            },
            Target::Swapchain => {
                return None;
            },
            Target::MainDepth => {
                return None;
            },
        };
        Some(self.textures[slot])
    }

    /// The textures to create for the set, in slot order.
    pub fn textures(&self) -> (all: &Vec<TextureSpec>)
        ensures
            all@ == self@,
            self@ == textures_for(self.size().0, self.size().1),
    {
        proof {
            use_type_invariant(self);
        }
        &self.textures
    }
}

/// Every bloom level below the lens level has the full size shifted right by
/// its index plus one, and no less than one texel; the lens level has the
/// size of the last downsample level.
pub proof fn lemma_bloom_mip_sizing(width: u32, height: u32, index: int)
    requires
        0 <= index < BLOOM_MIP_LEVELS,
    ensures
        bloom_size(width, height, index).0 == if (width >> ((index + 1) as u32)) < 1 {
            1
        } else {
            width >> ((index + 1) as u32)
        },
        bloom_size(width, height, index).1 == if (height >> ((index + 1) as u32)) < 1 {
            1
        } else {
            height >> ((index + 1) as u32)
        },
        bloom_size(width, height, BLOOM_MIP_LEVELS as int) == bloom_size(
            width,
            height,
            BLOOM_MIP_LEVELS - 1,
        ),
        textures_for(width, height)[6 + index].target == Target::BloomMip(index as usize),
        (textures_for(width, height)[6 + index].width, textures_for(width, height)[6 + index].height)
            == bloom_size(width, height, index),
        (textures_for(width, height)[11].width, textures_for(width, height)[11].height)
            == bloom_size(width, height, BLOOM_MIP_LEVELS - 1),
{
}

/// A bloom level is the full extent halved once per level, rounded down, and
/// no less than one texel.
pub proof fn lemma_bloom_extent_halves(full: u32, index: int)
    requires
        0 <= index < BLOOM_MIP_LEVELS,
    ensures
        index == 0 ==> bloom_extent(full, index) == if full / 2 < 1 { 1 } else { full / 2 },
        index == 1 ==> bloom_extent(full, index) == if full / 4 < 1 { 1 } else { full / 4 },
        index == 2 ==> bloom_extent(full, index) == if full / 8 < 1 { 1 } else { full / 8 },
        index == 3 ==> bloom_extent(full, index) == if full / 16 < 1 { 1 } else { full / 16 },
        index == 4 ==> bloom_extent(full, index) == if full / 32 < 1 { 1 } else { full / 32 },
{
    assert(full >> 1u32 == full / 2) by (bit_vector);
    assert(full >> 2u32 == full / 4) by (bit_vector);
    assert(full >> 3u32 == full / 8) by (bit_vector);
    assert(full >> 4u32 == full / 16) by (bit_vector);
    assert(full >> 5u32 == full / 32) by (bit_vector);
}

} // verus!

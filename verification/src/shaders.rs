//! The shader programs of the renderer, by slot.

use vstd::prelude::*;

verus! {

/// A shader program; `NPrograms` is not one, it counts them.
#[derive(Clone, Copy, Debug, PartialEq, Eq, Structural)]
pub enum Programs {
    Screen,
    Cube,
    Line2DStrip,
    Particles,
    DepthMaxMin0,
    DepthMaxMin1,
    NPrograms,
}

impl Programs {
    /// Position of the program in declaration order.
    pub open spec fn ordinal(self) -> int {
        match self {
            Programs::Screen => 0,
            Programs::Cube => 1,
            Programs::Line2DStrip => 2,
            Programs::Particles => 3,
            Programs::DepthMaxMin0 => 4,
            Programs::DepthMaxMin1 => 5,
            Programs::NPrograms => 6,
        }
    }

    /// Slot of the program in the table of linked programs.
    pub fn slot(self) -> (slot: usize)
        ensures
            slot == self.ordinal(),
            self != Programs::NPrograms ==> slot < Programs::NPrograms.ordinal(),
    {
        match self {
            Programs::Screen => 0,
            Programs::Cube => 1,
            Programs::Line2DStrip => 2,
            Programs::Particles => 3,
            Programs::DepthMaxMin0 => 4,
            Programs::DepthMaxMin1 => 5,
            Programs::NPrograms => 6,
        }
    }
}

/// No two programs share a slot.
pub proof fn lemma_slots_differ(a: Programs, b: Programs)
    requires
        a.ordinal() == b.ordinal(),
    ensures
        a == b,
{
}

} // verus!

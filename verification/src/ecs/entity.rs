//! Entity: a handle for an object in the world. It holds no data of its own.

use vstd::prelude::*;

verus! {

/// Opaque handle for an entity.
///
/// The handle of index `i` holds `i + 1`, so that it is never zero.
#[derive(Clone, Copy, Debug, PartialEq, Eq, Hash)]
pub struct Entity {
    raw: u32,
}

impl Entity {
    #[verifier::type_invariant]
    spec fn inv(self) -> bool {
        self.raw >= 1
    }

    /// The index the handle stands for.
    pub closed spec fn index(self) -> int {
        self.raw - 1
    }

    /// The handle of the entity with the given index.
    pub fn from_index(index: u32) -> (entity: Self)
        requires
            index < u32::MAX,
        ensures
            entity.index() == index,
    {
        Entity { raw: index + 1 }
    }

    /// The index of the entity.
    pub fn to_index(self) -> (index: u32)
        ensures
            index == self.index(),
            index < u32::MAX,
    {
        proof {
            use_type_invariant(self);
        }
        self.raw - 1
    }
}

/// Two handles of the same index are the same handle.
pub proof fn lemma_index_identifies(a: Entity, b: Entity)
    requires
        a.index() == b.index(),
    ensures
        a == b,
{
}

} // verus!

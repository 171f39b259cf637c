//! Book-keeping for two buffers that hold all static geometry: where the
//! next piece of vertex data and the next piece of element data go.

use vstd::prelude::*;

verus! {

/// The low bits of an offset that have to be clear for a piece to start there.
pub const PADDING: usize = 63;

/// Where a piece starts when the buffer is filled up to `offset`: at
/// `offset` where its low six bits are clear, else at the last byte of the
/// block of 64 that `offset` lies in.
pub open spec fn padded(offset: usize) -> usize {
    if offset & PADDING != 0 {
        (offset + (!(offset & PADDING) & PADDING)) as usize
    } else {
        offset
    }
}

/// Where a piece starts lies no more than 62 bytes past the fill level and
/// has either all or none of its low six bits set.
pub proof fn lemma_padded(offset: usize)
    ensures
        offset <= padded(offset) <= offset + 62,
        padded(offset) == offset || padded(offset) == (offset | PADDING),
        offset & PADDING != 0 ==> padded(offset) == offset + (!(offset & PADDING) & PADDING),
{
    assert(offset & 63 != 0 ==> 0 <= (!(offset & 63) & 63) <= 62 && offset + (!(offset & 63) & 63)
        == (offset | 63)) by (bit_vector);
}

/// Fill levels of the vertex buffer and of the element buffer.
#[derive(Clone, Copy, Debug)]
pub struct StaticGeometry {
    pub vertex_buffer_size: usize,
    pub vertex_last_offset: usize,
    pub element_buffer_size: usize,
    pub element_last_offset: usize,
}

fn place(last_offset: usize, len: usize) -> (placed: (usize, usize))
    requires
        padded(last_offset) + len <= usize::MAX,
    ensures
        placed.0 == padded(last_offset),
        placed.1 == padded(last_offset) + len,
{
    proof {
        lemma_padded(last_offset);
    }
    let mut offset = last_offset;
    if offset & PADDING != 0 {
        let gap: usize = !(offset & PADDING) & PADDING;
        offset = offset + gap;
    }
    (offset, offset + len)
}

impl StaticGeometry {
    /// Two empty buffers of the given sizes.
    pub fn new(vertex_buffer_size: usize, element_buffer_size: usize) -> (geometry: Self)
        ensures
            geometry == (StaticGeometry {
                vertex_buffer_size,
                vertex_last_offset: 0,
                element_buffer_size,
                element_last_offset: 0,
            }),
    {
        StaticGeometry {
            vertex_buffer_size,
            vertex_last_offset: 0,
            element_buffer_size,
            element_last_offset: 0,
        }
    }

    /// Whether `len` more bytes of vertex data fit.
    pub open spec fn fits_vertices(self, len: usize) -> bool {
        padded(self.vertex_last_offset) + len <= self.vertex_buffer_size
    }

    /// Whether `len` more bytes of element data fit.
    pub open spec fn fits_elements(self, len: usize) -> bool {
        padded(self.element_last_offset) + len <= self.element_buffer_size
    }

    /// Reserves room for `len` bytes of vertex data and returns the offset
    /// at which they go.
    pub fn add_vertices(&mut self, len: usize) -> (offset: usize)
        requires
            old(self).fits_vertices(len),
        ensures
            offset == padded(old(self).vertex_last_offset),
            *final(self) == (StaticGeometry {
                vertex_last_offset: (offset + len) as usize,
                ..*old(self)
            }),
    {
        let (offset, end) = place(self.vertex_last_offset, len);
        self.vertex_last_offset = end;
        offset
    }

    /// Reserves room for `len` bytes of element data and returns the
    /// offset at which they go.
    pub fn add_elements(&mut self, len: usize) -> (offset: usize)
        requires
            old(self).fits_elements(len),
        ensures
            offset == padded(old(self).element_last_offset),
            *final(self) == (StaticGeometry {
                element_last_offset: (offset + len) as usize,
                ..*old(self)
            }),
    {
        let (offset, end) = place(self.element_last_offset, len);
        self.element_last_offset = end;
        offset
    }

    /// Reserves room for `len` bytes of vertex data where they fit, and
    /// tells where they go; leaves everything as it is where they do not.
    pub fn try_add_vertices(&mut self, len: usize) -> (offset: Option<usize>)
        ensures
            old(self).fits_vertices(len) ==> offset == Some(padded(old(self).vertex_last_offset))
                && *final(self) == (StaticGeometry {
                vertex_last_offset: (padded(old(self).vertex_last_offset) + len) as usize,
                ..*old(self)
            }),
            !old(self).fits_vertices(len) ==> offset.is_none() && *final(self) == *old(self),
    {
        let start = place(self.vertex_last_offset, 0).0;
        if start > self.vertex_buffer_size || len > self.vertex_buffer_size - start {
            return None;
        }
        Some(self.add_vertices(len))
    }

    /// Reserves room for `len` bytes of element data where they fit, and
    /// tells where they go; leaves everything as it is where they do not.
    pub fn try_add_elements(&mut self, len: usize) -> (offset: Option<usize>)
        ensures
            old(self).fits_elements(len) ==> offset == Some(padded(old(self).element_last_offset))
                && *final(self) == (StaticGeometry {
                element_last_offset: (padded(old(self).element_last_offset) + len) as usize,
                ..*old(self)
            }),
            !old(self).fits_elements(len) ==> offset.is_none() && *final(self) == *old(self),
    {
        let start = place(self.element_last_offset, 0).0;
        if start > self.element_buffer_size || len > self.element_buffer_size - start {
            return None;
        }
        Some(self.add_elements(len))
    }
}

} // verus!

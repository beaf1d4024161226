//! Overlay bookkeeping: the glyph-cache texture growth policy and the
//! glyph vertex upload policy.  Text shaping and the draw calls belong to
//! the host and its glyph toolkit.

use vstd::prelude::*;

verus! {

/// When the glyph cache reports it is too small, pick the next texture
/// size: jump straight to the device maximum when the suggestion exceeds
/// it in a dimension while the current texture is still below it in one;
/// otherwise take the suggestion as it is.
pub fn glyph_texture_growth(suggested: (u32, u32), current: (u32, u32), max_size: u32) -> (r: (
    u32,
    u32,
))
    ensures
        r == if (suggested.0 > max_size || suggested.1 > max_size) && (current.0 < max_size
            || current.1 < max_size) {
            (max_size, max_size)
        } else {
            suggested
        },
{
    if (suggested.0 > max_size || suggested.1 > max_size) && (current.0 < max_size || current.1
        < max_size) {
        (max_size, max_size)
    } else {
        suggested
    }
}

/// How many glyph vertices are currently drawn, and the high-water mark of
/// the GPU vertex buffer's capacity.
pub struct VertexStore {
    vertex_count: usize,
    max_vertices: usize,
}

impl VertexStore {
    pub closed spec fn spec_count(&self) -> usize {
        self.vertex_count
    }

    pub closed spec fn spec_max(&self) -> usize {
        self.max_vertices
    }

    pub fn new() -> (r: Self)
        ensures
            r.spec_count() == 0,
            r.spec_max() == 0,
    {
        Self { vertex_count: 0, max_vertices: 0 }
    }

    /// Decide how a new batch of vertices reaches the GPU buffer: a full
    /// reallocation when the batch outgrows the high-water mark, an
    /// in-place update otherwise.  The mark then covers the batch.
    pub fn plan_upload(&mut self, count: usize) -> (grow: bool)
        ensures
            grow <==> old(self).spec_max() < count,
            final(self).spec_count() == count,
            final(self).spec_max() == if old(self).spec_max() < count {
                count as int
            } else {
                old(self).spec_max() as int
            },
    {
        self.vertex_count = count;
        if self.max_vertices < count {
            self.max_vertices = count;
            true
        } else {
            false
        }
    }

    pub fn count(&self) -> (r: usize)
        ensures
            r == self.spec_count(),
    {
        self.vertex_count
    }
}

} // verus!

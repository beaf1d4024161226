//! Texture pixel-format bookkeeping.

use vstd::prelude::*;

verus! {

/// Pixel format of a texture's backing store, named by its GL unpack
/// alignment.
#[allow(non_camel_case_types)]
#[derive(Clone, Copy, PartialEq, Eq, Structural, Debug)]
pub enum Alignment {
    /// Single-channel, one byte per pixel.
    RED,
    /// Four channels, four bytes per pixel.
    BGRA,
}

/// The unpack alignment value of each format.
pub open spec fn spec_alignment_value(a: Alignment) -> int {
    match a {
        Alignment::RED => 1,
        Alignment::BGRA => 4,
    }
}

impl Alignment {
    /// The row-alignment (bytes per pixel) this format is uploaded with.
    pub fn value(&self) -> (r: i32)
        ensures
            r == spec_alignment_value(*self),
    {
        match self {
            Alignment::RED => 1,
            Alignment::BGRA => 4,
        }
    }
}

/// Byte length of a tightly packed `width x height` four-channel pixel
/// buffer, as read back for a PNG export.
pub fn rgba_buffer_len(width: u32, height: u32) -> (r: usize)
    requires
        width as int * height as int * 4 <= usize::MAX,
    ensures
        r == width as int * height as int * 4,
{
    proof {
        assert(width as int * height as int >= 0) by (nonlinear_arith);
    }
    (width as usize) * (height as usize) * 4
}

} // verus!

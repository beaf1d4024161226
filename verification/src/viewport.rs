//! Window viewport: origin, size, and the bounds of its orthographic
//! projection.  The host builds the actual projection matrix from the
//! integer bounds returned by [`Viewport::transform`].

use vstd::prelude::*;

verus! {

/// Bounds of an orthographic projection over a viewport, with a fixed
/// near/far range of `1 .. -1`.
pub struct OrthoBounds {
    pub left: i64,
    pub right: i64,
    pub bottom: i64,
    pub top: i64,
    pub near: i64,
    pub far: i64,
}

/// A rectangular drawing region of the window.
pub struct Viewport {
    x: i32,
    y: i32,
    w: u32,
    h: u32,
}

impl Viewport {
    pub closed spec fn spec_x(&self) -> i32 {
        self.x
    }

    pub closed spec fn spec_y(&self) -> i32 {
        self.y
    }

    pub closed spec fn spec_width(&self) -> u32 {
        self.w
    }

    pub closed spec fn spec_height(&self) -> u32 {
        self.h
    }

    /// A viewport covering a whole window of the given size.
    pub fn from_window(width: u32, height: u32) -> (r: Self)
        ensures
            r.spec_x() == 0,
            r.spec_y() == 0,
            r.spec_width() == width,
            r.spec_height() == height,
    {
        Self { x: 0, y: 0, w: width, h: height }
    }

    pub fn width(&self) -> (r: u32)
        ensures
            r == self.spec_width(),
    {
        self.w
    }

    pub fn height(&self) -> (r: u32)
        ensures
            r == self.spec_height(),
    {
        self.h
    }

    pub fn size(&self) -> (r: (u32, u32))
        ensures
            r == (self.spec_width(), self.spec_height()),
    {
        (self.w, self.h)
    }

    pub fn update_size(&mut self, width: u32, height: u32)
        ensures
            final(self).spec_width() == width,
            final(self).spec_height() == height,
            final(self).spec_x() == old(self).spec_x(),
            final(self).spec_y() == old(self).spec_y(),
    {
        self.w = width;
        self.h = height;
    }

    /// The orthographic projection that maps this viewport's pixel
    /// rectangle onto clip space.
    pub fn transform(&self) -> (r: OrthoBounds)
        ensures
            r.left == self.spec_x(),
            r.right == self.spec_x() + self.spec_width(),
            r.bottom == self.spec_y(),
            r.top == self.spec_y() + self.spec_height(),
            r.near == 1,
            r.far == -1,
    {
        OrthoBounds {
            left: self.x as i64,
            right: self.x as i64 + self.w as i64,
            bottom: self.y as i64,
            top: self.y as i64 + self.h as i64,
            near: 1,
            far: -1,
        }
    }
}

} // verus!

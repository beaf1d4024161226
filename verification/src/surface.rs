//! The source image surface: the base image's dimensions, the size it is
//! currently scaled to (aspect-fit into the viewport), and the GL texture
//! holding the scaled pixels.  Decoding and rescaling the pixel data is
//! the host's work with its image toolkit; the sizing is decided here.

use vstd::prelude::*;
use crate::utils::{scale_keep_aspect, spec_scale_keep_aspect};

verus! {

/// A base image and its viewport-fitted scaled copy on the GPU.
pub struct ImgSurface {
    img_w: u32,
    img_h: u32,
    width: u32,
    height: u32,
    tex: u32,
}

impl ImgSurface {
    pub closed spec fn spec_img_size(&self) -> (u32, u32) {
        (self.img_w, self.img_h)
    }

    pub closed spec fn spec_size(&self) -> (u32, u32) {
        (self.width, self.height)
    }

    pub closed spec fn spec_tex(&self) -> u32 {
        self.tex
    }

    /// The scaled size is the base size aspect-fitted into the given
    /// bounds.
    pub open spec fn spec_fits(&self, bound_w: u32, bound_h: u32) -> bool {
        (self.spec_size().0 as int, self.spec_size().1 as int) == spec_scale_keep_aspect(
            self.spec_img_size().0 as int,
            self.spec_img_size().1 as int,
            bound_w as int,
            bound_h as int,
        )
    }

    /// Take over a freshly decoded base image of `img_w x img_h` pixels,
    /// scaled to fit `width x height`, with `tex` the texture the host
    /// created for the scaled pixels.
    pub fn new_from_image(img_w: u32, img_h: u32, width: u32, height: u32, tex: u32) -> (r: Self)
        requires
            img_w > 0,
            img_h > 0,
        ensures
            r.spec_img_size() == (img_w, img_h),
            r.spec_tex() == tex,
            r.spec_fits(width, height),
    {
        let (scaled_w, scaled_h) = scale_keep_aspect(img_w, img_h, width, height);
        Self { img_w, img_h, width: scaled_w, height: scaled_h, tex }
    }

    /// Rescale the base image to fit new bounds; the host rescales the
    /// pixels to the resulting [`ImgSurface::size`] and refreshes the
    /// texture.
    pub fn resize_image(&mut self, width: u32, height: u32)
        requires
            old(self).spec_img_size().0 > 0,
            old(self).spec_img_size().1 > 0,
        ensures
            final(self).spec_img_size() == old(self).spec_img_size(),
            final(self).spec_tex() == old(self).spec_tex(),
            final(self).spec_fits(width, height),
    {
        let (scaled_w, scaled_h) = scale_keep_aspect(self.img_w, self.img_h, width, height);
        self.width = scaled_w;
        self.height = scaled_h;
    }

    pub fn size(&self) -> (r: (u32, u32))
        ensures
            r == self.spec_size(),
    {
        (self.width, self.height)
    }

    pub fn width(&self) -> (r: u32)
        ensures
            r == self.spec_size().0,
    {
        self.width
    }

    pub fn height(&self) -> (r: u32)
        ensures
            r == self.spec_size().1,
    {
        self.height
    }

    pub fn texture(&self) -> (r: u32)
        ensures
            r == self.spec_tex(),
    {
        self.tex
    }
}

} // verus!

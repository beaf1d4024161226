//! Render target bookkeeping: one framebuffer object, its attached color
//! texture, and the current attachment size.  The host performs the GPU
//! binds and reports the completeness status it observed; an incomplete
//! attachment is a fatal configuration error and is surfaced as `Err`.

use vstd::prelude::*;

verus! {

/// Status a complete framebuffer attachment reports.
pub const FRAMEBUFFER_COMPLETE: u32 = 0x8CD5;

/// One framebuffer object with an optionally attached color texture.
/// A texture handle of `0` means no texture is attached.
#[derive(Clone, Copy)]
pub struct Framebuffer {
    fbo: u32,
    tex: u32,
    size: (u32, u32),
}

impl Framebuffer {
    pub closed spec fn spec_fbo(&self) -> u32 {
        self.fbo
    }

    pub closed spec fn spec_tex(&self) -> u32 {
        self.tex
    }

    pub closed spec fn spec_size(&self) -> (u32, u32) {
        self.size
    }

    /// A fresh render target around an existing framebuffer object, with
    /// no texture attached yet.
    pub fn from_fbo(fbo: u32) -> (r: Self)
        ensures
            r.spec_fbo() == fbo,
            r.spec_tex() == 0,
            r.spec_size() == (0u32, 0u32),
    {
        Self { fbo, tex: 0, size: (0, 0) }
    }

    /// Record the attachment of `tex` (of size `tex_size`) as this
    /// framebuffer's color target.  `status` is the completeness status the
    /// GPU reported for the attachment; anything other than
    /// [`FRAMEBUFFER_COMPLETE`] is a fatal configuration error.
    pub fn attach_texture(&mut self, tex: u32, tex_size: (u32, u32), status: u32) -> (r: Result<
        (),
        u32,
    >)
        ensures
            final(self).spec_fbo() == old(self).spec_fbo(),
            final(self).spec_tex() == tex,
            final(self).spec_size() == tex_size,
            r is Ok <==> status == FRAMEBUFFER_COMPLETE,
            status != FRAMEBUFFER_COMPLETE ==> r == Err::<(), u32>(status),
    {
        self.tex = tex;
        self.size = tex_size;

        if status != FRAMEBUFFER_COMPLETE {
            return Err(status);
        }

        Ok(())
    }

    /// Record a reallocation of the attached texture's backing store at the
    /// new dimensions.  Attachment identity is by handle, so no reattachment
    /// happens.
    pub fn resize(&mut self, width: u32, height: u32)
        ensures
            final(self).spec_fbo() == old(self).spec_fbo(),
            final(self).spec_tex() == old(self).spec_tex(),
            final(self).spec_size() == (width, height),
    {
        self.size = (width, height);
    }

    pub fn size(&self) -> (r: (u32, u32))
        ensures
            r == self.spec_size(),
    {
        self.size
    }

    /// The framebuffer object handle, for the host to bind as draw target.
    pub fn fbo(&self) -> (r: u32)
        ensures
            r == self.spec_fbo(),
    {
        self.fbo
    }

    /// The attached texture handle, for the host to bind as sampler source.
    pub fn tex(&self) -> (r: u32)
        ensures
            r == self.spec_tex(),
    {
        self.tex
    }
}

} // verus!

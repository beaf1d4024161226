//! Size arithmetic for fitting an image into a viewport.

use vstd::prelude::*;

verus! {

/// The largest size with the aspect ratio `base_w : base_h` that fits into
/// `width x height`: fit to width when the destination is taller than the
/// base ratio, else fit to height.
pub open spec fn spec_scale_keep_aspect(
    base_w: int,
    base_h: int,
    width: int,
    height: int,
) -> (int, int) {
    if width * base_h < base_w * height {
        (width, (width * base_h) / base_w)
    } else {
        ((height * base_w) / base_h, height)
    }
}

/// Scale `width x height` down to the aspect ratio of `base_w x base_h`,
/// keeping the larger fitting dimension.
pub fn scale_keep_aspect(base_w: u32, base_h: u32, width: u32, height: u32) -> (r: (u32, u32))
    requires
        base_w > 0,
        base_h > 0,
    ensures
        (r.0 as int, r.1 as int) == spec_scale_keep_aspect(
            base_w as int,
            base_h as int,
            width as int,
            height as int,
        ),
{
    proof {
        assert(width as int * base_h as int <= u64::MAX && base_w as int * height as int
            <= u64::MAX) by (nonlinear_arith)
            requires
                width <= u32::MAX,
                base_h <= u32::MAX,
                base_w <= u32::MAX,
                height <= u32::MAX,
        ;
    }
    let cross_w: u64 = (width as u64) * (base_h as u64);
    let cross_h: u64 = (base_w as u64) * (height as u64);

    if cross_w < cross_h {
        // destination is taller than the base ratio: fit to width
        let fitted_h: u64 = cross_w / (base_w as u64);
        assert(fitted_h < height as int) by (nonlinear_arith)
            requires
                cross_w == width as int * base_h as int,
                cross_w < base_w as int * height as int,
                base_w > 0,
                fitted_h == cross_w as int / base_w as int,
        ;
        (width, fitted_h as u32)
    } else {
        // destination is wider than the base ratio: fit to height
        let fitted_w: u64 = cross_h / (base_h as u64);
        assert(fitted_w <= width as int) by (nonlinear_arith)
            requires
                cross_h == base_w as int * height as int,
                cross_h <= width as int * base_h as int,
                base_h > 0,
                fitted_w == cross_h as int / base_h as int,
        ;
        (fitted_w as u32, height)
    }
}

} // verus!

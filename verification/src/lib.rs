//! Core of a dual-Kawase blur post-processing pipeline for a GPU image viewer.
//!
//! The crate models and verifies the decision logic of the pipeline: the
//! cascade of halving render targets, the downsample/upsample pass schedule,
//! framebuffer attachment validation, blur parameter handling, and the
//! CPU/GPU timing protocol.  The host application owns the GPU context and
//! carries out the draw calls that the planner here prescribes.

pub mod blur;
pub mod overlay;
pub mod render_target;
pub mod shader;
pub mod surface;
pub mod texture;
pub mod timer;
pub mod utils;
pub mod viewport;

use vstd::prelude::*;

verus! {

} // verus!

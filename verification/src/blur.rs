//! The dual-Kawase blur pipeline: a cascade of render targets at halving
//! resolutions, blur parameters, and the planner that turns them into the
//! exact schedule of downsample/upsample draw passes the host executes.
//!
//! The host owns the GPU objects.  It creates the framebuffer and texture
//! handles, reports each attachment's completeness status, asks
//! [`BlurContext::blur`] for the pass schedule, and performs one draw call
//! per returned [`BlurPass`], binding the named cascade levels and setting
//! the named uniforms.

use vstd::prelude::*;
use vstd::pervasive::VecAdditionalExecFns;
use vstd::arithmetic::power2::{pow2, lemma2_to64, lemma_pow2_pos, lemma_pow2_strictly_increases};
use vstd::bits::lemma_u32_shl_is_mul;
use crate::render_target::{Framebuffer, FRAMEBUFFER_COMPLETE};
use crate::timer::{GpuTimer, TimerPhase, spec_round_to_micros};

verus! {

/// Depth of the cascade: the deepest downsampling level a blur can reach.
pub const MAX_ITERATIONS: usize = 8;

/// Largest blur offset, in quarter-texel units (25 texels).
pub const MAX_OFFSET_Q: u32 = 100;

/// What a pass samples from.
#[derive(Clone, Copy, PartialEq, Eq, Structural, Debug)]
pub enum PassSource {
    /// The source image texture supplied by the caller.
    SourceTexture,
    /// The texture attached to the given cascade level.
    Level(usize),
}

/// One draw call of a blur invocation.  `target_level` names the cascade
/// level to bind as draw target (level 0 carries the caller's destination
/// texture); `halfpixel_w` and `halfpixel_h` are the size of that target
/// level, from which the halfpixel uniform `(0.5 / w, 0.5 / h)` is
/// computed; `offset_q` is the offset uniform in quarter-texel units.
#[derive(Clone, Copy, PartialEq, Eq, Structural, Debug)]
pub enum BlurPass {
    /// A pass-through draw of the source into the target (the copy program).
    CopyPass { target_level: usize, source: PassSource },
    /// One step of the downsampling half of the blur.
    DownPass {
        iteration: u32,
        target_level: usize,
        source: PassSource,
        halfpixel_w: u32,
        halfpixel_h: u32,
        offset_q: u32,
    },
    /// One step of the upsampling half of the blur; the host additionally
    /// sets the upsample program's opacity uniform to one.
    UpPass {
        iteration: u32,
        target_level: usize,
        source: PassSource,
        halfpixel_w: u32,
        halfpixel_h: u32,
        offset_q: u32,
    },
}

/// Size of cascade level `i` for a base size: both dimensions halved `i`
/// times (truncating).
pub open spec fn spec_half_size(base: (u32, u32), i: nat) -> (int, int) {
    (base.0 as int / pow2(i) as int, base.1 as int / pow2(i) as int)
}

/// The number of iterations a blur call actually performs: the configured
/// count, capped at the cascade depth.
pub open spec fn spec_effective_iterations(iterations: u32) -> int {
    if iterations as int <= MAX_ITERATIONS as int {
        iterations as int
    } else {
        MAX_ITERATIONS as int
    }
}

/// The single pass of the degenerate no-blur path: copy the source straight
/// into the destination target.
pub open spec fn spec_copy_pass() -> BlurPass {
    BlurPass::CopyPass { target_level: 0, source: PassSource::SourceTexture }
}

/// Downsample step `i`: render into level `i + 1`, sampling the original
/// source on the first step and level `i` afterwards.  The halfpixel is
/// recomputed from the target level's own current size.
pub open spec fn spec_down_pass(levels: Seq<Framebuffer>, off_q: u32, i: int) -> BlurPass {
    BlurPass::DownPass {
        iteration: i as u32,
        target_level: (i + 1) as usize,
        source: if i == 0 {
            PassSource::SourceTexture
        } else {
            PassSource::Level(i as usize)
        },
        halfpixel_w: levels[i + 1].spec_size().0,
        halfpixel_h: levels[i + 1].spec_size().1,
        offset_q: off_q,
    }
}

/// Upsample step `i`: render into level `i`, sampling level `i + 1`.  Step
/// 0 renders into level 0, which carries the caller's destination texture,
/// so the final iteration always writes the externally supplied target.
pub open spec fn spec_up_pass(levels: Seq<Framebuffer>, off_q: u32, i: int) -> BlurPass {
    BlurPass::UpPass {
        iteration: i as u32,
        target_level: i as usize,
        source: PassSource::Level((i + 1) as usize),
        halfpixel_w: levels[i].spec_size().0,
        halfpixel_h: levels[i].spec_size().1,
        offset_q: off_q,
    }
}

/// The full pass schedule of one blur invocation over the given cascade
/// state: a single copy pass when no iteration is requested, else the
/// downsample passes in ascending order followed by the upsample passes in
/// descending order.
pub open spec fn spec_blur_plan(levels: Seq<Framebuffer>, iterations: u32, off_q: u32) -> Seq<
    BlurPass,
> {
    let n = spec_effective_iterations(iterations);
    if n == 0 {
        seq![spec_copy_pass()]
    } else {
        Seq::new(
            (2 * n) as nat,
            |k: int|
                if k < n {
                    spec_down_pass(levels, off_q, k)
                } else {
                    spec_up_pass(levels, off_q, 2 * n - 1 - k)
                },
        )
    }
}

/// The curated blur presets on the number keys: iteration count and
/// offset in quarter-texel units, per digit.
pub open spec fn spec_preset(digit: u8) -> Option<(u32, u32)> {
    if digit == 1 {
        Some((1u32, 6u32))
    } else if digit == 2 {
        Some((1u32, 8u32))
    } else if digit == 3 {
        Some((2u32, 10u32))
    } else if digit == 4 {
        Some((2u32, 12u32))
    } else if digit == 5 {
        Some((3u32, 11u32))
    } else if digit == 6 {
        Some((3u32, 14u32))
    } else if digit == 7 {
        Some((3u32, 17u32))
    } else if digit == 8 {
        Some((3u32, 20u32))
    } else if digit == 9 {
        Some((4u32, 15u32))
    } else {
        None
    }
}

/// The blur pipeline: the two parameters, the cascade of render targets
/// (level 0 is the scratch slot that carries the caller's destination
/// texture during a blur; levels `1..=MAX_ITERATIONS` hold the halving
/// texture chain), and the timer of the last invocation.
pub struct BlurContext {
    iterations: u32,
    offset_q: u32,
    framebuffers: Vec<Framebuffer>,
    timer: GpuTimer,
}

impl BlurContext {
    pub closed spec fn spec_iterations(&self) -> u32 {
        self.iterations
    }

    pub closed spec fn spec_offset_q(&self) -> u32 {
        self.offset_q
    }

    pub closed spec fn spec_levels(&self) -> Seq<Framebuffer> {
        self.framebuffers@
    }

    pub closed spec fn spec_timer(&self) -> GpuTimer {
        self.timer
    }

    /// The cascade has its full fixed depth.
    pub open spec fn wf(&self) -> bool {
        self.spec_levels().len() == MAX_ITERATIONS + 1
    }

    /// Both states hold the same cascade and timer.
    pub open spec fn same_but_params(&self, other: &Self) -> bool {
        &&& self.spec_levels() == other.spec_levels()
        &&& self.spec_timer() == other.spec_timer()
    }

    /// Both states hold the same parameters and cascade.
    pub open spec fn same_but_timer(&self, other: &Self) -> bool {
        &&& self.spec_iterations() == other.spec_iterations()
        &&& self.spec_offset_q() == other.spec_offset_q()
        &&& self.spec_levels() == other.spec_levels()
    }

    /// Build the pipeline state around the GPU handles the host created:
    /// one framebuffer per cascade slot, and for each chain level `i` in
    /// `1..=MAX_ITERATIONS` a texture allocated at the base size halved
    /// `i` times.  `statuses[i - 1]` is the completeness status the GPU
    /// reported when that texture was attached to framebuffer `i`; any
    /// incomplete attachment aborts construction with that status, since a
    /// partially consistent cascade must never be used.
    pub fn new(vp_size: (u32, u32), fbos: &Vec<u32>, texs: &Vec<u32>, statuses: &Vec<u32>) -> (r:
        Result<Self, u32>)
        requires
            fbos@.len() == MAX_ITERATIONS + 1,
            texs@.len() == MAX_ITERATIONS,
            statuses@.len() == MAX_ITERATIONS,
        ensures
            (r is Ok) <==> (forall|i: int|
                0 <= i < MAX_ITERATIONS ==> statuses@[i] == FRAMEBUFFER_COMPLETE),
            r matches Ok(ctx) ==> {
                &&& ctx.wf()
                &&& ctx.spec_iterations() == 0
                &&& ctx.spec_offset_q() == 0
                &&& ctx.spec_timer().spec_phase() == TimerPhase::Idle
                &&& ctx.spec_timer().spec_cpu_ns() == 0
                &&& ctx.spec_timer().spec_gpu_ns() == 0
                &&& ctx.spec_levels()[0].spec_fbo() == fbos@[0]
                &&& ctx.spec_levels()[0].spec_tex() == 0
                &&& ctx.spec_levels()[0].spec_size() == (0u32, 0u32)
                &&& forall|i: int|
                    1 <= i <= MAX_ITERATIONS ==> {
                        &&& (#[trigger] ctx.spec_levels()[i]).spec_fbo() == fbos@[i]
                        &&& ctx.spec_levels()[i].spec_tex() == texs@[i - 1]
                        &&& ctx.spec_levels()[i].spec_size().0 == spec_half_size(
                            vp_size,
                            i as nat,
                        ).0
                        &&& ctx.spec_levels()[i].spec_size().1 == spec_half_size(
                            vp_size,
                            i as nat,
                        ).1
                    }
            },
            r matches Err(s) ==> exists|i: int|
                0 <= i < MAX_ITERATIONS && statuses@[i] == s && s != FRAMEBUFFER_COMPLETE,
    {
        let mut framebuffers: Vec<Framebuffer> = Vec::new();
        framebuffers.push(Framebuffer::from_fbo(fbos[0]));

        let mut i: usize = 1;
        while i <= MAX_ITERATIONS
            invariant
                1 <= i <= MAX_ITERATIONS + 1,
                fbos@.len() == MAX_ITERATIONS + 1,
                texs@.len() == MAX_ITERATIONS,
                statuses@.len() == MAX_ITERATIONS,
                framebuffers@.len() == i,
                framebuffers@[0].spec_fbo() == fbos@[0],
                framebuffers@[0].spec_tex() == 0,
                framebuffers@[0].spec_size() == (0u32, 0u32),
                forall|j: int|
                    1 <= j < i ==> {
                        &&& (#[trigger] framebuffers@[j]).spec_fbo() == fbos@[j]
                        &&& framebuffers@[j].spec_tex() == texs@[j - 1]
                        &&& framebuffers@[j].spec_size().0 == spec_half_size(vp_size, j as nat).0
                        &&& framebuffers@[j].spec_size().1 == spec_half_size(vp_size, j as nat).1
                    },
                forall|j: int| 0 <= j < i - 1 ==> statuses@[j] == FRAMEBUFFER_COMPLETE,
            decreases MAX_ITERATIONS + 1 - i,
        {
            proof {
                lemma2_to64();
                lemma_pow2_strictly_increases(i as nat, 9);
                lemma_pow2_pos(i as nat);
                lemma_u32_shl_is_mul(1u32, i as u32);
            }
            let scale: u32 = 1u32 << (i as u32);
            let w = vp_size.0 / scale;
            let h = vp_size.1 / scale;

            let mut fb = Framebuffer::from_fbo(fbos[i]);
            match fb.attach_texture(texs[i - 1], (w, h), statuses[i - 1]) {
                Ok(()) => {},
                Err(s) => {
                    proof {
                        assert(statuses@[i - 1] == s && s != FRAMEBUFFER_COMPLETE);
                    }
                    return Err(s);
                },
            }
            framebuffers.push(fb);
            i += 1;
        }

        Ok(Self { iterations: 0, offset_q: 0, framebuffers, timer: GpuTimer::new() })
    }

    /// Resize the cascade for a new base size: every chain level `i` keeps
    /// its handles and is reallocated at the base size halved `i` times,
    /// in lockstep.  The scratch level 0 is left alone; it is rebound when
    /// a blur attaches its destination.
    pub fn resize(&mut self, width: u32, height: u32)
        requires
            old(self).wf(),
        ensures
            final(self).wf(),
            final(self).spec_levels()[0] == old(self).spec_levels()[0],
            forall|i: int|
                1 <= i <= MAX_ITERATIONS ==> {
                    &&& (#[trigger] final(self).spec_levels()[i]).spec_fbo() == old(
                        self,
                    ).spec_levels()[i].spec_fbo()
                    &&& final(self).spec_levels()[i].spec_tex() == old(
                        self,
                    ).spec_levels()[i].spec_tex()
                    &&& final(self).spec_levels()[i].spec_size().0 == spec_half_size(
                        (width, height),
                        i as nat,
                    ).0
                    &&& final(self).spec_levels()[i].spec_size().1 == spec_half_size(
                        (width, height),
                        i as nat,
                    ).1
                },
            final(self).spec_iterations() == old(self).spec_iterations(),
            final(self).spec_offset_q() == old(self).spec_offset_q(),
            final(self).spec_timer() == old(self).spec_timer(),
    {
        let mut i: usize = 1;
        while i <= MAX_ITERATIONS
            invariant
                1 <= i <= MAX_ITERATIONS + 1,
                self.framebuffers@.len() == MAX_ITERATIONS + 1,
                self.framebuffers@[0] == old(self).spec_levels()[0],
                forall|j: int|
                    1 <= j < i ==> {
                        &&& (#[trigger] self.framebuffers@[j]).spec_fbo() == old(
                            self,
                        ).spec_levels()[j].spec_fbo()
                        &&& self.framebuffers@[j].spec_tex() == old(
                            self,
                        ).spec_levels()[j].spec_tex()
                        &&& self.framebuffers@[j].spec_size().0 == spec_half_size(
                            (width, height),
                            j as nat,
                        ).0
                        &&& self.framebuffers@[j].spec_size().1 == spec_half_size(
                            (width, height),
                            j as nat,
                        ).1
                    },
                forall|j: int|
                    i <= j <= MAX_ITERATIONS ==> self.framebuffers@[j] == old(
                        self,
                    ).spec_levels()[j],
                self.iterations == old(self).spec_iterations(),
                self.offset_q == old(self).spec_offset_q(),
                self.timer == old(self).spec_timer(),
            decreases MAX_ITERATIONS + 1 - i,
        {
            proof {
                lemma2_to64();
                lemma_pow2_strictly_increases(i as nat, 9);
                lemma_pow2_pos(i as nat);
                lemma_u32_shl_is_mul(1u32, i as u32);
            }
            let scale: u32 = 1u32 << (i as u32);
            let w = width / scale;
            let h = height / scale;

            let mut fb = self.framebuffers[i];
            fb.resize(w, h);
            self.framebuffers.set(i, fb);
            i += 1;
        }
    }

    pub fn iterations(&self) -> (r: u32)
        ensures
            r == self.spec_iterations(),
    {
        self.iterations
    }

    pub fn set_iterations(&mut self, iterations: u32)
        ensures
            final(self).spec_iterations() == iterations,
            final(self).spec_offset_q() == old(self).spec_offset_q(),
            old(self).same_but_params(final(self)),
    {
        self.iterations = iterations;
    }

    /// Adjust the iteration count by a signed delta.
    pub fn inc_iterations(&mut self, iter_delta: i32)
        requires
            0 <= old(self).spec_iterations() + iter_delta <= u32::MAX,
        ensures
            final(self).spec_iterations() == old(self).spec_iterations() + iter_delta,
            final(self).spec_offset_q() == old(self).spec_offset_q(),
            old(self).same_but_params(final(self)),
    {
        if iter_delta >= 0 {
            self.iterations = self.iterations + (iter_delta as u32);
        } else {
            let mag: u32 = (-(iter_delta as i64)) as u32;
            self.iterations = self.iterations - mag;
        }
    }

    /// Step the iteration count down once, if it is not already zero.
    /// Returns whether anything changed (a redraw is due).
    pub fn try_dec_iterations(&mut self) -> (changed: bool)
        ensures
            changed <==> old(self).spec_iterations() > 0,
            changed ==> final(self).spec_iterations() == old(self).spec_iterations() - 1,
            !changed ==> *final(self) == *old(self),
            final(self).spec_offset_q() == old(self).spec_offset_q(),
            old(self).same_but_params(final(self)),
    {
        if self.iterations > 0 {
            self.iterations = self.iterations - 1;
            true
        } else {
            false
        }
    }

    /// Step the iteration count up once, but only while one more halving
    /// still leaves the scaled source image usably large (more than ten
    /// pixels in one dimension) and the cascade depth is not exhausted.
    pub fn try_inc_iterations(&mut self, surf_w: u32, surf_h: u32) -> (changed: bool)
        requires
            old(self).spec_iterations() <= MAX_ITERATIONS,
        ensures
            changed <==> ((surf_w as int / pow2((old(self).spec_iterations() + 1) as nat) as int
                > 10 || surf_h as int / pow2((old(self).spec_iterations() + 1) as nat) as int > 10)
                && old(self).spec_iterations() < MAX_ITERATIONS),
            changed ==> final(self).spec_iterations() == old(self).spec_iterations() + 1,
            !changed ==> *final(self) == *old(self),
            final(self).spec_offset_q() == old(self).spec_offset_q(),
            old(self).same_but_params(final(self)),
    {
        proof {
            lemma2_to64();
            lemma_pow2_strictly_increases((self.iterations + 1) as nat, 10);
            lemma_pow2_pos((self.iterations + 1) as nat);
            lemma_u32_shl_is_mul(1u32, (self.iterations + 1) as u32);
        }
        let scale: u32 = 1u32 << (self.iterations + 1);
        if (surf_w / scale > 10 || surf_h / scale > 10) && self.iterations < (
        MAX_ITERATIONS as u32) {
            self.iterations = self.iterations + 1;
            true
        } else {
            false
        }
    }

    pub fn offset_q(&self) -> (r: u32)
        ensures
            r == self.spec_offset_q(),
    {
        self.offset_q
    }

    pub fn set_offset_q(&mut self, offset_q: u32)
        ensures
            final(self).spec_offset_q() == offset_q,
            final(self).spec_iterations() == old(self).spec_iterations(),
            old(self).same_but_params(final(self)),
    {
        self.offset_q = offset_q;
    }

    /// Adjust the offset by a signed delta of quarter-texel units.
    pub fn inc_offset_q(&mut self, delta_q: i32)
        requires
            0 <= old(self).spec_offset_q() + delta_q <= u32::MAX,
        ensures
            final(self).spec_offset_q() == old(self).spec_offset_q() + delta_q,
            final(self).spec_iterations() == old(self).spec_iterations(),
            old(self).same_but_params(final(self)),
    {
        if delta_q >= 0 {
            self.offset_q = self.offset_q + (delta_q as u32);
        } else {
            let mag: u32 = (-(delta_q as i64)) as u32;
            self.offset_q = self.offset_q - mag;
        }
    }

    /// Raise the offset by a step, clamping at [`MAX_OFFSET_Q`].
    pub fn raise_offset(&mut self, delta_q: u32)
        ensures
            final(self).spec_offset_q() as int == if old(self).spec_offset_q() + delta_q
                <= MAX_OFFSET_Q {
                old(self).spec_offset_q() + delta_q
            } else {
                MAX_OFFSET_Q as int
            },
            final(self).spec_iterations() == old(self).spec_iterations(),
            old(self).same_but_params(final(self)),
    {
        let sum: u64 = self.offset_q as u64 + delta_q as u64;
        self.offset_q = if sum <= MAX_OFFSET_Q as u64 {
            sum as u32
        } else {
            MAX_OFFSET_Q
        };
    }

    /// Lower the offset by a step, clamping at zero.
    pub fn lower_offset(&mut self, delta_q: u32)
        ensures
            final(self).spec_offset_q() as int == if old(self).spec_offset_q() >= delta_q {
                old(self).spec_offset_q() - delta_q
            } else {
                0int
            },
            final(self).spec_iterations() == old(self).spec_iterations(),
            old(self).same_but_params(final(self)),
    {
        self.offset_q = if self.offset_q >= delta_q {
            self.offset_q - delta_q
        } else {
            0
        };
    }

    /// Apply a number-key preset: set both parameters at once.  Digits
    /// without a preset leave the state unchanged.
    pub fn apply_preset(&mut self, digit: u8) -> (applied: bool)
        ensures
            applied <==> spec_preset(digit) is Some,
            spec_preset(digit) matches Some(p) ==> (final(self).spec_iterations() == p.0
                && final(self).spec_offset_q() == p.1),
            !applied ==> *final(self) == *old(self),
            old(self).same_but_params(final(self)),
    {
        let preset: Option<(u32, u32)> = if digit == 1 {
            Some((1, 6))
        } else if digit == 2 {
            Some((1, 8))
        } else if digit == 3 {
            Some((2, 10))
        } else if digit == 4 {
            Some((2, 12))
        } else if digit == 5 {
            Some((3, 11))
        } else if digit == 6 {
            Some((3, 14))
        } else if digit == 7 {
            Some((3, 17))
        } else if digit == 8 {
            Some((3, 20))
        } else if digit == 9 {
            Some((4, 15))
        } else {
            None
        };
        match preset {
            Some(p) => {
                self.iterations = p.0;
                self.offset_q = p.1;
                true
            },
            None => false,
        }
    }

    /// Zero both parameters; report whether a redraw is due, i.e. whether
    /// either parameter was nonzero.
    pub fn reset(&mut self) -> (changed: bool)
        ensures
            final(self).spec_iterations() == 0,
            final(self).spec_offset_q() == 0,
            changed <==> (old(self).spec_offset_q() > 0 || old(self).spec_iterations() != 0),
            old(self).same_but_params(final(self)),
    {
        let changed = self.offset_q > 0 || self.iterations != 0;
        self.offset_q = 0;
        self.iterations = 0;
        changed
    }

    /// Plan one blur invocation.  Records the caller's destination texture
    /// as the attachment of scratch level 0 (with the completeness status
    /// the GPU reported for it: an incomplete attachment is fatal and
    /// yields `Err` with that status), then returns the exact pass
    /// schedule for the current parameters and cascade.
    pub fn blur(&mut self, dest_tex: u32, dest_size: (u32, u32), dest_status: u32) -> (r: Result<
        Vec<BlurPass>,
        u32,
    >)
        requires
            old(self).wf(),
        ensures
            final(self).wf(),
            r is Ok <==> dest_status == FRAMEBUFFER_COMPLETE,
            r is Err ==> r == Err::<Vec<BlurPass>, u32>(dest_status),
            final(self).spec_levels()[0].spec_fbo() == old(self).spec_levels()[0].spec_fbo(),
            final(self).spec_levels()[0].spec_tex() == dest_tex,
            final(self).spec_levels()[0].spec_size() == dest_size,
            forall|i: int|
                1 <= i <= MAX_ITERATIONS ==> final(self).spec_levels()[i] == old(
                    self,
                ).spec_levels()[i],
            final(self).spec_iterations() == old(self).spec_iterations(),
            final(self).spec_offset_q() == old(self).spec_offset_q(),
            final(self).spec_timer() == old(self).spec_timer(),
            r matches Ok(passes) ==> passes@ == spec_blur_plan(
                final(self).spec_levels(),
                old(self).spec_iterations(),
                old(self).spec_offset_q(),
            ),
    {
        let mut fb0 = self.framebuffers[0];
        let attach = fb0.attach_texture(dest_tex, dest_size, dest_status);
        self.framebuffers.set(0, fb0);
        match attach {
            Ok(()) => {},
            Err(s) => {
                return Err(s);
            },
        }

        let ghost levels = self.framebuffers@;
        let ghost iters0 = self.iterations;
        let ghost off0 = self.offset_q;

        let n: usize = if (self.iterations as usize) < MAX_ITERATIONS {
            self.iterations as usize
        } else {
            MAX_ITERATIONS
        };
        assert(n as int == spec_effective_iterations(iters0));

        let mut passes: Vec<BlurPass> = Vec::new();
        if n == 0 {
            passes.push(BlurPass::CopyPass { target_level: 0, source: PassSource::SourceTexture });
            assert(passes@ =~= spec_blur_plan(levels, iters0, off0));
            return Ok(passes);
        }

        let mut i: usize = 0;
        while i < n
            invariant
                self.framebuffers@ == levels,
                self.iterations == iters0,
                self.offset_q == off0,
                levels.len() == MAX_ITERATIONS + 1,
                n as int == spec_effective_iterations(iters0),
                1 <= n <= MAX_ITERATIONS,
                i <= n,
                passes@.len() == i,
                forall|k: int| 0 <= k < i ==> passes@[k] == spec_down_pass(levels, off0, k),
            decreases n - i,
        {
            let hp = self.framebuffers[i + 1].size();
            let src = if i == 0 {
                PassSource::SourceTexture
            } else {
                PassSource::Level(i)
            };
            passes.push(
                BlurPass::DownPass {
                    iteration: i as u32,
                    target_level: i + 1,
                    source: src,
                    halfpixel_w: hp.0,
                    halfpixel_h: hp.1,
                    offset_q: self.offset_q,
                },
            );
            i += 1;
        }

        let mut j: usize = 0;
        while j < n
            invariant
                self.framebuffers@ == levels,
                self.iterations == iters0,
                self.offset_q == off0,
                levels.len() == MAX_ITERATIONS + 1,
                n as int == spec_effective_iterations(iters0),
                1 <= n <= MAX_ITERATIONS,
                j <= n,
                passes@.len() == n + j,
                forall|k: int| 0 <= k < n ==> passes@[k] == spec_down_pass(levels, off0, k),
                forall|k: int|
                    0 <= k < j ==> #[trigger] passes@[n + k] == spec_up_pass(
                        levels,
                        off0,
                        n - 1 - k,
                    ),
            decreases n - j,
        {
            let i_up: usize = n - 1 - j;
            let hp = self.framebuffers[i_up].size();
            passes.push(
                BlurPass::UpPass {
                    iteration: i_up as u32,
                    target_level: i_up,
                    source: PassSource::Level(i_up + 1),
                    halfpixel_w: hp.0,
                    halfpixel_h: hp.1,
                    offset_q: self.offset_q,
                },
            );
            j += 1;
        }

        proof {
            let plan = spec_blur_plan(levels, iters0, off0);
            assert forall|m: int| 0 <= m < passes@.len() implies passes@[m] == plan[m] by {
                if m >= n {
                    assert(passes@[n + (m - n)] == spec_up_pass(levels, off0, n - 1 - (m - n)));
                }
            }
            assert(passes@ =~= plan);
        }
        Ok(passes)
    }

    /// Whether the cascade has its full fixed depth — true for every
    /// context the constructor handed out.
    pub fn well_formed(&self) -> (r: bool)
        ensures
            r == self.wf(),
    {
        self.framebuffers.len() == MAX_ITERATIONS + 1
    }

    /// Where the invocation timer stands in the measurement protocol.
    pub fn timing_phase(&self) -> (r: TimerPhase)
        ensures
            r == self.spec_timer().spec_phase(),
    {
        self.timer.phase()
    }

    /// Start timing a blur invocation (the host begins the GPU query
    /// alongside).  False when the process CPU clock is unavailable.
    pub fn begin_timing(&mut self) -> (ok: bool)
        requires
            old(self).spec_timer().spec_phase() == TimerPhase::Idle,
        ensures
            old(self).same_but_timer(final(self)),
            ok ==> final(self).spec_timer().spec_phase() == TimerPhase::Running,
            ok ==> final(self).spec_timer().spec_cpu_ns() == old(self).spec_timer().spec_cpu_ns(),
            ok ==> final(self).spec_timer().spec_gpu_ns() == old(self).spec_timer().spec_gpu_ns(),
            !ok ==> final(self).spec_timer() == old(self).spec_timer(),
    {
        self.timer.start()
    }

    /// Record the CPU side of the measurement (the host ends the GPU query
    /// alongside).  False when the process CPU clock is unavailable.
    pub fn end_timing_cpu(&mut self) -> (ok: bool)
        requires
            old(self).spec_timer().spec_phase() == TimerPhase::Running,
        ensures
            old(self).same_but_timer(final(self)),
            ok ==> final(self).spec_timer().spec_phase() == TimerPhase::WaitingGpu,
            ok ==> final(self).spec_timer().spec_gpu_ns() == old(self).spec_timer().spec_gpu_ns(),
            !ok ==> final(self).spec_timer() == old(self).spec_timer(),
    {
        self.timer.stop_cpu()
    }

    /// Feed one availability report of the GPU query to the timer: the
    /// measurement may proceed to the result readback exactly when the
    /// report is non-zero.
    pub fn poll_gpu(&mut self, avail: i32) -> (ready: bool)
        requires
            old(self).spec_timer().spec_phase() == TimerPhase::WaitingGpu,
        ensures
            old(self).same_but_timer(final(self)),
            ready <==> avail != 0,
            ready ==> final(self).spec_timer().spec_phase() == TimerPhase::GpuReady,
            !ready ==> final(self).spec_timer() == old(self).spec_timer(),
            final(self).spec_timer().spec_cpu_ns() == old(self).spec_timer().spec_cpu_ns(),
            final(self).spec_timer().spec_gpu_ns() == old(self).spec_timer().spec_gpu_ns(),
    {
        self.timer.poll(avail)
    }

    /// Record the GPU query's nanosecond result, finishing the timing.
    pub fn record_gpu_time(&mut self, gpu_ns: u64)
        requires
            old(self).spec_timer().spec_phase() == TimerPhase::GpuReady,
        ensures
            old(self).same_but_timer(final(self)),
            final(self).spec_timer().spec_phase() == TimerPhase::Idle,
            final(self).spec_timer().spec_gpu_ns() == gpu_ns,
            final(self).spec_timer().spec_cpu_ns() == old(self).spec_timer().spec_cpu_ns(),
    {
        self.timer.record_gpu(gpu_ns)
    }

    /// CPU time of the last completed measurement, in microseconds
    /// (nanoseconds rounded to nearest).
    pub fn time_cpu(&self) -> (r: u128)
        ensures
            r == spec_round_to_micros(self.spec_timer().spec_cpu_ns() as int),
    {
        self.timer.cpu_micros()
    }

    /// GPU time of the last completed measurement, in microseconds
    /// (nanoseconds rounded to nearest).
    pub fn time_gpu(&self) -> (r: u64)
        ensures
            r == spec_round_to_micros(self.spec_timer().spec_gpu_ns() as int),
    {
        self.timer.gpu_micros()
    }
}

/// The cascade level a pass renders into.
pub open spec fn spec_target_level(p: BlurPass) -> int {
    match p {
        BlurPass::CopyPass { target_level, .. } => target_level as int,
        BlurPass::DownPass { target_level, .. } => target_level as int,
        BlurPass::UpPass { target_level, .. } => target_level as int,
    }
}

/// Law: over a cascade whose chain levels hold the base size `(w, h)`
/// halved level-many times — the state [`BlurContext::resize`] establishes
/// — every downsample pass `k` of any plan renders into level `k + 1`,
/// and its halfpixel size is exactly the base size halved `k + 1` times.
pub proof fn lemma_plan_has_halved_targets(
    levels: Seq<Framebuffer>,
    iterations: u32,
    off_q: u32,
    w: u32,
    h: u32,
)
    requires
        levels.len() == MAX_ITERATIONS + 1,
        forall|i: int|
            1 <= i <= MAX_ITERATIONS ==> ((#[trigger] levels[i].spec_size()).0 == spec_half_size(
                (w, h),
                i as nat,
            ).0 && levels[i].spec_size().1 == spec_half_size((w, h), i as nat).1),
    ensures
        forall|k: int|
            0 <= k < spec_effective_iterations(iterations) ==> ((
            #[trigger] spec_blur_plan(levels, iterations, off_q)[k]) matches BlurPass::DownPass {
                iteration,
                target_level,
                source,
                halfpixel_w,
                halfpixel_h,
                offset_q,
            } && iteration == k as u32 && target_level == k + 1 && offset_q == off_q && (
            halfpixel_w as int) == spec_half_size((w, h), (k + 1) as nat).0 && (halfpixel_h as int)
                == spec_half_size((w, h), (k + 1) as nat).1),
{
    let n = spec_effective_iterations(iterations);
    assert forall|k: int| 0 <= k < n implies (#[trigger] spec_blur_plan(levels, iterations, off_q)[k])
        == spec_down_pass(levels, off_q, k) by {
    }
}

/// Law: raising the iteration count strictly extends the schedule — the
/// two plans share their downsample prefix, the longer plan has strictly
/// more passes, and it alone descends to cascade level `it2`, deeper (and
/// so coarser) than any level the shorter plan touches.  This is the
/// structural sense in which more iterations blur more.
pub proof fn lemma_more_iterations_deepen_plan(
    levels: Seq<Framebuffer>,
    it1: u32,
    it2: u32,
    off_q: u32,
)
    requires
        it1 < it2,
        it2 <= MAX_ITERATIONS,
    ensures
        spec_blur_plan(levels, it1, off_q).len() < spec_blur_plan(levels, it2, off_q).len(),
        forall|k: int|
            0 <= k < it1 ==> #[trigger] spec_blur_plan(levels, it1, off_q)[k] == spec_blur_plan(
                levels,
                it2,
                off_q,
            )[k],
        forall|k: int|
            0 <= k < spec_blur_plan(levels, it1, off_q).len() ==> spec_target_level(
                #[trigger] spec_blur_plan(levels, it1, off_q)[k],
            ) <= it1,
        spec_target_level(spec_blur_plan(levels, it2, off_q)[it2 - 1]) == it2,
{
    let n1 = spec_effective_iterations(it1);
    let n2 = spec_effective_iterations(it2);
    let plan1 = spec_blur_plan(levels, it1, off_q);
    let plan2 = spec_blur_plan(levels, it2, off_q);
    assert(n1 == it1 && n2 == it2);
    assert(plan2[it2 - 1] == spec_down_pass(levels, off_q, it2 - 1));
    assert forall|k: int| 0 <= k < plan1.len() implies spec_target_level(#[trigger] plan1[k])
        <= it1 by {
        if n1 > 0 {
            if k < n1 {
                assert(plan1[k] == spec_down_pass(levels, off_q, k));
            } else {
                assert(plan1[k] == spec_up_pass(levels, off_q, 2 * n1 - 1 - k));
            }
        }
    }
}

/// Law: with zero iterations the schedule is exactly one pass of the copy
/// program, reading the caller's source texture and writing the level that
/// carries the caller's destination — the no-blur path is a single
/// identity copy.
pub proof fn lemma_zero_iterations_single_copy(levels: Seq<Framebuffer>, off_q: u32)
    ensures
        spec_blur_plan(levels, 0, off_q) =~= seq![
            (BlurPass::CopyPass { target_level: 0, source: PassSource::SourceTexture }),
        ],
{
}

} // verus!

use dual_kawase::blur::{BlurContext, BlurPass, PassSource, MAX_ITERATIONS};
use dual_kawase::render_target::FRAMEBUFFER_COMPLETE;

fn context_for(base_w: u32, base_h: u32) -> BlurContext {
    let fbos: Vec<u32> = (10..10 + MAX_ITERATIONS as u32 + 1).collect();
    let texs: Vec<u32> = (30..30 + MAX_ITERATIONS as u32).collect();
    let statuses: Vec<u32> = vec![FRAMEBUFFER_COMPLETE; MAX_ITERATIONS];
    BlurContext::new((base_w, base_h), &fbos, &texs, &statuses).expect("cascade must attach")
}

#[test]
fn zero_iterations_plans_a_single_copy() {
    // a 1px-at-center test image would be reproduced exactly: the schedule
    // is one pass of the identity copy program into the destination
    let mut ctx = context_for(256, 256);
    let passes = ctx.blur(77, (256, 256), FRAMEBUFFER_COMPLETE).unwrap();
    assert_eq!(
        passes,
        vec![BlurPass::CopyPass { target_level: 0, source: PassSource::SourceTexture }]
    );
}

#[test]
fn solid_color_scenario_schedule() {
    // 256x256 source, iterations=3, offset=2.0 (8 quarter-units): three
    // downsample passes into levels 1..=3, three upsample passes back,
    // the last one into the caller's destination (level 0)
    let mut ctx = context_for(256, 256);
    ctx.set_iterations(3);
    ctx.set_offset_q(8);
    let passes = ctx.blur(77, (256, 256), FRAMEBUFFER_COMPLETE).unwrap();
    let expected = vec![
        BlurPass::DownPass {
            iteration: 0,
            target_level: 1,
            source: PassSource::SourceTexture,
            halfpixel_w: 128,
            halfpixel_h: 128,
            offset_q: 8,
        },
        BlurPass::DownPass {
            iteration: 1,
            target_level: 2,
            source: PassSource::Level(1),
            halfpixel_w: 64,
            halfpixel_h: 64,
            offset_q: 8,
        },
        BlurPass::DownPass {
            iteration: 2,
            target_level: 3,
            source: PassSource::Level(2),
            halfpixel_w: 32,
            halfpixel_h: 32,
            offset_q: 8,
        },
        BlurPass::UpPass {
            iteration: 2,
            target_level: 2,
            source: PassSource::Level(3),
            halfpixel_w: 64,
            halfpixel_h: 64,
            offset_q: 8,
        },
        BlurPass::UpPass {
            iteration: 1,
            target_level: 1,
            source: PassSource::Level(2),
            halfpixel_w: 128,
            halfpixel_h: 128,
            offset_q: 8,
        },
        BlurPass::UpPass {
            iteration: 0,
            target_level: 0,
            source: PassSource::Level(1),
            halfpixel_w: 256,
            halfpixel_h: 256,
            offset_q: 8,
        },
    ];
    assert_eq!(passes, expected);
}

#[test]
fn resize_rescales_every_chain_level() {
    let mut ctx = context_for(1024, 1024);
    ctx.resize(512, 256);
    ctx.set_iterations(MAX_ITERATIONS as u32);
    let passes = ctx.blur(77, (512, 256), FRAMEBUFFER_COMPLETE).unwrap();
    assert_eq!(passes.len(), 2 * MAX_ITERATIONS);
    // each downsample pass i renders into level i+1 at (512 >> (i+1), 256 >> (i+1))
    for i in 0..MAX_ITERATIONS {
        match passes[i] {
            BlurPass::DownPass { target_level, halfpixel_w, halfpixel_h, .. } => {
                assert_eq!(target_level, i + 1);
                assert_eq!(halfpixel_w, 512 >> (i + 1));
                assert_eq!(halfpixel_h, 256 >> (i + 1));
            }
            _ => panic!("pass {} should downsample", i),
        }
    }
}

#[test]
fn odd_sizes_truncate_when_halving() {
    let mut ctx = context_for(255, 101);
    ctx.set_iterations(2);
    let passes = ctx.blur(77, (255, 101), FRAMEBUFFER_COMPLETE).unwrap();
    match passes[1] {
        BlurPass::DownPass { halfpixel_w, halfpixel_h, .. } => {
            assert_eq!(halfpixel_w, 255 / 4);
            assert_eq!(halfpixel_h, 101 / 4);
        }
        _ => panic!("second pass should downsample"),
    }
}

#[test]
fn iteration_count_is_capped_at_cascade_depth() {
    let mut ctx = context_for(4096, 4096);
    ctx.set_iterations(40);
    let passes = ctx.blur(77, (4096, 4096), FRAMEBUFFER_COMPLETE).unwrap();
    assert_eq!(passes.len(), 2 * MAX_ITERATIONS);
}

#[test]
fn more_iterations_extend_the_schedule() {
    // the plans share their downsample prefix and deepen one level per step
    let mut lens = Vec::new();
    for it in 0..=MAX_ITERATIONS as u32 {
        let mut ctx = context_for(1024, 1024);
        ctx.set_iterations(it);
        let passes = ctx.blur(77, (1024, 1024), FRAMEBUFFER_COMPLETE).unwrap();
        lens.push(passes.len());
        if it >= 1 {
            match passes[it as usize - 1] {
                BlurPass::DownPass { target_level, .. } => {
                    assert_eq!(target_level, it as usize)
                }
                _ => panic!("deepest pass of {} iterations should downsample", it),
            }
        }
    }
    for w in lens.windows(2) {
        assert!(w[0] < w[1]);
    }
}

#[test]
fn every_pass_carries_the_configured_offset() {
    let mut ctx = context_for(512, 512);
    ctx.set_iterations(4);
    ctx.set_offset_q(17);
    let passes = ctx.blur(77, (512, 512), FRAMEBUFFER_COMPLETE).unwrap();
    for p in &passes {
        match *p {
            BlurPass::DownPass { offset_q, .. } | BlurPass::UpPass { offset_q, .. } => {
                assert_eq!(offset_q, 17)
            }
            BlurPass::CopyPass { .. } => panic!("no copy pass with four iterations"),
        }
    }
}

#[test]
fn incomplete_destination_attachment_is_fatal() {
    let mut ctx = context_for(256, 256);
    let r = ctx.blur(77, (256, 256), 0x8CD6);
    assert_eq!(r.unwrap_err(), 0x8CD6);
}

#[test]
fn incomplete_cascade_attachment_aborts_construction() {
    let fbos: Vec<u32> = (10..10 + MAX_ITERATIONS as u32 + 1).collect();
    let texs: Vec<u32> = (30..30 + MAX_ITERATIONS as u32).collect();
    let mut statuses: Vec<u32> = vec![FRAMEBUFFER_COMPLETE; MAX_ITERATIONS];
    statuses[3] = 0x8CD7;
    let r = BlurContext::new((256, 256), &fbos, &texs, &statuses);
    assert_eq!(r.err(), Some(0x8CD7));
}

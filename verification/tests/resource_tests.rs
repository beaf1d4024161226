use dual_kawase::overlay::{glyph_texture_growth, VertexStore};
use dual_kawase::render_target::{Framebuffer, FRAMEBUFFER_COMPLETE};
use dual_kawase::shader::{Program, ProgramError};
use dual_kawase::surface::ImgSurface;
use dual_kawase::texture::{rgba_buffer_len, Alignment};

#[test]
fn framebuffer_records_attachments() {
    let mut fb = Framebuffer::from_fbo(7);
    assert_eq!(fb.fbo(), 7);
    assert_eq!(fb.tex(), 0);
    assert_eq!(fb.size(), (0, 0));
    assert!(fb.attach_texture(42, (640, 480), FRAMEBUFFER_COMPLETE).is_ok());
    assert_eq!(fb.tex(), 42);
    assert_eq!(fb.size(), (640, 480));
    fb.resize(320, 240);
    assert_eq!(fb.size(), (320, 240));
    assert_eq!(fb.tex(), 42);
}

#[test]
fn framebuffer_reports_incomplete_attachments() {
    let mut fb = Framebuffer::from_fbo(7);
    assert_eq!(fb.attach_texture(42, (0, 0), 0x8CD6), Err(0x8CD6));
}

#[test]
fn program_link_failure_is_fatal() {
    assert_eq!(Program::from_link(3, 0, vec![0, 1]).err(), Some(ProgramError::LinkFailed));
}

#[test]
fn first_missing_uniform_is_reported() {
    let r = Program::from_link(3, 1, vec![0, 2, -1, -5]);
    assert_eq!(r.err(), Some(ProgramError::MissingUniform { index: 2 }));
}

#[test]
fn linked_program_serves_uniform_locations() {
    let p = Program::from_link(3, 1, vec![4, 0, 9]).unwrap();
    assert_eq!(p.id(), 3);
    assert_eq!(p.uniform_loc(0), Ok(4));
    assert_eq!(p.uniform_loc(2), Ok(9));
    assert_eq!(p.uniform_loc(3), Err(ProgramError::MissingUniform { index: 3 }));
}

#[test]
fn surface_scales_into_the_viewport() {
    let surf = ImgSurface::new_from_image(400, 300, 1280, 720, 5);
    assert_eq!(surf.size(), (960, 720));
    assert_eq!(surf.width(), 960);
    assert_eq!(surf.height(), 720);
    assert_eq!(surf.texture(), 5);
}

#[test]
fn surface_rescales_on_viewport_change() {
    let mut surf = ImgSurface::new_from_image(400, 300, 1280, 720, 5);
    surf.resize_image(200, 600);
    assert_eq!(surf.size(), (200, 150));
    assert_eq!(surf.texture(), 5);
}

#[test]
fn alignment_values_match_their_formats() {
    assert_eq!(Alignment::RED.value(), 1);
    assert_eq!(Alignment::BGRA.value(), 4);
}

#[test]
fn rgba_buffer_len_covers_the_readback() {
    assert_eq!(rgba_buffer_len(256, 256), 256 * 256 * 4);
    assert_eq!(rgba_buffer_len(0, 100), 0);
}

#[test]
fn glyph_texture_jumps_to_device_maximum() {
    // suggestion exceeds the maximum while the cache is still below it
    assert_eq!(glyph_texture_growth((8192, 256), (256, 256), 4096), (4096, 4096));
    // suggestion within bounds is taken as is
    assert_eq!(glyph_texture_growth((512, 512), (256, 256), 4096), (512, 512));
    // cache already at the maximum: the suggestion stands (the host fails then)
    assert_eq!(glyph_texture_growth((8192, 8192), (4096, 4096), 4096), (8192, 8192));
}

#[test]
fn vertex_uploads_grow_then_reuse() {
    let mut store = VertexStore::new();
    assert!(store.plan_upload(100)); // first batch allocates
    assert_eq!(store.count(), 100);
    assert!(!store.plan_upload(60)); // smaller batch reuses the buffer
    assert_eq!(store.count(), 60);
    assert!(store.plan_upload(101)); // outgrowing the mark reallocates
    assert!(!store.plan_upload(101));
}

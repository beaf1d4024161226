use dual_kawase::utils::scale_keep_aspect;
use dual_kawase::viewport::Viewport;

#[test]
fn scale_fits_to_width_when_destination_is_taller() {
    // 4:3 base into a 100x200 hole: full width, height from the ratio
    assert_eq!(scale_keep_aspect(4, 3, 100, 200), (100, 75));
}

#[test]
fn scale_fits_to_height_when_destination_is_wider() {
    // 4:3 base into a 800x300 hole: full height, width from the ratio
    assert_eq!(scale_keep_aspect(4, 3, 800, 300), (400, 300));
}

#[test]
fn scale_keeps_exact_match() {
    assert_eq!(scale_keep_aspect(16, 9, 1280, 720), (1280, 720));
    assert_eq!(scale_keep_aspect(1280, 720, 1280, 720), (1280, 720));
}

#[test]
fn scale_truncates_fractional_fit() {
    // 3:2 base into 100x100: width-limited, 100*2/3 = 66.67 truncates
    assert_eq!(scale_keep_aspect(3, 2, 100, 100), (100, 66));
}

#[test]
fn viewport_tracks_window_size() {
    let mut vp = Viewport::from_window(1280, 720);
    assert_eq!(vp.width(), 1280);
    assert_eq!(vp.height(), 720);
    assert_eq!(vp.size(), (1280, 720));
    vp.update_size(640, 480);
    assert_eq!(vp.size(), (640, 480));
}

#[test]
fn viewport_transform_spans_its_rectangle() {
    let vp = Viewport::from_window(1280, 720);
    let ortho = vp.transform();
    assert_eq!(ortho.left, 0);
    assert_eq!(ortho.right, 1280);
    assert_eq!(ortho.bottom, 0);
    assert_eq!(ortho.top, 720);
    assert_eq!(ortho.near, 1);
    assert_eq!(ortho.far, -1);
}

#[test]
fn viewport_transform_survives_huge_windows() {
    let vp = Viewport::from_window(u32::MAX, u32::MAX);
    let ortho = vp.transform();
    assert_eq!(ortho.right, u32::MAX as i64);
    assert_eq!(ortho.top, u32::MAX as i64);
}

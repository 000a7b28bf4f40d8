// Zoom resolution: concrete scenarios, the floor of 1, and the tightness of
// fitting both axes at once.

use pixel_camera::PixelZoom;

#[test]
fn fit_size_resolves_tightest_fit() {
    // 720x720 window, 240x240 desired resolution: each virtual pixel is a
    // 3x3 block of screen pixels.
    let spec = PixelZoom::FitSize { width: 240, height: 240 };
    assert_eq!(spec.resolve(720, 720), 3);
}

#[test]
fn fit_width_just_under_double() {
    // 321 logical pixels fit the 320-wide target only once.
    assert_eq!(PixelZoom::FitWidth(320).resolve(321, 200), 1);
}

#[test]
fn fixed_ignores_target_size() {
    assert_eq!(PixelZoom::Fixed(2).resolve(123, 456), 2);
    assert_eq!(PixelZoom::Fixed(2).resolve(7, 3), 2);
    assert_eq!(PixelZoom::Fixed(2).resolve(100000, 100000), 2);
}

#[test]
fn fit_height_resolves_from_height_only() {
    assert_eq!(PixelZoom::FitHeight(180).resolve(320, 900), 5);
    assert_eq!(PixelZoom::FitHeight(180).resolve(100000, 900), 5);
}

#[test]
fn fit_smaller_dim_uses_larger_axis() {
    // The larger logical dimension is divided by the desired length.
    assert_eq!(PixelZoom::FitSmallerDim(160).resolve(1280, 720), 8);
    assert_eq!(PixelZoom::FitSmallerDim(160).resolve(720, 1280), 8);
}

#[test]
fn zoom_floor_is_one() {
    // A window smaller than the desired resolution still yields zoom 1.
    assert_eq!(PixelZoom::FitWidth(320).resolve(200, 200), 1);
    assert_eq!(PixelZoom::FitHeight(320).resolve(200, 200), 1);
    assert_eq!(PixelZoom::FitSize { width: 320, height: 180 }.resolve(100, 50), 1);
    assert_eq!(PixelZoom::FitSmallerDim(500).resolve(200, 100), 1);
}

#[test]
fn zoom_on_degenerate_logical_size() {
    // A zero logical size is a valid, degenerate input: the floor applies.
    assert_eq!(PixelZoom::FitWidth(320).resolve(0, 0), 1);
    assert_eq!(PixelZoom::FitSize { width: 16, height: 16 }.resolve(0, 0), 1);
}

#[test]
fn fit_size_equals_min_of_fit_width_and_fit_height() {
    // Concrete instance of the tightness law.
    for &(lw, lh) in &[(1000u32, 700u32), (1280, 720), (100, 2000), (319, 179), (0, 5000)] {
        let both = PixelZoom::FitSize { width: 320, height: 180 }.resolve(lw, lh);
        let w_only = PixelZoom::FitWidth(320).resolve(lw, lh);
        let h_only = PixelZoom::FitHeight(180).resolve(lw, lh);
        assert_eq!(both, w_only.min(h_only));
    }
}

#[test]
fn target_axis_accessors() {
    assert_eq!(PixelZoom::FitSize { width: 320, height: 180 }.target_width(), Some(320));
    assert_eq!(PixelZoom::FitSize { width: 320, height: 180 }.target_height(), Some(180));
    assert_eq!(PixelZoom::FitWidth(320).target_width(), Some(320));
    assert_eq!(PixelZoom::FitWidth(320).target_height(), None);
    assert_eq!(PixelZoom::FitHeight(180).target_width(), None);
    assert_eq!(PixelZoom::FitHeight(180).target_height(), Some(180));
    assert_eq!(PixelZoom::Fixed(3).target_width(), None);
    assert_eq!(PixelZoom::Fixed(3).target_height(), None);
    assert_eq!(PixelZoom::FitSmallerDim(160).target_width(), None);
    assert_eq!(PixelZoom::FitSmallerDim(160).target_height(), None);
}

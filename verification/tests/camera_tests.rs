// Projection volume updates and the per-tick camera system.

use pixel_camera::{
    PixelCamera, PixelCameraPlugin, PixelViewport, PixelZoom, ProjectionVolume,
    RenderTargetState, ViewportRect, needs_update,
};

#[test]
fn update_centered_bounds() {
    // 720x720 at zoom 3: 240 virtual pixels per axis, centered on the
    // origin; bounds are stored scaled by the zoom.
    let mut v = ProjectionVolume::default();
    v.update(720, 720, 3);
    assert_eq!((v.left_num, v.right_num), (-360, 360));
    assert_eq!((v.bottom_num, v.top_num), (-360, 360));
    assert_eq!(v.zoom, 3);
}

#[test]
fn update_centered_odd_remainder() {
    // 231x100 at zoom 2: 115 whole virtual pixels horizontally; the left
    // bound is a whole virtual pixel (-57) and the right bound carries the
    // fractional remainder: left -114/2, right (-114 + 231)/2 = 58.5.
    let mut v = ProjectionVolume::default();
    v.update(231, 100, 2);
    assert_eq!((v.left_num, v.right_num), (-114, 117));
    assert_eq!((v.bottom_num, v.top_num), (-50, 50));
}

#[test]
fn update_uncentered_bounds() {
    let mut v = ProjectionVolume::new(-1000, 1000, false);
    v.update(640, 480, 2);
    assert_eq!((v.left_num, v.right_num), (0, 640));
    assert_eq!((v.bottom_num, v.top_num), (0, 480));
}

#[test]
fn update_degenerate_size_collapses_volume() {
    // A zero logical size collapses the volume; it stays a valid state.
    let mut v = ProjectionVolume::default();
    v.update(0, 0, 1);
    assert_eq!((v.left_num, v.right_num), (0, 0));
    assert_eq!((v.bottom_num, v.top_num), (0, 0));
}

#[test]
fn update_twice_is_idempotent() {
    let mut once = ProjectionVolume::default();
    once.update(1001, 699, 3);
    let mut twice = once;
    twice.update(1001, 699, 3);
    assert_eq!((once.left_num, once.right_num), (twice.left_num, twice.right_num));
    assert_eq!((once.bottom_num, once.top_num), (twice.bottom_num, twice.top_num));
    assert_eq!(once.zoom, twice.zoom);
}

#[test]
fn default_volume() {
    let v = ProjectionVolume::default();
    assert_eq!((v.left_num, v.right_num, v.bottom_num, v.top_num), (-1, 1, -1, 1));
    assert_eq!(v.zoom, 1);
    assert!(v.centered);
    assert_eq!((v.near, v.far()), (-1000, 1000));
}

#[test]
fn matrix_entries_are_exact_fractions() {
    // 720x720 at zoom 3, centered: m00 == 2 * zoom / width == 6/720, and the
    // volume is symmetric, so both translation entries vanish.
    let mut v = ProjectionVolume::default();
    v.update(720, 720, 3);
    let m = v.get_projection_matrix();
    assert_eq!((m.m00.num, m.m00.den), (6, 720));
    assert_eq!((m.m11.num, m.m11.den), (6, 720));
    assert_eq!(m.m30.num, 0);
    assert_eq!(m.m31.num, 0);
    // Reversed depth: m22 == 1 / (far - near), m32 == far / (far - near).
    assert_eq!((m.m22.num, m.m22.den), (1, 2000));
    assert_eq!((m.m32.num, m.m32.den), (1000, 2000));
}

#[test]
fn tick_skips_unavailable_target() {
    let mut cam = PixelCamera::from_resolution(320, 180, true);
    assert!(!PixelCameraPlugin::tick(&mut cam, None));
    assert!(cam.last_state.is_none());
    assert!(cam.viewport.is_none());
}

#[test]
fn tick_recomputes_in_order_and_sets_viewport() {
    let mut cam = PixelCamera::from_resolution(320, 180, true);
    let state = RenderTargetState {
        logical_width: 1280,
        logical_height: 720,
        physical_width: 1280,
        physical_height: 720,
    };
    assert!(PixelCameraPlugin::tick(&mut cam, Some(state)));
    assert_eq!(cam.projection.zoom, 4);
    assert_eq!((cam.projection.left_num, cam.projection.right_num), (-640, 640));
    assert_eq!(
        cam.viewport,
        Some(ViewportRect { physical_x: 0, physical_y: 0, physical_width: 1280, physical_height: 720 }),
    );
    assert_eq!(cam.last_state, Some(state));
}

#[test]
fn tick_is_change_driven() {
    let mut cam = PixelCamera::from_resolution(320, 180, true);
    let state = RenderTargetState {
        logical_width: 1000,
        logical_height: 700,
        physical_width: 1000,
        physical_height: 700,
    };
    assert!(PixelCameraPlugin::tick(&mut cam, Some(state)));
    let snapshot = cam.projection;
    // Same state again: nothing recomputed.
    assert!(!PixelCameraPlugin::tick(&mut cam, Some(state)));
    assert_eq!(cam.projection.zoom, snapshot.zoom);
    assert_eq!(cam.projection.left_num, snapshot.left_num);
    // A resize triggers recomputation.
    let resized = RenderTargetState { logical_width: 1280, ..state };
    assert!(PixelCameraPlugin::tick(&mut cam, Some(resized)));
    assert_eq!(cam.last_state, Some(resized));
}

#[test]
fn tick_without_clipping_leaves_no_viewport() {
    let mut cam = PixelCamera::from_resolution(320, 180, false);
    let state = RenderTargetState {
        logical_width: 1280,
        logical_height: 720,
        physical_width: 1280,
        physical_height: 720,
    };
    assert!(PixelCameraPlugin::tick(&mut cam, Some(state)));
    assert!(cam.viewport.is_none());
    assert_eq!(cam.projection.zoom, 4);
}

#[test]
fn tick_withholds_viewport_when_target_does_not_fit() {
    // Window smaller than the desired resolution: zoom stays at 1, and no
    // out-of-bounds viewport is emitted.
    let mut cam = PixelCamera::from_resolution(320, 180, true);
    let state = RenderTargetState {
        logical_width: 200,
        logical_height: 100,
        physical_width: 200,
        physical_height: 100,
    };
    assert!(PixelCameraPlugin::tick(&mut cam, Some(state)));
    assert_eq!(cam.projection.zoom, 1);
    assert!(cam.viewport.is_none());
}

#[test]
fn tick_withholds_viewport_on_inconsistent_scale() {
    // The width-derived scale (here 2) would map the clipped height past the
    // physical height, so no viewport is emitted for this pairing.
    let mut cam = PixelCamera::from_resolution(320, 180, true);
    let state = RenderTargetState {
        logical_width: 1000,
        logical_height: 700,
        physical_width: 2000,
        physical_height: 700,
    };
    assert!(PixelCameraPlugin::tick(&mut cam, Some(state)));
    assert_eq!(cam.projection.zoom, 3);
    assert!(cam.viewport.is_none());
}

#[test]
fn constructors_configure_the_camera() {
    let fixed = PixelCamera::from_zoom(2);
    assert_eq!(fixed.zoom_spec, PixelZoom::Fixed(2));
    assert!(!fixed.clip.enabled);

    let res = PixelCamera::from_resolution(320, 180, true);
    assert_eq!(res.zoom_spec, PixelZoom::FitSize { width: 320, height: 180 });
    assert!(res.clip.enabled);

    let w = PixelCamera::from_width(320, false);
    assert_eq!(w.zoom_spec, PixelZoom::FitWidth(320));
    assert!(!w.clip.enabled);

    let h = PixelCamera::from_height(180, true);
    assert_eq!(h.zoom_spec, PixelZoom::FitHeight(180));
    assert!(h.clip.enabled);

    let custom = PixelCamera::new(
        PixelZoom::FitSmallerDim(160),
        PixelViewport { enabled: false },
        ProjectionVolume::new(-10, 10, false),
    );
    assert_eq!(custom.zoom_spec, PixelZoom::FitSmallerDim(160));
    assert!(custom.last_state.is_none());
}

#[test]
fn needs_update_is_dirty_tracking() {
    let a = RenderTargetState {
        logical_width: 100,
        logical_height: 50,
        physical_width: 200,
        physical_height: 100,
    };
    let b = RenderTargetState { physical_height: 101, ..a };
    assert!(needs_update(&None, &a));
    assert!(!needs_update(&Some(a), &a));
    assert!(needs_update(&Some(a), &b));
}

use vstd::prelude::*;
use crate::projection::ProjectionVolume;
use crate::viewport::{PixelViewport, ViewportRect, fits, scale_covers_height,
    spec_fits, spec_scale_covers_height, spec_viewport_rect, viewport_rect};
use crate::zoom::PixelZoom;

verus! {

/// Read-only snapshot of a render target, supplied by the host renderer each
/// time a change is detected: its size in logical (DPI-independent) pixels
/// and in physical device pixels. The scale factor between the two is derived
/// from the pair itself where it is needed, so it stays consistent with the
/// sizes actually observed.
#[derive(Clone, Copy, Debug, PartialEq, Eq, Structural)]
pub struct RenderTargetState {
    pub logical_width: u32,
    pub logical_height: u32,
    pub physical_width: u32,
    pub physical_height: u32,
}

/// A pixel-perfect camera: its immutable zoom specification and clipping
/// request, the projection volume and viewport recomputed from them on every
/// relevant change, and the last render-target state seen (for dirty
/// tracking).
#[derive(Clone, Copy, Debug)]
pub struct PixelCamera {
    /// How the zoom factor is chosen; immutable after construction.
    pub zoom_spec: PixelZoom,
    /// Whether pixels outside the desired resolution are clipped away.
    pub clip: PixelViewport,
    /// The orthographic projection volume, recomputed on every update.
    pub projection: ProjectionVolume,
    /// The render-target state the outputs were last computed from.
    pub last_state: Option<RenderTargetState>,
    /// The clipping viewport, present while clipping is requested, the
    /// desired resolution fits inside the logical target size, and the
    /// width-derived scale factor keeps the clipped height inside the
    /// physical target.
    pub viewport: Option<ViewportRect>,
}

impl PixelCamera {
    /// A camera is well formed when its zoom specification and projection
    /// volume are.
    pub open spec fn wf(self) -> bool {
        &&& self.zoom_spec.wf()
        &&& self.projection.wf()
    }

    /// Runtime check of [`PixelCamera::wf`], for callers outside the verified
    /// world that must validate a camera before ticking it.
    pub fn is_wf(&self) -> (r: bool)
        ensures
            r == self.wf(),
    {
        self.zoom_spec.is_wf() && self.projection.is_wf()
    }

    /// A camera with the given zoom specification, clipping request and
    /// projection volume, before any render-target state has been seen.
    pub fn new(
        zoom_spec: PixelZoom,
        clip: PixelViewport,
        projection: ProjectionVolume,
    ) -> (cam: PixelCamera)
        requires
            zoom_spec.wf(),
            projection.wf(),
        ensures
            cam == (PixelCamera {
                zoom_spec,
                clip,
                projection,
                last_state: None,
                viewport: None,
            }),
            cam.wf(),
    {
        PixelCamera { zoom_spec, clip, projection, last_state: None, viewport: None }
    }

    /// A camera with a fixed zoom factor and a default centered projection.
    pub fn from_zoom(zoom: u32) -> (cam: PixelCamera)
        requires
            zoom >= 1,
        ensures
            cam == (PixelCamera {
                zoom_spec: PixelZoom::Fixed(zoom),
                clip: PixelViewport { enabled: false },
                projection: ProjectionVolume::spec_default(),
                last_state: None,
                viewport: None,
            }),
            cam.wf(),
    {
        Self::new(
            PixelZoom::Fixed(zoom),
            PixelViewport { enabled: false },
            ProjectionVolume::default(),
        )
    }

    /// A camera that fits the given resolution inside the window, clipping
    /// pixels outside of it when `set_viewport` is true.
    pub fn from_resolution(width: u32, height: u32, set_viewport: bool) -> (cam: PixelCamera)
        requires
            width >= 1,
            height >= 1,
        ensures
            cam == (PixelCamera {
                zoom_spec: PixelZoom::FitSize { width, height },
                clip: PixelViewport { enabled: set_viewport },
                projection: ProjectionVolume::spec_default(),
                last_state: None,
                viewport: None,
            }),
            cam.wf(),
    {
        Self::new(
            PixelZoom::FitSize { width, height },
            PixelViewport { enabled: set_viewport },
            ProjectionVolume::default(),
        )
    }

    /// A camera that fits the given width inside the window, clipping pixels
    /// outside of it when `set_viewport` is true.
    pub fn from_width(width: u32, set_viewport: bool) -> (cam: PixelCamera)
        requires
            width >= 1,
        ensures
            cam == (PixelCamera {
                zoom_spec: PixelZoom::FitWidth(width),
                clip: PixelViewport { enabled: set_viewport },
                projection: ProjectionVolume::spec_default(),
                last_state: None,
                viewport: None,
            }),
            cam.wf(),
    {
        Self::new(
            PixelZoom::FitWidth(width),
            PixelViewport { enabled: set_viewport },
            ProjectionVolume::default(),
        )
    }

    /// A camera that fits the given height inside the window, clipping pixels
    /// outside of it when `set_viewport` is true.
    pub fn from_height(height: u32, set_viewport: bool) -> (cam: PixelCamera)
        requires
            height >= 1,
        ensures
            cam == (PixelCamera {
                zoom_spec: PixelZoom::FitHeight(height),
                clip: PixelViewport { enabled: set_viewport },
                projection: ProjectionVolume::spec_default(),
                last_state: None,
                viewport: None,
            }),
            cam.wf(),
    {
        Self::new(
            PixelZoom::FitHeight(height),
            PixelViewport { enabled: set_viewport },
            ProjectionVolume::default(),
        )
    }
}

/// Whether a camera's outputs must be recomputed: they must when no
/// render-target state has been seen yet, or when the current state differs
/// from the last one seen.
pub open spec fn spec_needs_update(
    last: Option<RenderTargetState>,
    current: RenderTargetState,
) -> bool {
    match last {
        Some(prev) => prev != current,
        None => true,
    }
}

/// Dirty tracking for one camera: recomputation is needed exactly when the
/// current render-target state is not the one the outputs were computed from
/// (see [`spec_needs_update`]).
pub fn needs_update(last: &Option<RenderTargetState>, current: &RenderTargetState) -> (r: bool)
    ensures
        r == spec_needs_update(*last, *current),
{
    match last {
        Some(prev) => !(*prev == *current),
        None => true,
    }
}

/// The camera [`PixelCameraPlugin::tick`] rewrites to.
///
/// With no current state the camera is skipped unchanged. With an unchanged
/// state nothing is recomputed. Otherwise, in this order, the zoom is
/// resolved from the logical size, the projection volume is updated from the
/// logical size and that zoom, and the viewport is recomputed: present when
/// clipping is requested, the desired resolution fits inside the logical
/// size, and — where the vertical axis is clipped — the width-derived scale
/// factor maps the logical height into the physical height (true of every
/// consistent size pairing); absent otherwise, so no out-of-bounds viewport
/// is ever emitted.
pub open spec fn spec_tick(cam: PixelCamera, state: Option<RenderTargetState>) -> PixelCamera {
    match state {
        None => cam,
        Some(s) => {
            if !spec_needs_update(cam.last_state, s) {
                cam
            } else {
                let zoom = cam.zoom_spec.spec_resolve(s.logical_width, s.logical_height) as u32;
                let scale_ok = match cam.zoom_spec.spec_target_height() {
                    Some(_) => spec_scale_covers_height(
                        s.physical_width,
                        s.physical_height,
                        s.logical_width,
                        s.logical_height,
                    ),
                    None => true,
                };
                let viewport = if cam.clip.enabled && spec_fits(
                    cam.zoom_spec,
                    zoom,
                    s.logical_width,
                    s.logical_height,
                ) && scale_ok {
                    Some(
                        spec_viewport_rect(
                            cam.zoom_spec,
                            zoom,
                            s.physical_width,
                            s.physical_height,
                            s.logical_width,
                            s.logical_height,
                        ),
                    )
                } else {
                    None
                };
                PixelCamera {
                    projection: ProjectionVolume::spec_update(
                        cam.projection,
                        s.logical_width,
                        s.logical_height,
                        zoom,
                    ),
                    viewport,
                    last_state: Some(s),
                    ..cam
                }
            }
        },
    }
}

/// The per-tick camera system: reacts to render-target changes and
/// recomputes each camera's projection and viewport.
///
/// The host runs [`PixelCameraPlugin::tick`] once per frame, after change
/// events have been collected and before the renderer consumes the camera's
/// outputs.
#[derive(Clone, Copy, Debug)]
pub struct PixelCameraPlugin;

impl PixelCameraPlugin {
    /// Update one camera for this tick.
    ///
    /// `state` is the current render-target snapshot, or `None` when the
    /// target cannot report a size yet; such a camera is skipped without
    /// error and retried on the next change. When the state differs from the
    /// last one seen, the camera is recomputed in the fixed order zoom,
    /// projection volume, viewport (see [`spec_tick`]); the return value says
    /// whether that happened.
    pub fn tick(camera: &mut PixelCamera, state: Option<RenderTargetState>) -> (updated: bool)
        requires
            old(camera).wf(),
        ensures
            *final(camera) == spec_tick(*old(camera), state),
            final(camera).wf(),
            updated == (match state {
                Some(s) => spec_needs_update(old(camera).last_state, s),
                None => false,
            }),
            // Any viewport emitted this tick lies inside the physical target.
            (match state {
                Some(s) => updated ==> (match final(camera).viewport {
                    Some(r) => r.physical_x + r.physical_width <= s.physical_width
                        && r.physical_y + r.physical_height <= s.physical_height,
                    None => true,
                }),
                None => true,
            }),
    {
        match state {
            None => false,
            Some(s) => {
                if !needs_update(&camera.last_state, &s) {
                    false
                } else {
                    let zoom = camera.zoom_spec.resolve(s.logical_width, s.logical_height);
                    camera.projection.update(s.logical_width, s.logical_height, zoom);
                    let scale_ok = match camera.zoom_spec.target_height() {
                        Some(_) => scale_covers_height(
                            s.physical_width,
                            s.physical_height,
                            s.logical_width,
                            s.logical_height,
                        ),
                        None => true,
                    };
                    if camera.clip.enabled && fits(
                        &camera.zoom_spec,
                        zoom,
                        s.logical_width,
                        s.logical_height,
                    ) && scale_ok {
                        camera.viewport = Some(
                            viewport_rect(
                                &camera.zoom_spec,
                                zoom,
                                s.physical_width,
                                s.physical_height,
                                s.logical_width,
                                s.logical_height,
                            ),
                        );
                    } else {
                        camera.viewport = None;
                    }
                    camera.last_state = Some(s);
                    true
                }
            },
        }
    }
}

} // verus!

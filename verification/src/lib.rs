//! Pixel-perfect orthographic camera mapping for 2D rendering.
//!
//! Given a render target's logical and physical pixel sizes plus a desired
//! virtual resolution, this library derives an integer zoom factor, an
//! orthographic projection volume whose integer world coordinates land exactly
//! on physical pixel boundaries, and (optionally) a physical viewport
//! rectangle that clips rendering to the desired resolution.
//!
//! All geometry is kept exact: every projection bound is a multiple of
//! `1 / zoom`, so bounds are stored as integer numerators over the denominator
//! `zoom`, and the emitted projection matrix entries are exact fractions.
//! A host renderer converts them to its floating-point types at the boundary.

mod dispatch;
mod projection;
mod viewport;
mod zoom;

pub use dispatch::PixelCamera;
pub use dispatch::PixelCameraPlugin;
pub use dispatch::RenderTargetState;
pub use dispatch::needs_update;
pub use projection::Frac;
pub use projection::ProjectionMatrix;
pub use projection::ProjectionVolume;
pub use projection::lemma_centering_alignment;
pub use projection::lemma_update_idempotent;
pub use viewport::PixelViewport;
pub use viewport::ViewportRect;
pub use viewport::fits;
pub use viewport::lemma_resolved_zoom_fits;
pub use viewport::scale_covers_height;
pub use viewport::viewport_rect;
pub use zoom::PixelZoom;
pub use zoom::lemma_fit_size_tightness;

use vstd::prelude::*;

verus! {

/// Strategy for choosing the integer zoom factor (the number of physical
/// screen pixels used to display one virtual pixel).
///
/// Every variant parameter is a desired length in virtual pixels and must be
/// at least 1 (see [`PixelZoom::wf`]); the resolved zoom is always at least 1,
/// so a virtual resolution is never inflated beyond the window.
#[derive(Clone, Copy, Debug, PartialEq, Eq, Structural)]
pub enum PixelZoom {
    /// Use the given zoom factor unconditionally.
    Fixed(u32),
    /// Largest zoom that fits both the given width and height (in virtual
    /// pixels) inside the window.
    FitSize { width: u32, height: u32 },
    /// Largest zoom that fits the given width (in virtual pixels) inside the
    /// window.
    FitWidth(u32),
    /// Largest zoom that fits the given height (in virtual pixels) inside the
    /// window.
    FitHeight(u32),
    /// Zoom the smaller window dimension to the given length (in virtual
    /// pixels), letting the longer dimension show more content: the zoom is
    /// derived from the larger of the two logical dimensions.
    FitSmallerDim(u32),
}

impl PixelZoom {
    /// A zoom specification is well formed when every desired length is
    /// positive; validation happens at configuration time, so resolution
    /// never divides by zero and never yields a zoom below 1.
    pub open spec fn wf(self) -> bool {
        match self {
            PixelZoom::Fixed(zoom) => zoom >= 1,
            PixelZoom::FitSize { width, height } => width >= 1 && height >= 1,
            PixelZoom::FitWidth(width) => width >= 1,
            PixelZoom::FitHeight(height) => height >= 1,
            PixelZoom::FitSmallerDim(len) => len >= 1,
        }
    }

    /// Zoom that fits `target` virtual pixels into `logical` screen pixels,
    /// clamped to a floor of 1.
    pub open spec fn spec_fit(logical: int, target: int) -> int {
        let q = logical / target;
        if q >= 1 { q } else { 1 }
    }

    /// The zoom factor this specification resolves to for the given logical
    /// target size.
    pub open spec fn spec_resolve(self, logical_width: u32, logical_height: u32) -> int {
        match self {
            PixelZoom::Fixed(zoom) => zoom as int,
            PixelZoom::FitSize { width, height } => {
                let zoom_x = logical_width as int / width as int;
                let zoom_y = logical_height as int / height as int;
                let zoom = if zoom_x <= zoom_y { zoom_x } else { zoom_y };
                if zoom >= 1 { zoom } else { 1 }
            },
            PixelZoom::FitWidth(width) => Self::spec_fit(logical_width as int, width as int),
            PixelZoom::FitHeight(height) => Self::spec_fit(logical_height as int, height as int),
            PixelZoom::FitSmallerDim(len) => {
                let longer = if logical_width as int >= logical_height as int {
                    logical_width as int
                } else {
                    logical_height as int
                };
                Self::spec_fit(longer, len as int)
            },
        }
    }

    /// Runtime check of [`PixelZoom::wf`], for callers outside the verified
    /// world that must validate a configuration before using it.
    pub fn is_wf(&self) -> (r: bool)
        ensures
            r == self.wf(),
    {
        match self {
            PixelZoom::Fixed(zoom) => *zoom >= 1,
            PixelZoom::FitSize { width, height } => *width >= 1 && *height >= 1,
            PixelZoom::FitWidth(width) => *width >= 1,
            PixelZoom::FitHeight(height) => *height >= 1,
            PixelZoom::FitSmallerDim(len) => *len >= 1,
        }
    }

    /// The desired width in virtual pixels, for the variants that constrain
    /// the horizontal axis.
    pub open spec fn spec_target_width(self) -> Option<u32> {
        match self {
            PixelZoom::FitSize { width, .. } => Some(width),
            PixelZoom::FitWidth(width) => Some(width),
            _ => None,
        }
    }

    /// The desired height in virtual pixels, for the variants that constrain
    /// the vertical axis.
    pub open spec fn spec_target_height(self) -> Option<u32> {
        match self {
            PixelZoom::FitSize { height, .. } => Some(height),
            PixelZoom::FitHeight(height) => Some(height),
            _ => None,
        }
    }

    /// The desired width, where this specification constrains the horizontal
    /// axis (`FitSize` and `FitWidth` do; the others leave it free).
    pub fn target_width(&self) -> (r: Option<u32>)
        ensures
            r == self.spec_target_width(),
    {
        match self {
            PixelZoom::FitSize { width, .. } => Some(*width),
            PixelZoom::FitWidth(width) => Some(*width),
            _ => None,
        }
    }

    /// The desired height, where this specification constrains the vertical
    /// axis (`FitSize` and `FitHeight` do; the others leave it free).
    pub fn target_height(&self) -> (r: Option<u32>)
        ensures
            r == self.spec_target_height(),
    {
        match self {
            PixelZoom::FitSize { height, .. } => Some(*height),
            PixelZoom::FitHeight(height) => Some(*height),
            _ => None,
        }
    }

    /// Resolve the zoom factor for a logical target size.
    ///
    /// The result is the floor of the relevant logical dimension divided by
    /// the desired length, clamped to a minimum of 1; for `FitSize` the
    /// tighter of the two axis constraints wins, so the full desired
    /// resolution fits inside the window.
    pub fn resolve(&self, logical_width: u32, logical_height: u32) -> (zoom: u32)
        requires
            self.wf(),
        ensures
            zoom == self.spec_resolve(logical_width, logical_height),
            zoom >= 1,
    {
        match self {
            PixelZoom::Fixed(zoom) => *zoom,
            PixelZoom::FitSize { width, height } => {
                let zoom_x = logical_width / *width;
                let zoom_y = logical_height / *height;
                let zoom = if zoom_x <= zoom_y { zoom_x } else { zoom_y };
                if zoom >= 1 { zoom } else { 1 }
            },
            PixelZoom::FitWidth(width) => {
                let zoom = logical_width / *width;
                if zoom >= 1 { zoom } else { 1 }
            },
            PixelZoom::FitHeight(height) => {
                let zoom = logical_height / *height;
                if zoom >= 1 { zoom } else { 1 }
            },
            PixelZoom::FitSmallerDim(len) => {
                let longer = if logical_width >= logical_height {
                    logical_width
                } else {
                    logical_height
                };
                let zoom = longer / *len;
                if zoom >= 1 { zoom } else { 1 }
            },
        }
    }
}

/// The tighter of the two `FitSize` constraints wins: fitting both a width
/// and a height resolves to the smaller of the zooms that fit each axis
/// alone.
pub proof fn lemma_fit_size_tightness(
    width: u32,
    height: u32,
    logical_width: u32,
    logical_height: u32,
)
    requires
        width >= 1,
        height >= 1,
    ensures
        (PixelZoom::FitSize { width, height }).spec_resolve(logical_width, logical_height)
            == (vstd::math::min(
            PixelZoom::FitWidth(width).spec_resolve(logical_width, logical_height),
            PixelZoom::FitHeight(height).spec_resolve(logical_width, logical_height),
        )),
{
}

} // verus!

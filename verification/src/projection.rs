use vstd::prelude::*;
use vstd::arithmetic::div_mod::{lemma_fundamental_div_mod, lemma_mod_bound};
use vstd::arithmetic::mul::{lemma_mul_inequality, lemma_mul_is_distributive_add};

verus! {

/// An exact fraction `num / den` with a positive denominator.
///
/// Projection bounds and matrix entries are multiples of `1 / zoom` (or of
/// `1 / logical_size`), so the library keeps them as integer fractions; a
/// host renderer divides `num` by `den` in its own floating-point type.
#[derive(Clone, Copy, Debug, PartialEq, Eq, Structural)]
pub struct Frac {
    pub num: i64,
    pub den: i64,
}

impl Frac {
    /// A fraction is well formed when its denominator is positive.
    pub open spec fn wf(self) -> bool {
        self.den >= 1
    }
}

/// The six non-trivial entries of a right-handed orthographic projection
/// matrix, as exact fractions.
///
/// The full column-major 4x4 matrix is
///
/// ```text
/// | m00   0    0   m30 |
/// |  0   m11   0   m31 |
/// |  0    0   m22  m32 |
/// |  0    0    0    1  |
/// ```
///
/// (`m30` names column 3, row 0.) Depth is reversed: a world point at
/// `z == -far` maps to depth 0 and one at `z == -near` maps to depth 1, for
/// interoperability with pipelines that use a reversed depth buffer.
#[derive(Clone, Copy, Debug, PartialEq, Eq, Structural)]
pub struct ProjectionMatrix {
    pub m00: Frac,
    pub m11: Frac,
    pub m22: Frac,
    pub m30: Frac,
    pub m31: Frac,
    pub m32: Frac,
}

/// An orthographic projection volume whose integer world coordinates are
/// aligned with virtual pixels.
///
/// The four planar bounds are exact multiples of `1 / zoom`: the field
/// `left_num` stores `left * zoom`, and likewise for the other bounds. The
/// value of `right - left` always equals `logical_width / zoom` after
/// [`ProjectionVolume::update`], so `right_num - left_num` equals the logical
/// width itself.
///
/// `near` and `far` are policy constants chosen at construction and are never
/// recomputed; only the planar bounds and `zoom` change on update.
#[derive(Clone, Copy, Debug, PartialEq, Eq, Structural)]
pub struct ProjectionVolume {
    /// `left * zoom`: scaled left bound, at most 0.
    pub left_num: i64,
    /// `right * zoom`: scaled right bound, at least 0.
    pub right_num: i64,
    /// `bottom * zoom`: scaled bottom bound, at most 0.
    pub bottom_num: i64,
    /// `top * zoom`: scaled top bound, at least 0.
    pub top_num: i64,
    /// Physical pixels per virtual pixel; always at least 1.
    pub zoom: u32,
    /// If true, the volume straddles the origin so that (0, 0) stays pinned
    /// to a virtual-pixel boundary; otherwise the origin is the bottom-left
    /// corner.
    pub centered: bool,
    /// Near clipping plane (world `z == -near` given the right-handed view).
    pub near: i32,
    /// Far clipping plane; always greater than `near`.
    pub far: i32,
}

impl ProjectionVolume {
    /// Invariant established by the constructors and preserved by
    /// [`ProjectionVolume::update`]: the zoom has its floor of 1, the depth
    /// planes are ordered, the volume contains the origin, and each axis
    /// spans at most `u32::MAX` scaled units (one logical size).
    pub open spec fn wf(self) -> bool {
        &&& self.zoom >= 1
        &&& self.near < self.far
        &&& -0x1_0000_0000 <= self.left_num <= 0 <= self.right_num
        &&& self.right_num - self.left_num <= 0xFFFF_FFFF
        &&& -0x1_0000_0000 <= self.bottom_num <= 0 <= self.top_num
        &&& self.top_num - self.bottom_num <= 0xFFFF_FFFF
    }

    /// Runtime check of [`ProjectionVolume::wf`], for callers outside the
    /// verified world that must validate a volume before using it.
    pub fn is_wf(&self) -> (r: bool)
        ensures
            r == self.wf(),
    {
        self.zoom >= 1 && self.near < self.far && -0x1_0000_0000i64 <= self.left_num
            && self.left_num <= 0 && 0 <= self.right_num && self.right_num <= 0x1_0000_0000i64
            && self.right_num - self.left_num <= 0xFFFF_FFFFi64
            && -0x1_0000_0000i64 <= self.bottom_num && self.bottom_num <= 0 && 0 <= self.top_num
            && self.top_num <= 0x1_0000_0000i64
            && self.top_num - self.bottom_num <= 0xFFFF_FFFFi64
    }

    /// Both axes have positive extent, so the projection matrix denominators
    /// are non-zero.
    pub open spec fn nondegenerate(self) -> bool {
        &&& self.left_num < self.right_num
        &&& self.bottom_num < self.top_num
    }

    /// Runtime check of [`ProjectionVolume::nondegenerate`], for callers
    /// outside the verified world that must validate a volume before asking
    /// for its projection matrix.
    pub fn is_nondegenerate(&self) -> (r: bool)
        ensures
            r == self.nondegenerate(),
    {
        self.left_num < self.right_num && self.bottom_num < self.top_num
    }

    /// Scaled lower bound of a centered axis: the virtual length
    /// `logical / zoom` is halved and re-scaled by `zoom`, so the bound is a
    /// whole number of virtual pixels and the origin stays on a virtual-pixel
    /// boundary even when the virtual length is odd.
    pub open spec fn centered_low(logical: u32, zoom: u32) -> int {
        -(((logical as int / zoom as int) / 2) * zoom)
    }

    /// The volume [`ProjectionVolume::update`] rewrites to: bounds recomputed
    /// from the logical size and zoom, `near`/`far`/`centered` kept.
    pub open spec fn spec_update(
        v: ProjectionVolume,
        logical_width: u32,
        logical_height: u32,
        zoom: u32,
    ) -> ProjectionVolume {
        if v.centered {
            ProjectionVolume {
                left_num: Self::centered_low(logical_width, zoom) as i64,
                right_num: (Self::centered_low(logical_width, zoom) + logical_width) as i64,
                bottom_num: Self::centered_low(logical_height, zoom) as i64,
                top_num: (Self::centered_low(logical_height, zoom) + logical_height) as i64,
                zoom,
                ..v
            }
        } else {
            ProjectionVolume {
                left_num: 0,
                right_num: logical_width as i64,
                bottom_num: 0,
                top_num: logical_height as i64,
                zoom,
                ..v
            }
        }
    }

    /// The volume [`Default::default`] yields: centered, unit planar bounds
    /// at zoom 1, and depth planes at -1000 and 1000.
    pub open spec fn spec_default() -> ProjectionVolume {
        ProjectionVolume {
            left_num: -1i64,
            right_num: 1,
            bottom_num: -1i64,
            top_num: 1,
            zoom: 1,
            centered: true,
            near: -1000i32,
            far: 1000,
        }
    }

    /// A projection volume with the given depth planes and centering flag;
    /// the planar bounds start as the unit square (at zoom 1) until the
    /// first update.
    pub fn new(near: i32, far: i32, centered: bool) -> (v: ProjectionVolume)
        requires
            near < far,
        ensures
            v == (ProjectionVolume {
                left_num: -1i64,
                right_num: 1,
                bottom_num: -1i64,
                top_num: 1,
                zoom: 1,
                centered,
                near,
                far,
            }),
            v.wf(),
    {
        ProjectionVolume {
            left_num: -1,
            right_num: 1,
            bottom_num: -1,
            top_num: 1,
            zoom: 1,
            centered,
            near,
            far,
        }
    }

    /// Recompute the planar bounds for a logical target size and a resolved
    /// zoom factor.
    ///
    /// Each axis spans `logical / zoom` virtual pixels. When centered, the
    /// lower bound is the floor of half the (whole) virtual length, negated,
    /// so the origin is pinned to a virtual-pixel boundary; otherwise the
    /// lower bound is 0. In both cases the upper bound is the lower bound
    /// plus the exact virtual length, so
    /// `right_num - left_num == logical_width` and
    /// `top_num - bottom_num == logical_height`.
    pub fn update(&mut self, logical_width: u32, logical_height: u32, zoom: u32)
        requires
            old(self).wf(),
            zoom >= 1,
        ensures
            *final(self) == Self::spec_update(*old(self), logical_width, logical_height, zoom),
            final(self).wf(),
    {
        proof {
            Self::lemma_centered_low_bounds(logical_width, zoom);
            Self::lemma_centered_low_bounds(logical_height, zoom);
        }
        let virtual_width: u32 = logical_width / zoom;
        let virtual_height: u32 = logical_height / zoom;
        self.zoom = zoom;
        if self.centered {
            let half_w_scaled: u64 = ((virtual_width / 2) as u64) * (zoom as u64);
            let half_h_scaled: u64 = ((virtual_height / 2) as u64) * (zoom as u64);
            self.left_num = -(half_w_scaled as i64);
            self.right_num = self.left_num + logical_width as i64;
            self.bottom_num = -(half_h_scaled as i64);
            self.top_num = self.bottom_num + logical_height as i64;
        } else {
            self.left_num = 0;
            self.right_num = logical_width as i64;
            self.bottom_num = 0;
            self.top_num = logical_height as i64;
        }
    }

    /// The scaled lower bound of a centered axis lies between `-logical`
    /// and 0 (so it fits every integer type the volume uses).
    proof fn lemma_centered_low_bounds(logical: u32, zoom: u32)
        requires
            zoom >= 1,
        ensures
            -(logical as int) <= Self::centered_low(logical, zoom) <= 0,
    {
        let l = logical as int;
        let z = zoom as int;
        let q = l / z;
        lemma_fundamental_div_mod(l, z);
        lemma_mod_bound(l, z);
        assert(q * z <= l);
        assert(0 <= q / 2 <= q);
        lemma_mul_inequality(q / 2, q, z);
        lemma_mul_inequality(0, q / 2, z);
    }

    /// Relation between a volume and its projection matrix, entry by entry:
    /// with `w == right_num - left_num` (the logical width) and
    /// `h == top_num - bottom_num`, the matrix is
    /// `m00 == 2 * zoom / w`, `m30 == -(left_num + right_num) / w`,
    /// `m11 == 2 * zoom / h`, `m31 == -(bottom_num + top_num) / h`,
    /// `m22 == 1 / (far - near)` and `m32 == far / (far - near)`.
    ///
    /// These are the entries of the standard right-handed orthographic
    /// projection for the bounds `left_num / zoom .. right_num / zoom` (and
    /// vertically alike), with the depth planes swapped so that depth runs
    /// reversed from `z == -far` (depth 0) to `z == -near` (depth 1):
    /// `2 / (right - left) == 2 * zoom / w` once both sides are scaled by
    /// `zoom`, and likewise for the other planar entries.
    pub open spec fn is_matrix_of(m: ProjectionMatrix, v: ProjectionVolume) -> bool {
        &&& m.m00.num == 2 * v.zoom
        &&& m.m00.den == v.right_num - v.left_num
        &&& m.m30.num == -(v.left_num + v.right_num)
        &&& m.m30.den == v.right_num - v.left_num
        &&& m.m11.num == 2 * v.zoom
        &&& m.m11.den == v.top_num - v.bottom_num
        &&& m.m31.num == -(v.bottom_num + v.top_num)
        &&& m.m31.den == v.top_num - v.bottom_num
        &&& m.m22.num == 1
        &&& m.m22.den == v.far - v.near
        &&& m.m32.num == v.far
        &&& m.m32.den == v.far - v.near
    }

    /// Emit the orthographic projection matrix for the current bounds, as
    /// exact fractions (see [`ProjectionVolume::is_matrix_of`] for the
    /// entries and the reversed depth convention).
    pub fn get_projection_matrix(&self) -> (m: ProjectionMatrix)
        requires
            self.wf(),
            self.nondegenerate(),
        ensures
            Self::is_matrix_of(m, *self),
            m.m00.wf() && m.m11.wf() && m.m22.wf() && m.m30.wf() && m.m31.wf() && m.m32.wf(),
    {
        let width_num: i64 = self.right_num - self.left_num;
        let height_num: i64 = self.top_num - self.bottom_num;
        let depth: i64 = (self.far as i64) - (self.near as i64);
        let two_zoom: i64 = 2 * (self.zoom as i64);
        ProjectionMatrix {
            m00: Frac { num: two_zoom, den: width_num },
            m11: Frac { num: two_zoom, den: height_num },
            m22: Frac { num: 1, den: depth },
            m30: Frac { num: -(self.left_num + self.right_num), den: width_num },
            m31: Frac { num: -(self.bottom_num + self.top_num), den: height_num },
            m32: Frac { num: self.far as i64, den: depth },
        }
    }

    /// The far clipping plane supplied at construction.
    pub fn far(&self) -> (r: i32)
        ensures
            r == self.far,
    {
        self.far
    }
}

impl Default for ProjectionVolume {
    /// A centered volume with unit planar bounds at zoom 1 and depth planes
    /// at -1000 and 1000 (see [`ProjectionVolume::spec_default`]).
    fn default() -> (v: ProjectionVolume)
        ensures
            v == ProjectionVolume::spec_default(),
            v.wf(),
    {
        ProjectionVolume::new(-1000, 1000, true)
    }
}

/// Updating a volume is idempotent: a second update with identical inputs
/// leaves the bounds exactly as the first one did — no state accumulates
/// between updates.
pub proof fn lemma_update_idempotent(
    v: ProjectionVolume,
    logical_width: u32,
    logical_height: u32,
    zoom: u32,
)
    requires
        zoom >= 1,
    ensures
        ProjectionVolume::spec_update(
            ProjectionVolume::spec_update(v, logical_width, logical_height, zoom),
            logical_width,
            logical_height,
            zoom,
        ) == ProjectionVolume::spec_update(v, logical_width, logical_height, zoom),
{
}

/// Centering alignment: every integer world coordinate inside the visible
/// volume projects, through the emitted matrix and the standard NDC-to-pixel
/// transform, onto an exact integer physical pixel — the one computed
/// independently from the zoom and the centered offset.
///
/// For a world point `x`, the matrix gives the clip coordinate
/// `ndc == (x * m00.num + m30.num) / m00.den`, and the standard transform
/// maps it to the pixel `(ndc + 1) * logical_width / 2`. With
/// `m00.den == logical_width`, twice that pixel value is the integer
/// `x * m00.num + m30.num + m00.den`, which this lemma shows equals
/// `2 * (zoom * x - left_num)`: the pixel is exactly `zoom * x - left_num`,
/// an integer between 0 and the logical width; for a centered volume it is
/// the independently expected `zoom * (x + virtual_width / 2)`. The vertical
/// axis behaves alike.
pub proof fn lemma_centering_alignment(
    prev: ProjectionVolume,
    v: ProjectionVolume,
    m: ProjectionMatrix,
    logical_width: u32,
    logical_height: u32,
    zoom: u32,
    x: int,
    y: int,
)
    requires
        zoom >= 1,
        v == ProjectionVolume::spec_update(prev, logical_width, logical_height, zoom),
        ProjectionVolume::is_matrix_of(m, v),
        v.left_num <= zoom * x <= v.right_num,
        v.bottom_num <= zoom * y <= v.top_num,
    ensures
        x * m.m00.num + m.m30.num + m.m00.den == 2 * (zoom * x - v.left_num),
        0 <= zoom * x - v.left_num <= logical_width,
        y * m.m11.num + m.m31.num + m.m11.den == 2 * (zoom * y - v.bottom_num),
        0 <= zoom * y - v.bottom_num <= logical_height,
        prev.centered ==> zoom * x - v.left_num == zoom * (x + (logical_width as int
            / zoom as int) / 2),
        prev.centered ==> zoom * y - v.bottom_num == zoom * (y + (logical_height as int
            / zoom as int) / 2),
{
    ProjectionVolume::lemma_centered_low_bounds(logical_width, zoom);
    ProjectionVolume::lemma_centered_low_bounds(logical_height, zoom);
    assert(x * (2 * zoom) == 2 * (zoom * x)) by (nonlinear_arith);
    assert(y * (2 * zoom) == 2 * (zoom * y)) by (nonlinear_arith);
    if prev.centered {
        let half_w = (logical_width as int / zoom as int) / 2;
        let half_h = (logical_height as int / zoom as int) / 2;
        lemma_mul_is_distributive_add(zoom as int, x, half_w);
        lemma_mul_is_distributive_add(zoom as int, y, half_h);
        assert(v.left_num == -(half_w * zoom));
        assert(zoom * half_w == half_w * zoom) by (nonlinear_arith);
        assert(zoom * half_h == half_h * zoom) by (nonlinear_arith);
    }
}

} // verus!

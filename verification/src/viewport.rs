use vstd::prelude::*;
use vstd::arithmetic::div_mod::{
    lemma_div_basics, lemma_div_by_self, lemma_div_is_ordered,
    lemma_div_is_ordered_by_denominator, lemma_div_pos_is_pos, lemma_fundamental_div_mod,
    lemma_mod_bound, lemma_multiply_divide_lt,
};
use vstd::arithmetic::mul::lemma_mul_inequality;
use crate::zoom::PixelZoom;

verus! {

/// Request to clip rendering to the desired resolution: when `enabled`,
/// pixels outside the resolved virtual resolution are excluded by a physical
/// viewport rectangle, recomputed whenever the render target changes.
#[derive(Clone, Copy, Debug, PartialEq, Eq, Structural)]
pub struct PixelViewport {
    pub enabled: bool,
}

/// A viewport rectangle in physical pixels: the clipped region's offset and
/// size inside the render target.
#[derive(Clone, Copy, Debug, PartialEq, Eq, Structural)]
pub struct ViewportRect {
    pub physical_x: u32,
    pub physical_y: u32,
    pub physical_width: u32,
    pub physical_height: u32,
}

/// `num / den` rounded to the nearest integer, ties rounding up
/// (for non-negative `num` and positive `den`).
pub open spec fn spec_round_frac(num: int, den: int) -> int {
    (2 * num + den) / (2 * den)
}

/// Whether the desired resolution, at the given zoom, fits inside the logical
/// target size on every axis the specification constrains. Zoom resolution
/// guarantees this whenever the logical size is at least the desired size;
/// only a window smaller than the desired resolution (where the zoom floor
/// of 1 applies) violates it.
pub open spec fn spec_fits(
    spec: PixelZoom,
    zoom: u32,
    logical_width: u32,
    logical_height: u32,
) -> bool {
    &&& (match spec.spec_target_width() {
        Some(target) => target * zoom <= logical_width,
        None => true,
    })
    &&& (match spec.spec_target_height() {
        Some(target) => target * zoom <= logical_height,
        None => true,
    })
}

/// Check that the desired resolution at the given zoom fits inside the
/// logical size on every constrained axis (see [`spec_fits`]).
pub fn fits(spec: &PixelZoom, zoom: u32, logical_width: u32, logical_height: u32) -> (r: bool)
    ensures
        r == spec_fits(*spec, zoom, logical_width, logical_height),
{
    let fit_x = match spec.target_width() {
        Some(target) => {
            proof {
                lemma_product_of_u32_fits_u64(target, zoom);
            }
            (target as u64) * (zoom as u64) <= logical_width as u64
        },
        None => true,
    };
    let fit_y = match spec.target_height() {
        Some(target) => {
            proof {
                lemma_product_of_u32_fits_u64(target, zoom);
            }
            (target as u64) * (zoom as u64) <= logical_height as u64
        },
        None => true,
    };
    fit_x && fit_y
}

/// Offset and length of one constrained viewport axis, exactly.
///
/// One scale factor serves both axes: it is derived once as
/// `physical_width / logical_width` (so `scale_num / scale_den` below), kept
/// consistent with the observed size pair rather than taken from the host's
/// DPI factor. The clipped region is `target * zoom` logical units out of the
/// axis's `logical_len`, so its physical length is
/// `round(scale * target * zoom)` and its offset centers the excess:
/// `round(scale * (logical_len - target * zoom)) / 2`.
pub open spec fn spec_axis_clip(
    scale_num: u32,
    scale_den: u32,
    logical_len: u32,
    target: u32,
    zoom: u32,
) -> (int, int) {
    (
        spec_round_frac(scale_num * ((logical_len - target * zoom) as int), scale_den as int)
            / 2,
        spec_round_frac(scale_num * (target * zoom), scale_den as int),
    )
}

/// Whether the width-derived scale factor maps the whole logical height into
/// the physical height: `(physical_width / logical_width) * logical_height
/// <= physical_height`, in cross-multiplied form. A host that reports a
/// consistent logical/physical pairing (the same ratio on both axes)
/// satisfies it with equality; it is what keeps a vertically clipped
/// viewport inside the physical target.
pub open spec fn spec_scale_covers_height(
    physical_width: u32,
    physical_height: u32,
    logical_width: u32,
    logical_height: u32,
) -> bool {
    &&& logical_width >= 1
    &&& physical_width * logical_height <= physical_height * logical_width
}

/// Check [`spec_scale_covers_height`]: the width-derived scale keeps the
/// logical height within the physical height.
pub fn scale_covers_height(
    physical_width: u32,
    physical_height: u32,
    logical_width: u32,
    logical_height: u32,
) -> (r: bool)
    ensures
        r == spec_scale_covers_height(
            physical_width,
            physical_height,
            logical_width,
            logical_height,
        ),
{
    proof {
        lemma_product_of_u32_fits_u64(physical_width, logical_height);
        lemma_product_of_u32_fits_u64(physical_height, logical_width);
    }
    logical_width >= 1 && (physical_width as u64) * (logical_height as u64)
        <= (physical_height as u64) * (logical_width as u64)
}

/// The viewport rectangle for a desired resolution: on each constrained axis
/// the clipped extent per [`spec_axis_clip`], on a free axis the full
/// physical extent with zero offset.
pub open spec fn spec_viewport_rect(
    spec: PixelZoom,
    zoom: u32,
    physical_width: u32,
    physical_height: u32,
    logical_width: u32,
    logical_height: u32,
) -> ViewportRect {
    let (x, width) = match spec.spec_target_width() {
        Some(target) => spec_axis_clip(physical_width, logical_width, logical_width, target, zoom),
        None => (0int, physical_width as int),
    };
    let (y, height) = match spec.spec_target_height() {
        Some(target) => spec_axis_clip(
            physical_width,
            logical_width,
            logical_height,
            target,
            zoom,
        ),
        None => (0int, physical_height as int),
    };
    ViewportRect {
        physical_x: x as u32,
        physical_y: y as u32,
        physical_width: width as u32,
        physical_height: height as u32,
    }
}

/// The product of two 32-bit values stays below 2^64.
proof fn lemma_product_of_u32_fits_u64(x: u32, y: u32)
    ensures
        x * y < 0x1_0000_0000_0000_0000,
{
    assert((x as int) * (y as int) < 0x1_0000_0000_0000_0000) by (nonlinear_arith)
        requires
            0 <= (x as int) && (x as int) < 0x1_0000_0000,
            0 <= (y as int) && (y as int) < 0x1_0000_0000,
    ;
}

/// Rounding a clipped axis keeps it inside the physical extent: with the
/// scale `scale_num / scale_den`, an axis of `extent` logical units whose
/// scaled image fits the physical `bound` (`scale_num * extent <= bound *
/// scale_den`), and a clipped region of `0 <= target_scaled <= extent`
/// logical units, the rounded length and the centered rounded offset are
/// non-negative and their sum never exceeds `bound`.
proof fn lemma_axis_clip_contained(
    scale_num: int,
    scale_den: int,
    extent: int,
    target_scaled: int,
    bound: int,
)
    requires
        0 <= scale_num,
        0 <= target_scaled <= extent,
        1 <= scale_den,
        0 <= bound,
        scale_num * extent <= bound * scale_den,
    ensures
        0 <= spec_round_frac(scale_num * target_scaled, scale_den),
        0 <= spec_round_frac(scale_num * (extent - target_scaled), scale_den),
        spec_round_frac(scale_num * (extent - target_scaled), scale_den) / 2 + spec_round_frac(
            scale_num * target_scaled,
            scale_den,
        ) <= bound,
{
    let d = 2 * scale_den;
    let a = 2 * (scale_num * target_scaled) + scale_den;
    let b = 2 * (scale_num * (extent - target_scaled)) + scale_den;
    let qa = a / d;
    let qb = b / d;
    assert(0 <= scale_num * target_scaled && scale_num * target_scaled <= scale_num * extent
        && 0 <= scale_num * (extent - target_scaled)) by (nonlinear_arith)
        requires
            0 <= scale_num,
            0 <= target_scaled <= extent,
    ;
    assert(a + b == 2 * (scale_num * extent) + 2 * scale_den) by (nonlinear_arith)
        requires
            a == 2 * (scale_num * target_scaled) + scale_den,
            b == 2 * (scale_num * (extent - target_scaled)) + scale_den,
    ;
    assert((bound + 1) * d == 2 * (bound * scale_den) + 2 * scale_den) by (nonlinear_arith)
        requires
            d == 2 * scale_den,
    ;
    lemma_div_pos_is_pos(a, d);
    lemma_div_pos_is_pos(b, d);
    // The two rounded quotients add up to at most `bound + 1`.
    lemma_fundamental_div_mod(a, d);
    lemma_mod_bound(a, d);
    lemma_fundamental_div_mod(b, d);
    lemma_mod_bound(b, d);
    assert(qa + qb <= bound + 1) by (nonlinear_arith)
        requires
            d >= 2,
            a == d * qa + a % d,
            b == d * qb + b % d,
            0 <= a % d,
            0 <= b % d,
            a + b <= (bound + 1) * d,
    ;
    // The rounded length alone stays at or below `bound`.
    assert(a < (bound + 1) * d);
    lemma_multiply_divide_lt(a, d, bound + 1);
    // Offset plus length: with `qa <= bound` and `qb <= bound + 1 - qa`,
    // halving the offset numerator absorbs the spare unit.
    lemma_div_is_ordered(qb, bound + 1 - qa, 2);
    assert((bound + 1 - qa) / 2 + qa <= bound);
}

/// A zoom derived by [`PixelZoom::resolve`] fits by construction: whenever
/// the logical size reaches the desired size on every constrained axis, the
/// resolved zoom keeps `target * zoom` within the logical size there, so a
/// clipping viewport can always be emitted.
pub proof fn lemma_resolved_zoom_fits(spec: PixelZoom, logical_width: u32, logical_height: u32)
    requires
        spec.wf(),
        (match spec.spec_target_width() {
            Some(target) => target <= logical_width,
            None => true,
        }),
        (match spec.spec_target_height() {
            Some(target) => target <= logical_height,
            None => true,
        }),
    ensures
        spec_fits(
            spec,
            spec.spec_resolve(logical_width, logical_height) as u32,
            logical_width,
            logical_height,
        ),
{
    match spec {
        PixelZoom::FitSize { width, height } => {
            lemma_fit_within(logical_width as int, width as int);
            lemma_fit_within(logical_height as int, height as int);
            let zoom_x = logical_width as int / width as int;
            let zoom_y = logical_height as int / height as int;
            let zoom = if zoom_x <= zoom_y { zoom_x } else { zoom_y };
            assert(spec.spec_resolve(logical_width, logical_height) == zoom);
            lemma_mul_inequality(zoom, zoom_x, width as int);
            lemma_mul_inequality(zoom, zoom_y, height as int);
            assert(width * zoom <= logical_width);
            assert(height * zoom <= logical_height);
        },
        PixelZoom::FitWidth(width) => {
            lemma_fit_within(logical_width as int, width as int);
        },
        PixelZoom::FitHeight(height) => {
            lemma_fit_within(logical_height as int, height as int);
        },
        PixelZoom::Fixed(..) => {},
        PixelZoom::FitSmallerDim(..) => {},
    }
}

/// For `1 <= target <= logical`, the fitted zoom `logical / target` is at
/// least 1 and scales the target back to within the logical size:
/// `target * (logical / target) <= logical`.
proof fn lemma_fit_within(logical: int, target: int)
    requires
        1 <= target <= logical,
    ensures
        1 <= logical / target <= logical,
        target * (logical / target) <= logical,
{
    lemma_div_is_ordered(target, logical, target);
    lemma_div_by_self(target);
    lemma_fundamental_div_mod(logical, target);
    lemma_mod_bound(logical, target);
    lemma_div_is_ordered_by_denominator(logical, 1, target);
    lemma_div_basics(logical);
}

/// Compute the viewport rectangle that clips rendering to the desired
/// resolution, centering the excess.
///
/// One scale factor is derived as `physical_width / logical_width` — from the
/// observed size pair, not the host's DPI factor — and applied to both axes.
/// On a constrained axis the physical length is `round(scale * target *
/// zoom)` and the offset is `round(scale * (logical_len - target * zoom)) /
/// 2`; a free axis spans the full physical length at offset 0. Where the
/// vertical axis is constrained, the caller must guarantee that this scale
/// maps the logical height into the physical height
/// ([`spec_scale_covers_height`]; trivial for the consistent pairings hosts
/// report), so the rectangle always lies inside `[0, physical_width] x
/// [0, physical_height]`.
pub fn viewport_rect(
    spec: &PixelZoom,
    zoom: u32,
    physical_width: u32,
    physical_height: u32,
    logical_width: u32,
    logical_height: u32,
) -> (r: ViewportRect)
    requires
        spec.wf(),
        zoom >= 1,
        spec_fits(*spec, zoom, logical_width, logical_height),
        (match spec.spec_target_height() {
            Some(_) => spec_scale_covers_height(
                physical_width,
                physical_height,
                logical_width,
                logical_height,
            ),
            None => true,
        }),
    ensures
        r == spec_viewport_rect(
            *spec,
            zoom,
            physical_width,
            physical_height,
            logical_width,
            logical_height,
        ),
        r.physical_x + r.physical_width <= physical_width,
        r.physical_y + r.physical_height <= physical_height,
{
    let (physical_x, width) = match spec.target_width() {
        Some(target) => {
            proof {
                assert(target as int * zoom as int >= 1) by (nonlinear_arith)
                    requires
                        target >= 1,
                        zoom >= 1,
                ;
            }
            clipped_axis(
                physical_width,
                logical_width,
                logical_width,
                target,
                zoom,
                physical_width,
            )
        },
        None => (0, physical_width),
    };
    let (physical_y, height) = match spec.target_height() {
        Some(target) => clipped_axis(
            physical_width,
            logical_width,
            logical_height,
            target,
            zoom,
            physical_height,
        ),
        None => (0, physical_height),
    };
    ViewportRect { physical_x, physical_y, physical_width: width, physical_height: height }
}

/// One constrained axis of the clipped viewport: `(offset, length)` per
/// [`spec_axis_clip`], computed exactly in wide integers. `bound` is the
/// physical extent of this axis; the scaled image of `logical_len` must fit
/// it, so offset plus length never exceed it.
fn clipped_axis(
    scale_num: u32,
    scale_den: u32,
    logical_len: u32,
    target: u32,
    zoom: u32,
    bound: u32,
) -> (r: (u32, u32))
    requires
        target >= 1,
        zoom >= 1,
        target * zoom <= logical_len,
        scale_den >= 1,
        scale_num * logical_len <= bound * scale_den,
    ensures
        (r.0 as int, r.1 as int) == spec_axis_clip(scale_num, scale_den, logical_len, target, zoom),
        r.0 + r.1 <= bound,
{
    proof {
        assert(target as int * zoom as int >= 1) by (nonlinear_arith)
            requires
                target >= 1,
                zoom >= 1,
        ;
        lemma_axis_clip_contained(
            scale_num as int,
            scale_den as int,
            logical_len as int,
            target as int * zoom as int,
            bound as int,
        );
    }
    let target_scaled: u64 = (target as u64) * (zoom as u64);
    let remainder: u64 = logical_len as u64 - target_scaled;
    proof {
        assert(scale_num as int * target_scaled as int
            <= 0x1_0000_0000_0000_0000_0000_0000 && scale_num as int * remainder as int
            <= 0x1_0000_0000_0000_0000_0000_0000) by (nonlinear_arith)
            requires
                0 <= (scale_num as int) && (scale_num as int) < 0x1_0000_0000,
                0 <= (target_scaled as int) && (target_scaled as int) < 0x1_0000_0000,
                0 <= (remainder as int) && (remainder as int) < 0x1_0000_0000,
        ;
    }
    let den: u128 = scale_den as u128;
    let length: u128 = round_nearest((scale_num as u128) * (target_scaled as u128), den);
    let offset: u128 = round_nearest((scale_num as u128) * (remainder as u128), den) / 2;
    (offset as u32, length as u32)
}

/// `num / den` rounded to nearest, ties up: `(2 * num + den) / (2 * den)`.
fn round_nearest(num: u128, den: u128) -> (r: u128)
    requires
        1 <= den,
        den <= 0x1_0000_0000,
        num <= 0x1_0000_0000_0000_0000_0000_0000,
    ensures
        r == spec_round_frac(num as int, den as int),
{
    (2 * num + den) / (2 * den)
}

} // verus!

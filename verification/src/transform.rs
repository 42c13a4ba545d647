//! The pan/zoom view transform.
//!
//! A logical point `p` (whole pixels) is mapped to screen space by
//! `(p - c) * scale + c + offset + bounds.min`, where `c` is the center of
//! the bounds rectangle expressed relative to its own origin. Scaling about
//! the center keeps zoom from displacing the visual center; the offset is
//! not itself scaled, so panning speed is independent of zoom.
//!
//! The exact result is computed at denominator `2^33`: inputs carry
//! denominator `2^16` (`SUBPIXEL`), the scale factor another `2^16`, and
//! the center another `2`. `transform_axis` is that exact numerator.

use vstd::prelude::*;

use crate::coords::lemma_mul_bound;
use crate::coords::COORD_LIMIT;
use crate::coords::SCALE_LIMIT;
use crate::coords::SUBPIXEL;

verus! {

/// Every transformed coordinate stays within this magnitude (raw units of
/// `1/2^33` pixel), leaving room for the shape builders to offset it
/// without overflow.
pub const SCREEN_LIMIT: i128 = 0x1_0000_0000_0000_0000_0000_0000;

/// Exact view transform of one axis, as a numerator at denominator `2^33`.
///
/// `p` is the logical coordinate in whole pixels, `mn`/`mx` the bounds of
/// the axis in raw sub-pixel units, `o` the pan offset in whole pixels and
/// `s` the raw scale factor (`SUBPIXEL` is a scale of one). The value
/// `transform_axis(..) / 2^33`, in pixels, equals
/// `(p - c) * s/65536 + c + o + mn/65536` with `c = (mx - mn) / (2*65536)`.
pub open spec fn transform_axis(p: int, mn: int, mx: int, o: int, s: int) -> int {
    (2 * p * (SUBPIXEL as int) - (mx - mn)) * s + ((mx - mn) + 2 * o * (SUBPIXEL as int) + 2 * mn) * (SUBPIXEL as int)
}

/// Executable form of `transform_axis`, exact in `i128`.
pub fn transform_axis_exec(p: i32, mn: i64, mx: i64, o: i32, s: i64) -> (r: i128)
    requires
        -COORD_LIMIT <= mn <= mx <= COORD_LIMIT,
        -SCALE_LIMIT <= s <= SCALE_LIMIT,
    ensures
        r == transform_axis(p as int, mn as int, mx as int, o as int, s as int),
        -SCREEN_LIMIT <= r <= SCREEN_LIMIT,
{
    let p16: i128 = (p as i128) * (SUBPIXEL as i128);
    let w: i128 = (mx as i128) - (mn as i128);
    let a: i128 = 2 * p16 - w;
    let b: i128 = w + 2 * (o as i128) * (SUBPIXEL as i128) + 2 * (mn as i128);
    proof {
        lemma_mul_bound(a as int, s as int, 0x2_0000_0000_0000, 0x4000_0000_0000);
    }
    a * (s as i128) + b * (SUBPIXEL as i128)
}

/// With offset zero and scale one the transform is a pure translation by
/// `bounds.min`: `transform_axis(..) / 2^33 == p + mn / 65536`.
pub proof fn lemma_transform_translation(p: int, mn: int, mx: int)
    ensures
        transform_axis(p, mn, mx, 0, SUBPIXEL as int) == (p * (SUBPIXEL as int) + mn) * 2 * (SUBPIXEL as int),
{
    assert((2 * p * (SUBPIXEL as int) - (mx - mn)) * (SUBPIXEL as int) + ((mx - mn) + 0 + 2 * mn) * (SUBPIXEL as int)
        == (p * (SUBPIXEL as int) + mn) * 2 * (SUBPIXEL as int)) by (nonlinear_arith);
}

/// Identity: for bounds anchored at the origin, offset zero and scale one
/// map every logical point to itself (`2^33` is the raw value of one).
pub proof fn lemma_transform_identity(p: int, mx: int)
    ensures
        transform_axis(p, 0, mx, 0, SUBPIXEL as int) == p * (2 * (SUBPIXEL as int) * (SUBPIXEL as int)),
{
    lemma_transform_translation(p, 0, mx);
    assert((p * (SUBPIXEL as int) + 0) * 2 * (SUBPIXEL as int) == p * (2 * (SUBPIXEL as int) * (SUBPIXEL as int))) by (nonlinear_arith);
}

/// Pan and zoom state cancel in differences: the screen-space displacement
/// between two transformed points is exactly the logical displacement
/// scaled by `s` (in raw terms, by `2 * s * SUBPIXEL` at denominator
/// `2^33`, i.e. by `s / 65536` in pixels).
pub proof fn lemma_transform_scales_difference(p: int, q: int, mn: int, mx: int, o: int, s: int)
    ensures
        transform_axis(p, mn, mx, o, s) - transform_axis(q, mn, mx, o, s)
            == 2 * s * (p - q) * (SUBPIXEL as int),
{
    assert((2 * p * (SUBPIXEL as int) - (mx - mn)) * s - (2 * q * (SUBPIXEL as int) - (mx - mn)) * s
        == 2 * s * (p - q) * (SUBPIXEL as int)) by (nonlinear_arith);
}

/// Distances scale uniformly: the squared screen-space distance between
/// two transformed points equals the squared logical distance times the
/// square of the scale factor (all at denominator `2^33`, whose square
/// `(2 * SUBPIXEL * SUBPIXEL)^2` appears as `4 * SUBPIXEL^2 * s^2` once
/// the raw scale `s` is read as `s / SUBPIXEL`).
pub proof fn lemma_transform_scales_distance(
    px: int, py: int, qx: int, qy: int,
    mn_x: int, mx_x: int, mn_y: int, mx_y: int,
    ox: int, oy: int, s: int,
)
    ensures
        ({
            let dx = transform_axis(px, mn_x, mx_x, ox, s) - transform_axis(qx, mn_x, mx_x, ox, s);
            let dy = transform_axis(py, mn_y, mx_y, oy, s) - transform_axis(qy, mn_y, mx_y, oy, s);
            dx * dx + dy * dy == 4 * s * s * (SUBPIXEL as int) * (SUBPIXEL as int)
                * ((px - qx) * (px - qx) + (py - qy) * (py - qy))
        }),
{
    lemma_transform_scales_difference(px, qx, mn_x, mx_x, ox, s);
    lemma_transform_scales_difference(py, qy, mn_y, mx_y, oy, s);
    let dx = transform_axis(px, mn_x, mx_x, ox, s) - transform_axis(qx, mn_x, mx_x, ox, s);
    let dy = transform_axis(py, mn_y, mx_y, oy, s) - transform_axis(qy, mn_y, mx_y, oy, s);
    assert(dx * dx + dy * dy == 4 * s * s * (SUBPIXEL as int) * (SUBPIXEL as int)
        * ((px - qx) * (px - qx) + (py - qy) * (py - qy))) by (nonlinear_arith)
        requires
            dx == 2 * s * (px - qx) * (SUBPIXEL as int),
            dy == 2 * s * (py - qy) * (SUBPIXEL as int),
    ;
}

/// Scales a half-open range about its midpoint by a raw factor `m`: the
/// zoom helper for a one-dimensional window. Inputs are raw sub-pixel
/// values; the results are exact numerators at denominator `2^33`
/// (`midpoint -/+ (half width) * m/65536`).
pub fn mult_range(start: i64, end: i64, mult: i64) -> (r: (i128, i128))
    requires
        -COORD_LIMIT <= start <= COORD_LIMIT,
        -COORD_LIMIT <= end <= COORD_LIMIT,
        -SCALE_LIMIT <= mult <= SCALE_LIMIT,
    ensures
        r.0 == (start + end) * (SUBPIXEL as int) - (end - start) * mult,
        r.1 == (start + end) * (SUBPIXEL as int) + (end - start) * mult,
{
    let mid16: i128 = ((start as i128) + (end as i128)) * (SUBPIXEL as i128);
    let delta: i128 = (end as i128) - (start as i128);
    proof {
        lemma_mul_bound(delta as int, mult as int, 0x8000_0000_0000, 0x4000_0000_0000);
    }
    let adjusted: i128 = delta * (mult as i128);
    (mid16 - adjusted, mid16 + adjusted)
}

} // verus!

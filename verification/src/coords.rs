//! Fixed-point coordinate model.
//!
//! Screen and logical geometry is measured in pixels, carried as `i64` raw
//! values in units of `1/SUBPIXEL` pixel (`SUBPIXEL == 65536`). A raw value
//! `r` denotes the coordinate `r / 65536` pixels. The plotting engine's own
//! logical coordinates arrive as whole-pixel `i32` pairs and are widened to
//! raw values on entry.

use vstd::prelude::*;

verus! {

/// Number of raw sub-pixel units in one pixel.
pub const SUBPIXEL: i64 = 65536;

/// Largest magnitude (in raw sub-pixel units) accepted for a coordinate or
/// length; keeps every intermediate product of the transform well inside
/// `i128`.
pub const COORD_LIMIT: i64 = 0x4000_0000_0000;

/// Largest magnitude accepted for a raw scale factor (a scale of
/// `COORD_LIMIT / SUBPIXEL` = 2^30 is far beyond any meaningful zoom).
pub const SCALE_LIMIT: i64 = 0x4000_0000_0000;

/// A rectangle in screen space, in raw sub-pixel units: the region an
/// adapter instance renders into. Fixed for the adapter's lifetime.
#[derive(Clone, Copy, Debug, PartialEq, Eq, Structural)]
pub struct Bounds {
    pub min_x: i64,
    pub min_y: i64,
    pub max_x: i64,
    pub max_y: i64,
}

impl Bounds {
    /// Well-formed: corners ordered and inside the coordinate limit.
    pub open spec fn wf(self) -> bool {
        &&& -COORD_LIMIT <= self.min_x <= self.max_x <= COORD_LIMIT
        &&& -COORD_LIMIT <= self.min_y <= self.max_y <= COORD_LIMIT
    }

    /// Width in raw sub-pixel units.
    pub open spec fn width(self) -> int {
        self.max_x - self.min_x
    }

    /// Height in raw sub-pixel units.
    pub open spec fn height(self) -> int {
        self.max_y - self.min_y
    }

    pub fn new(min_x: i64, min_y: i64, max_x: i64, max_y: i64) -> (r: Bounds)
        requires
            -COORD_LIMIT <= min_x <= max_x <= COORD_LIMIT,
            -COORD_LIMIT <= min_y <= max_y <= COORD_LIMIT,
        ensures
            r == (Bounds { min_x, min_y, max_x, max_y }),
            r.wf(),
    {
        Bounds { min_x, min_y, max_x, max_y }
    }
}

/// Bounds both factors of a product from bounds on the factors; used to
/// show that the wide intermediate products of the fixed-point arithmetic
/// stay inside `i128`.
pub proof fn lemma_mul_bound(a: int, b: int, m: int, n: int) by (nonlinear_arith)
    requires
        -m <= a <= m,
        -n <= b <= n,
        0 <= m,
        0 <= n,
    ensures
        -(m * n) <= a * b <= m * n,
{
}

/// A point in screen space after the view transform, in raw units of
/// `1/2^33` pixel: the transform scales sub-pixel inputs by a sub-pixel
/// scale factor and halves once for the center, so its exact result lives
/// at denominator `65536 * 65536 * 2 == 2^33`.
#[derive(Clone, Copy, Debug, PartialEq, Eq, Structural)]
pub struct ScreenPoint {
    pub x: i128,
    pub y: i128,
}

} // verus!

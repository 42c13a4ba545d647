//! Background-image sizing.
//!
//! Given the chart's bounds and a sizing policy, computes the destination
//! rectangle for a background image. Every branch degrades gracefully: a
//! degenerate ratio or an unresolvable image yields the bounds rectangle
//! itself, never an error.
//!
//! All result rectangles are centered on the bounds' center, so a result
//! is carried as that shared center (held exactly at denominator two)
//! plus a width and height, each an exact fraction of pixels. The `Ratio`
//! branch is where fractions are genuinely needed: fitting a `w:h` ratio
//! into the bounds scales one side to the matching bound exactly and
//! gives the other side the ratio's own denominator.

use vstd::prelude::*;

use crate::coords::lemma_mul_bound;
use crate::coords::Bounds;
use crate::coords::COORD_LIMIT;
use crate::coords::SUBPIXEL;

verus! {

/// Largest native image dimension (in whole pixels) the sizer accepts;
/// keeps `Fit`'s ratio arguments inside the coordinate limit.
pub const NATIVE_LIMIT: u32 = 0x4000_0000;

/// What size to draw a background image at.
#[derive(Clone, Copy, Debug, PartialEq, Eq, Structural)]
pub enum BgImageSize {
    /// Stretch the image to the corners of the chart.
    Fill,
    /// Scale the image to the largest size with the fixed ratio `W:H`
    /// (raw sub-pixel values) that still fits the chart.
    Ratio(i64, i64),
    /// Scale the image to fit the chart without deviating from its own
    /// native aspect ratio.
    Fit,
    /// Keep the image's native pixel size.
    Original,
    /// Give the image an exact size `W*H` (raw sub-pixel values).
    Exact(i64, i64),
}

impl BgImageSize {
    /// Policy arguments stay inside the coordinate limit.
    pub open spec fn wf(self) -> bool {
        match self {
            BgImageSize::Ratio(x, y) => -COORD_LIMIT <= x <= COORD_LIMIT && -COORD_LIMIT <= y
                <= COORD_LIMIT,
            BgImageSize::Exact(w, h) => -COORD_LIMIT <= w <= COORD_LIMIT && -COORD_LIMIT <= h
                <= COORD_LIMIT,
            _ => true,
        }
    }
}

/// An exact length in pixels, as `num / den` with `den > 0`.
#[derive(Clone, Copy, Debug, PartialEq, Eq, Structural)]
pub struct BgFrac {
    pub num: i128,
    pub den: i128,
}

/// The destination rectangle for a background image: centered at
/// `(center_x2 / 2, center_y2 / 2)` raw sub-pixel units — always the
/// center of the chart's bounds — with exact width and height in pixels.
#[derive(Clone, Copy, Debug, PartialEq, Eq, Structural)]
pub struct BgRect {
    pub center_x2: i64,
    pub center_y2: i64,
    pub width: BgFrac,
    pub height: BgFrac,
}

/// Flips the sign of a fraction's parts so the denominator is positive.
pub open spec fn frac_norm(n: int, d: int) -> (int, int) {
    if d < 0 {
        (-n, -d)
    } else {
        (n, d)
    }
}

/// Whether fitting the ratio `x:y` into a `w` by `h` box is limited by
/// the width, i.e. `w / x <= h / y` as exact rationals (denominators
/// sign-normalized).
pub open spec fn ratio_prefers_width(w: int, h: int, x: int, y: int) -> bool {
    frac_norm(w, x).0 * frac_norm(h, y).1 <= frac_norm(h, y).0 * frac_norm(w, x).1
}

/// Width, in pixels, of the largest `x:y` rectangle inside a `w` by `h`
/// box (`w`, `h`, `x`, `y` raw sub-pixel values): the box width itself
/// when the width limits, else `x * (h/y)`.
pub open spec fn ratio_width(w: int, h: int, x: int, y: int) -> (int, int) {
    if ratio_prefers_width(w, h, x, y) {
        (w, SUBPIXEL as int)
    } else {
        frac_norm(x * h, (SUBPIXEL as int) * y)
    }
}

/// Height counterpart of `ratio_width`.
pub open spec fn ratio_height(w: int, h: int, x: int, y: int) -> (int, int) {
    if ratio_prefers_width(w, h, x, y) {
        frac_norm(y * w, (SUBPIXEL as int) * x)
    } else {
        (h, SUBPIXEL as int)
    }
}

/// The rect a policy produces when it falls back to the bounds
/// themselves: width and height are exactly the bounds' own.
pub open spec fn bg_same_size(r: BgRect, b: Bounds) -> bool {
    &&& r.width.num == b.width()
    &&& r.width.den == SUBPIXEL
    &&& r.height.num == b.height()
    &&& r.height.den == SUBPIXEL
}

/// What `Ratio(x, y)` sizing yields: the bounds themselves when the
/// bounds or the ratio are degenerate, else the exact fitted sizes.
pub open spec fn bg_ratio_size(r: BgRect, b: Bounds, x: int, y: int) -> bool {
    if b.width() == 0 || b.height() == 0 || x == 0 || y == 0 {
        bg_same_size(r, b)
    } else {
        &&& (r.width.num as int, r.width.den as int) == ratio_width(b.width(), b.height(), x, y)
        &&& (r.height.num as int, r.height.den as int) == ratio_height(
            b.width(),
            b.height(),
            x,
            y,
        )
    }
}

/// The bounds rectangle itself, in center-plus-size form.
fn bounds_rect(bounds: &Bounds) -> (r: BgRect)
    requires
        bounds.wf(),
    ensures
        r.center_x2 == bounds.min_x + bounds.max_x,
        r.center_y2 == bounds.min_y + bounds.max_y,
        bg_same_size(r, *bounds),
{
    BgRect {
        center_x2: bounds.min_x + bounds.max_x,
        center_y2: bounds.min_y + bounds.max_y,
        width: BgFrac { num: (bounds.max_x - bounds.min_x) as i128, den: SUBPIXEL as i128 },
        height: BgFrac { num: (bounds.max_y - bounds.min_y) as i128, den: SUBPIXEL as i128 },
    }
}

/// Largest rectangle of ratio `x:y` centered in `bounds`; falls back to
/// the bounds for a degenerate ratio or degenerate bounds.
fn ratio_rect(bounds: &Bounds, x: i64, y: i64) -> (r: BgRect)
    requires
        bounds.wf(),
        -0x8000_0000_0000 <= x <= 0x8000_0000_0000,
        -0x8000_0000_0000 <= y <= 0x8000_0000_0000,
    ensures
        r.center_x2 == bounds.min_x + bounds.max_x,
        r.center_y2 == bounds.min_y + bounds.max_y,
        r.width.den > 0,
        r.height.den > 0,
        bg_ratio_size(r, *bounds, x as int, y as int),
{
    let w: i64 = bounds.max_x - bounds.min_x;
    let h: i64 = bounds.max_y - bounds.min_y;
    if w == 0 || h == 0 || x == 0 || y == 0 {
        return bounds_rect(bounds);
    }
    let (wn, wd): (i64, i64) = if x < 0 {
        (-w, -x)
    } else {
        (w, x)
    };
    let (hn, hd): (i64, i64) = if y < 0 {
        (-h, -y)
    } else {
        (h, y)
    };
    proof {
        lemma_mul_bound(wn as int, hd as int, 0x8000_0000_0000, 0x8000_0000_0000);
        lemma_mul_bound(hn as int, wd as int, 0x8000_0000_0000, 0x8000_0000_0000);
    }
    let prefers_width: bool = (wn as i128) * (hd as i128) <= (hn as i128) * (wd as i128);
    let center_x2: i64 = bounds.min_x + bounds.max_x;
    let center_y2: i64 = bounds.min_y + bounds.max_y;
    if prefers_width {
        proof {
            lemma_mul_bound(y as int, w as int, 0x8000_0000_0000, 0x8000_0000_0000);
        }
        let (sn, sd): (i128, i128) = norm128(
            (y as i128) * (w as i128),
            (SUBPIXEL as i128) * (x as i128),
        );
        BgRect {
            center_x2,
            center_y2,
            width: BgFrac { num: w as i128, den: SUBPIXEL as i128 },
            height: BgFrac { num: sn, den: sd },
        }
    } else {
        proof {
            lemma_mul_bound(x as int, h as int, 0x8000_0000_0000, 0x8000_0000_0000);
        }
        let (sn, sd): (i128, i128) = norm128(
            (x as i128) * (h as i128),
            (SUBPIXEL as i128) * (y as i128),
        );
        BgRect {
            center_x2,
            center_y2,
            width: BgFrac { num: sn, den: sd },
            height: BgFrac { num: h as i128, den: SUBPIXEL as i128 },
        }
    }
}

/// Sign-normalizes a fraction so the denominator is positive.
fn norm128(n: i128, d: i128) -> (r: (i128, i128))
    requires
        d != 0,
        -0x1_0000_0000_0000_0000_0000_0000 <= n <= 0x1_0000_0000_0000_0000_0000_0000,
        -0x1_0000_0000_0000_0000_0000_0000 <= d <= 0x1_0000_0000_0000_0000_0000_0000,
    ensures
        (r.0 as int, r.1 as int) == frac_norm(n as int, d as int),
        r.1 > 0,
{
    if d < 0 {
        (-n, -d)
    } else {
        (n, d)
    }
}

impl BgImageSize {
    /// The destination rectangle for a background image drawn into
    /// `bounds` under this policy. `native` is the image's native pixel
    /// size as the host's texture registry reports it, or `None` when the
    /// image cannot be resolved. Never fails: every branch yields a
    /// rectangle, degrading to the bounds themselves where the policy
    /// cannot apply.
    pub fn size_from_bounds(self, bounds: &Bounds, native: Option<(u32, u32)>) -> (r: BgRect)
        requires
            bounds.wf(),
            self.wf(),
            native matches Some(wh) ==> wh.0 <= NATIVE_LIMIT && wh.1 <= NATIVE_LIMIT,
        ensures
            r.center_x2 == bounds.min_x + bounds.max_x,
            r.center_y2 == bounds.min_y + bounds.max_y,
            r.width.den > 0,
            r.height.den > 0,
            self is Fill ==> bg_same_size(r, *bounds),
            self matches BgImageSize::Ratio(x, y) ==> bg_ratio_size(r, *bounds, x as int, y as int),
            self is Fit ==> (match native {
                Some((w, h)) => bg_ratio_size(
                    r,
                    *bounds,
                    (w as int) * (SUBPIXEL as int),
                    (h as int) * (SUBPIXEL as int),
                ),
                None => bg_ratio_size(r, *bounds, bounds.width(), bounds.height()),
            }),
            self is Original ==> (match native {
                Some((w, h)) => r.width.num == w && r.width.den == 1 && r.height.num == h
                    && r.height.den == 1,
                None => bg_same_size(r, *bounds),
            }),
            self matches BgImageSize::Exact(w, h) ==> r.width.num == w && r.width.den == SUBPIXEL
                && r.height.num == h && r.height.den == SUBPIXEL,
    {
        match self {
            BgImageSize::Fill => bounds_rect(bounds),
            BgImageSize::Ratio(x, y) => ratio_rect(bounds, x, y),
            BgImageSize::Fit => {
                match native {
                    Some((w, h)) => ratio_rect(
                        bounds,
                        (w as i64) * SUBPIXEL,
                        (h as i64) * SUBPIXEL,
                    ),
                    None => ratio_rect(
                        bounds,
                        bounds.max_x - bounds.min_x,
                        bounds.max_y - bounds.min_y,
                    ),
                }
            },
            BgImageSize::Original => {
                match native {
                    Some((w, h)) => BgRect {
                        center_x2: bounds.min_x + bounds.max_x,
                        center_y2: bounds.min_y + bounds.max_y,
                        width: BgFrac { num: w as i128, den: 1 },
                        height: BgFrac { num: h as i128, den: 1 },
                    },
                    None => bounds_rect(bounds),
                }
            },
            BgImageSize::Exact(w, h) => BgRect {
                center_x2: bounds.min_x + bounds.max_x,
                center_y2: bounds.min_y + bounds.max_y,
                width: BgFrac { num: w as i128, den: SUBPIXEL as i128 },
                height: BgFrac { num: h as i128, den: SUBPIXEL as i128 },
            },
        }
    }
}

/// `Ratio(x, y)` sizing with a positive ratio and non-degenerate bounds
/// keeps the ratio exactly and stays inside the bounds, filling it in at
/// least one dimension: with `(wn, wd)` the width and `(hn, hd)` the
/// height in pixels, `width : height == x : y` holds as
/// `wn * hd * y == hn * wd * x`, both sides fit (`wn * SUBPIXEL <= w * wd`
/// and the height counterpart), and one of the two holds with equality.
pub proof fn lemma_ratio_preserved(w: int, h: int, x: int, y: int)
    requires
        0 < w,
        0 < h,
        0 < x,
        0 < y,
    ensures
        ({
            let (wn, wd) = ratio_width(w, h, x, y);
            let (hn, hd) = ratio_height(w, h, x, y);
            &&& wd > 0
            &&& hd > 0
            &&& wn > 0
            &&& hn > 0
            &&& wn * hd * y == hn * wd * x
            &&& wn * (SUBPIXEL as int) <= w * wd
            &&& hn * (SUBPIXEL as int) <= h * hd
            &&& wn * (SUBPIXEL as int) == w * wd || hn * (SUBPIXEL as int) == h * hd
        }),
{
    let (wn, wd) = ratio_width(w, h, x, y);
    let (hn, hd) = ratio_height(w, h, x, y);
    if ratio_prefers_width(w, h, x, y) {
        assert(w * y <= h * x);
        assert(wn == w && wd == SUBPIXEL as int);
        assert(hn == y * w && hd == (SUBPIXEL as int) * x);
        assert(y * w > 0) by (nonlinear_arith)
            requires
                y > 0,
                w > 0,
        ;
        assert(w * ((SUBPIXEL as int) * x) * y == (y * w) * (SUBPIXEL as int) * x)
            by (nonlinear_arith);
        assert((y * w) * (SUBPIXEL as int) <= h * ((SUBPIXEL as int) * x)) by (nonlinear_arith)
            requires
                w * y <= h * x,
                SUBPIXEL as int > 0,
        ;
    } else {
        assert(h * x <= w * y);
        assert(hn == h && hd == SUBPIXEL as int);
        assert(wn == x * h && wd == (SUBPIXEL as int) * y);
        assert(x * h > 0) by (nonlinear_arith)
            requires
                x > 0,
                h > 0,
        ;
        assert((x * h) * (SUBPIXEL as int) * y == h * ((SUBPIXEL as int) * y) * x)
            by (nonlinear_arith);
        assert((x * h) * (SUBPIXEL as int) <= w * ((SUBPIXEL as int) * y)) by (nonlinear_arith)
            requires
                h * x <= w * y,
                SUBPIXEL as int > 0,
        ;
    }
}

/// The rectangle `Ratio(x, y)` sizing produces, for a positive ratio and
/// non-degenerate bounds, keeps the ratio `x : y` exactly in its
/// width : height, fits inside the bounds in both dimensions, and fills
/// them in at least one.
pub proof fn lemma_ratio_rect_fits(r: BgRect, b: Bounds, x: int, y: int)
    requires
        bg_ratio_size(r, b, x, y),
        b.width() > 0,
        b.height() > 0,
        x > 0,
        y > 0,
    ensures
        r.width.num * r.height.den * y == r.height.num * r.width.den * x,
        r.width.num * (SUBPIXEL as int) <= b.width() * r.width.den,
        r.height.num * (SUBPIXEL as int) <= b.height() * r.height.den,
        r.width.num * (SUBPIXEL as int) == b.width() * r.width.den || r.height.num * (
        SUBPIXEL as int) == b.height() * r.height.den,
        r.width.num > 0,
        r.height.num > 0,
        r.width.den > 0,
        r.height.den > 0,
{
    lemma_ratio_preserved(b.width(), b.height(), x, y);
}

/// `Original` sizing with an unresolvable image returns exactly the
/// bounds rectangle: this is the `None` arm of `size_from_bounds`'s
/// `Original` contract, restated on its own.
pub proof fn lemma_original_unresolved(r: BgRect, b: Bounds)
    requires
        r.center_x2 == b.min_x + b.max_x,
        r.center_y2 == b.min_y + b.max_y,
        bg_same_size(r, b),
    ensures
        r.width.num * (SUBPIXEL as int) == b.width() * r.width.den,
        r.height.num * (SUBPIXEL as int) == b.height() * r.height.den,
{
}

} // verus!

//! Color conversion between the plotting engine's color model and the
//! host's 8-bit-per-channel model.
//!
//! The engine supplies red/green/blue bytes plus a normalized alpha in
//! `[0, 1]`; here the alpha is carried as a raw value in `[0, SUBPIXEL]`
//! (units of 1/65536). The host wants an alpha byte; the conversion
//! truncates `alpha * 255` rather than rounding — deliberately, to match
//! the adapter's established behavior (e.g. an alpha just below 1 maps to
//! 254, not 255).

use vstd::prelude::*;

use crate::coords::SUBPIXEL;

verus! {

/// A color as the plotting engine hands it over: channel bytes plus a
/// normalized alpha in raw units of 1/65536 (so `SUBPIXEL` is fully
/// opaque).
#[derive(Clone, Copy, Debug, PartialEq, Eq, Structural)]
pub struct ChartColor {
    pub r: u8,
    pub g: u8,
    pub b: u8,
    pub alpha: i64,
}

impl ChartColor {
    /// Alpha is pre-normalized to `[0, 1]`.
    pub open spec fn wf(self) -> bool {
        0 <= self.alpha <= SUBPIXEL
    }
}

/// A color in the host's representation: four bytes, unmultiplied alpha.
#[derive(Clone, Copy, Debug, PartialEq, Eq, Structural)]
pub struct HostColor {
    pub r: u8,
    pub g: u8,
    pub b: u8,
    pub a: u8,
}

/// What conversion to the host model means: channels carried over
/// unchanged, alpha byte the truncation of `alpha * 255`.
pub open spec fn is_host_of(hc: HostColor, c: ChartColor) -> bool {
    &&& hc.r == c.r
    &&& hc.g == c.g
    &&& hc.b == c.b
    &&& hc.a == c.alpha * 255 / (SUBPIXEL as int)
}

/// Converts an engine color to a host color. Total: every well-formed
/// input has exactly one result. The alpha byte is the truncation of
/// `alpha * 255` (floor, since alpha is non-negative).
pub fn to_host_color(c: ChartColor) -> (r: HostColor)
    requires
        c.wf(),
    ensures
        is_host_of(r, c),
{
    let a: i64 = c.alpha * 255 / SUBPIXEL;
    HostColor { r: c.r, g: c.g, b: c.b, a: a as u8 }
}

} // verus!

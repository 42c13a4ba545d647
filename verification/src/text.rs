//! Font resolution and text placement.
//!
//! The plotting engine describes text by a font family, size, color, a
//! nine-way anchor and a quarter-turn rotation count. The host measures
//! the laid-out text itself; this module resolves the family, rotates the
//! anchor, and anchors the measured bounding rectangle against the
//! transformed target position. Empty measured text is skipped entirely:
//! no primitive is emitted.

use vstd::prelude::*;

use crate::anchor::anchor_of_spec;
use crate::anchor::rotate_anchor_n_spec;
use crate::anchor::Anchor;
use crate::coords::ScreenPoint;

verus! {

/// A font family as the plotting engine names it.
#[derive(Clone, Debug, PartialEq, Eq)]
pub enum FontFamily {
    Serif,
    SansSerif,
    Monospace,
    Name(String),
}

/// A font family as the host knows it.
#[derive(Clone, Debug, PartialEq, Eq)]
pub enum HostFontFamily {
    Proportional,
    Monospace,
    Name(String),
}

/// The host family a plotting-engine family resolves to: serif and
/// sans-serif text both use the host's proportional face, monospace maps
/// to monospace, and a named family keeps its exact name.
pub open spec fn resolve_family_spec(f: FontFamily) -> HostFontFamily {
    match f {
        FontFamily::Serif => HostFontFamily::Proportional,
        FontFamily::SansSerif => HostFontFamily::Proportional,
        FontFamily::Monospace => HostFontFamily::Monospace,
        FontFamily::Name(s) => HostFontFamily::Name(s),
    }
}

/// Executable form of `resolve_family_spec`.
pub fn resolve_family(f: FontFamily) -> (r: HostFontFamily)
    ensures
        r == resolve_family_spec(f),
{
    match f {
        FontFamily::Serif => HostFontFamily::Proportional,
        FontFamily::SansSerif => HostFontFamily::Proportional,
        FontFamily::Monospace => HostFontFamily::Monospace,
        FontFamily::Name(s) => HostFontFamily::Name(s),
    }
}

/// How many half-widths the anchored rectangle's left edge sits left of
/// the target position: none for a left anchor, one for a centered one,
/// two for a right anchor.
pub open spec fn anchor_kx(a: Anchor) -> int {
    match a {
        Anchor::LeftTop | Anchor::LeftCenter | Anchor::LeftBottom => 0,
        Anchor::CenterTop | Anchor::CenterCenter | Anchor::CenterBottom => 1,
        Anchor::RightTop | Anchor::RightCenter | Anchor::RightBottom => 2,
    }
}

/// Vertical counterpart of `anchor_kx`, in half-heights above the target.
pub open spec fn anchor_ky(a: Anchor) -> int {
    match a {
        Anchor::LeftTop | Anchor::CenterTop | Anchor::RightTop => 0,
        Anchor::LeftCenter | Anchor::CenterCenter | Anchor::RightCenter => 1,
        Anchor::LeftBottom | Anchor::CenterBottom | Anchor::RightBottom => 2,
    }
}

/// A text primitive ready for the host: the top-left corner of the
/// anchored bounding rectangle (raw units of `1/2^33` pixel, like every
/// transformed point) and the rotation in quarter turns.
#[derive(Clone, Copy, Debug, PartialEq, Eq, Structural)]
pub struct TextPlacement {
    pub min: ScreenPoint,
    pub quarter_turns: u32,
}

/// Where the anchored bounding rectangle of a measured text block starts:
/// the transformed target position, pulled back by the rotated anchor's
/// share of the measured extent. `pos` is the transformed position and
/// `w16`/`h16` the measured extent in raw sub-pixel units; a half-extent
/// at denominator `2^33` is the raw extent times `SUBPIXEL` (`2^16`).
pub open spec fn anchored_min_x(pos: int, a: Anchor, w16: int) -> int {
    pos - anchor_kx(a) * (w16 * 65536)
}

/// Vertical counterpart of `anchored_min_x`.
pub open spec fn anchored_min_y(pos: int, a: Anchor, h16: int) -> int {
    pos - anchor_ky(a) * (h16 * 65536)
}

/// The anchor a text style resolves to after its rotation: the base
/// nine-way anchor advanced one perimeter step per quarter turn.
pub open spec fn rotated_anchor_spec(h: crate::anchor::HPos, v: crate::anchor::VPos, turns: u32) -> Anchor {
    rotate_anchor_n_spec(anchor_of_spec(h, v), turns as nat)
}

} // verus!

//! Nine-way text anchors and their quarter-turn rotation.
//!
//! A text block is positioned by one of nine anchor points on its bounding
//! rectangle (three horizontal states crossed with three vertical ones).
//! Rotating the text by a quarter turn also rotates which anchor point the
//! target position refers to: each turn advances the anchor one step
//! clockwise around the rectangle's perimeter, while the fully centered
//! anchor is a fixed point. The remapping is applied once per quarter
//! turn, in sequence, exactly as many times as the rotation count says.

use vstd::prelude::*;

verus! {

/// Horizontal part of a text anchor.
#[derive(Clone, Copy, Debug, PartialEq, Eq, Structural)]
pub enum HPos {
    Left,
    Right,
    Center,
}

/// Vertical part of a text anchor.
#[derive(Clone, Copy, Debug, PartialEq, Eq, Structural)]
pub enum VPos {
    Top,
    Center,
    Bottom,
}

/// One of the nine anchor points of a text block's bounding rectangle.
#[derive(Clone, Copy, Debug, PartialEq, Eq, Structural)]
pub enum Anchor {
    LeftTop,
    CenterTop,
    RightTop,
    LeftCenter,
    CenterCenter,
    RightCenter,
    LeftBottom,
    CenterBottom,
    RightBottom,
}

/// The anchor named by a horizontal and a vertical alignment state.
pub open spec fn anchor_of_spec(h: HPos, v: VPos) -> Anchor {
    match (h, v) {
        (HPos::Left, VPos::Top) => Anchor::LeftTop,
        (HPos::Left, VPos::Center) => Anchor::LeftCenter,
        (HPos::Left, VPos::Bottom) => Anchor::LeftBottom,
        (HPos::Center, VPos::Top) => Anchor::CenterTop,
        (HPos::Center, VPos::Center) => Anchor::CenterCenter,
        (HPos::Center, VPos::Bottom) => Anchor::CenterBottom,
        (HPos::Right, VPos::Top) => Anchor::RightTop,
        (HPos::Right, VPos::Center) => Anchor::RightCenter,
        (HPos::Right, VPos::Bottom) => Anchor::RightBottom,
    }
}

/// Executable form of `anchor_of_spec`.
pub fn anchor_of(h: HPos, v: VPos) -> (r: Anchor)
    ensures
        r == anchor_of_spec(h, v),
{
    match (h, v) {
        (HPos::Left, VPos::Top) => Anchor::LeftTop,
        (HPos::Left, VPos::Center) => Anchor::LeftCenter,
        (HPos::Left, VPos::Bottom) => Anchor::LeftBottom,
        (HPos::Center, VPos::Top) => Anchor::CenterTop,
        (HPos::Center, VPos::Center) => Anchor::CenterCenter,
        (HPos::Center, VPos::Bottom) => Anchor::CenterBottom,
        (HPos::Right, VPos::Top) => Anchor::RightTop,
        (HPos::Right, VPos::Center) => Anchor::RightCenter,
        (HPos::Right, VPos::Bottom) => Anchor::RightBottom,
    }
}

/// One clockwise quarter-turn step of an anchor: corners cycle
/// left-top → right-top → right-bottom → left-bottom → left-top, edge
/// midpoints cycle left-center → center-top → right-center →
/// center-bottom → left-center, and the center maps to itself.
pub open spec fn rotate_anchor_spec(a: Anchor) -> Anchor {
    match a {
        Anchor::LeftTop => Anchor::RightTop,
        Anchor::RightTop => Anchor::RightBottom,
        Anchor::RightBottom => Anchor::LeftBottom,
        Anchor::LeftBottom => Anchor::LeftTop,
        Anchor::LeftCenter => Anchor::CenterTop,
        Anchor::CenterTop => Anchor::RightCenter,
        Anchor::RightCenter => Anchor::CenterBottom,
        Anchor::CenterBottom => Anchor::LeftCenter,
        Anchor::CenterCenter => Anchor::CenterCenter,
    }
}

/// `rotate_anchor_spec` applied `n` times in sequence.
pub open spec fn rotate_anchor_n_spec(a: Anchor, n: nat) -> Anchor
    decreases n,
{
    if n == 0 {
        a
    } else {
        rotate_anchor_spec(rotate_anchor_n_spec(a, (n - 1) as nat))
    }
}

/// Executable single quarter-turn step.
pub fn rotate_anchor(a: Anchor) -> (r: Anchor)
    ensures
        r == rotate_anchor_spec(a),
{
    match a {
        Anchor::LeftTop => Anchor::RightTop,
        Anchor::RightTop => Anchor::RightBottom,
        Anchor::RightBottom => Anchor::LeftBottom,
        Anchor::LeftBottom => Anchor::LeftTop,
        Anchor::LeftCenter => Anchor::CenterTop,
        Anchor::CenterTop => Anchor::RightCenter,
        Anchor::RightCenter => Anchor::CenterBottom,
        Anchor::CenterBottom => Anchor::LeftCenter,
        Anchor::CenterCenter => Anchor::CenterCenter,
    }
}

/// The quarter-turn step applied `n` times, one application per turn.
pub fn rotate_anchor_n(a: Anchor, n: u32) -> (r: Anchor)
    ensures
        r == rotate_anchor_n_spec(a, n as nat),
{
    let mut out = a;
    let mut i: u32 = 0;
    while i < n
        invariant
            i <= n,
            out == rotate_anchor_n_spec(a, i as nat),
        decreases n - i,
    {
        out = rotate_anchor(out);
        i = i + 1;
    }
    out
}

/// Four quarter turns return every anchor to itself: the rotation step
/// generates a cyclic group of order four on the eight non-center anchors
/// and fixes the center.
pub proof fn lemma_rotate_four(a: Anchor)
    ensures
        rotate_anchor_n_spec(a, 4) == a,
{
    reveal_with_fuel(rotate_anchor_n_spec, 5);
    assert(rotate_anchor_n_spec(a, 4)
        == rotate_anchor_spec(rotate_anchor_spec(rotate_anchor_spec(rotate_anchor_spec(a)))));
}

/// The fully centered anchor is a fixed point of the rotation for every
/// rotation count.
pub proof fn lemma_center_fixed(n: nat)
    ensures
        rotate_anchor_n_spec(Anchor::CenterCenter, n) == Anchor::CenterCenter,
    decreases n,
{
    if n > 0 {
        lemma_center_fixed((n - 1) as nat);
    }
}

/// Rotation counts only matter modulo four.
pub proof fn lemma_rotate_mod(a: Anchor, n: nat)
    ensures
        rotate_anchor_n_spec(a, n) == rotate_anchor_n_spec(a, n % 4),
    decreases n,
{
    if n >= 4 {
        lemma_rotate_shift(a, 4, (n - 4) as nat);
        lemma_rotate_four(a);
        lemma_rotate_mod(a, (n - 4) as nat);
    }
}

/// Composition: rotating `m + k` times is rotating `m` times, then `k`.
pub proof fn lemma_rotate_shift(a: Anchor, m: nat, k: nat)
    ensures
        rotate_anchor_n_spec(a, m + k) == rotate_anchor_n_spec(rotate_anchor_n_spec(a, m), k),
    decreases k,
{
    if k > 0 {
        lemma_rotate_shift(a, m, (k - 1) as nat);
    }
}

} // verus!

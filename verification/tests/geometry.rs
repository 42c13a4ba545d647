//! Tests for the view transform, color conversion and text placement.

use egui_plotter::anchor::{rotate_anchor, rotate_anchor_n, Anchor, HPos, VPos};
use egui_plotter::backend::EguiBackend;
use egui_plotter::color::{to_host_color, ChartColor};
use egui_plotter::coords::Bounds;
use egui_plotter::text::{resolve_family, FontFamily, HostFontFamily};
use egui_plotter::transform::mult_range;

const SUB: i64 = 65536;
const PX33: i128 = 0x2_0000_0000;

fn px(v: i64) -> i64 {
    v * SUB
}

#[test]
fn transform_identity_on_boundary() {
    // Offset (0,0), scale 1, bounds anchored at the origin: every point,
    // in particular the boundary corners, maps to itself.
    let bounds = Bounds::new(0, 0, px(100), px(100));
    let be = EguiBackend::new(bounds);
    for p in [(0, 0), (100, 0), (0, 100), (100, 100), (37, 100)] {
        let t = be.point_transform(p, &bounds);
        assert_eq!(t.x, p.0 as i128 * PX33);
        assert_eq!(t.y, p.1 as i128 * PX33);
    }
}

#[test]
fn transform_is_translation_for_offset_bounds() {
    // With a bounds rectangle not anchored at the origin, scale 1 and
    // offset 0 translate by the bounds' min corner.
    let bounds = Bounds::new(px(10), px(20), px(110), px(120));
    let be = EguiBackend::new(bounds);
    let t = be.point_transform((5, 7), &bounds);
    assert_eq!(t.x, 15 * PX33);
    assert_eq!(t.y, 27 * PX33);
}

#[test]
fn transform_center_scenario() {
    // offset (10,5), scale 2, bounds (0,0)-(100,100): the bounds center
    // (50,50) is unaffected by the scale and moves only by the offset,
    // landing at (60,55).
    let bounds = Bounds::new(0, 0, px(100), px(100));
    let be = EguiBackend::new(bounds).offset((10, 5)).scale(2 * SUB);
    let t = be.point_transform((50, 50), &bounds);
    assert_eq!(t.x, 60 * PX33);
    assert_eq!(t.y, 55 * PX33);
}

#[test]
fn transform_scales_distances() {
    // With scale s, screen-space displacements are exactly s times the
    // logical displacements, independent of offset.
    let bounds = Bounds::new(px(3), px(4), px(203), px(104));
    let be = EguiBackend::new(bounds).offset((13, -9)).scale(3 * SUB);
    let p = be.point_transform((17, 23), &bounds);
    let q = be.point_transform((2, -5), &bounds);
    assert_eq!(p.x - q.x, 3 * (17 - 2) * PX33);
    assert_eq!(p.y - q.y, 3 * (23 - -5) * PX33);
}

#[test]
fn transform_zero_scale_collapses_to_center() {
    // A scale of zero is accepted, not an error: all geometry collapses
    // to the transform's center point (plus the offset).
    let bounds = Bounds::new(0, 0, px(100), px(100));
    let be = EguiBackend::new(bounds).scale(0);
    let a = be.point_transform((10, 80), &bounds);
    let b = be.point_transform((90, 3), &bounds);
    assert_eq!(a, b);
    assert_eq!(a.x, 50 * PX33);
    assert_eq!(a.y, 50 * PX33);
}

#[test]
fn alpha_truncates_not_rounds() {
    // 0.999 * 255 = 254.745: truncation gives 254, not 255.
    let alpha999 = (0.999f64 * SUB as f64) as i64;
    let c = to_host_color(ChartColor { r: 10, g: 20, b: 30, alpha: alpha999 });
    assert_eq!((c.r, c.g, c.b, c.a), (10, 20, 30, 254));

    let opaque = to_host_color(ChartColor { r: 1, g: 2, b: 3, alpha: SUB });
    assert_eq!(opaque.a, 255);

    let clear = to_host_color(ChartColor { r: 1, g: 2, b: 3, alpha: 0 });
    assert_eq!(clear.a, 0);

    let half = to_host_color(ChartColor { r: 1, g: 2, b: 3, alpha: SUB / 2 });
    assert_eq!(half.a, 127);
}

#[test]
fn anchor_single_step_table() {
    // One quarter turn advances each anchor one step clockwise around
    // the perimeter; the center stays put.
    let steps = [
        (Anchor::LeftTop, Anchor::RightTop),
        (Anchor::RightTop, Anchor::RightBottom),
        (Anchor::RightBottom, Anchor::LeftBottom),
        (Anchor::LeftBottom, Anchor::LeftTop),
        (Anchor::LeftCenter, Anchor::CenterTop),
        (Anchor::CenterTop, Anchor::RightCenter),
        (Anchor::RightCenter, Anchor::CenterBottom),
        (Anchor::CenterBottom, Anchor::LeftCenter),
        (Anchor::CenterCenter, Anchor::CenterCenter),
    ];
    for (from, to) in steps {
        assert_eq!(rotate_anchor(from), to);
    }
}

#[test]
fn anchor_rotation_cycles_in_four() {
    let all = [
        Anchor::LeftTop,
        Anchor::CenterTop,
        Anchor::RightTop,
        Anchor::LeftCenter,
        Anchor::CenterCenter,
        Anchor::RightCenter,
        Anchor::LeftBottom,
        Anchor::CenterBottom,
        Anchor::RightBottom,
    ];
    for a in all {
        assert_eq!(rotate_anchor_n(a, 4), a);
    }
    for n in 0..8 {
        assert_eq!(rotate_anchor_n(Anchor::CenterCenter, n), Anchor::CenterCenter);
    }
}

#[test]
fn empty_text_emits_nothing() {
    // An empty measured extent (e.g. the empty string) draws nothing.
    let bounds = Bounds::new(0, 0, px(100), px(100));
    let be = EguiBackend::new(bounds);
    let r = be.place_text((10, 10), HPos::Left, VPos::Top, 0, 0, 0, true);
    assert!(r.is_none());
}

#[test]
fn text_anchoring_pulls_back_by_extent() {
    let bounds = Bounds::new(0, 0, px(100), px(100));
    let be = EguiBackend::new(bounds);
    // 40x10 pixel extent, right-bottom anchor, no rotation: the rect
    // starts a full extent left and above the target position.
    let r = be
        .place_text((50, 50), HPos::Right, VPos::Bottom, 0, px(40), px(10), false)
        .unwrap();
    assert_eq!(r.min.x, (50 - 40) * PX33);
    assert_eq!(r.min.y, (50 - 10) * PX33);
    assert_eq!(r.quarter_turns, 0);

    // Same style rotated one quarter turn: right-bottom cycles to
    // left-bottom, so only the vertical pull-back remains.
    let r = be
        .place_text((50, 50), HPos::Right, VPos::Bottom, 1, px(40), px(10), false)
        .unwrap();
    assert_eq!(r.min.x, 50 * PX33);
    assert_eq!(r.min.y, (50 - 10) * PX33);
    assert_eq!(r.quarter_turns, 1);

    // A centered anchor halves the pull-back and survives any rotation.
    let r = be
        .place_text((50, 50), HPos::Center, VPos::Center, 3, px(40), px(10), false)
        .unwrap();
    assert_eq!(r.min.x, (50 - 20) * PX33);
    assert_eq!(r.min.y, (50 - 5) * PX33);
}

#[test]
fn family_resolution() {
    assert_eq!(resolve_family(FontFamily::Serif), HostFontFamily::Proportional);
    assert_eq!(resolve_family(FontFamily::SansSerif), HostFontFamily::Proportional);
    assert_eq!(resolve_family(FontFamily::Monospace), HostFontFamily::Monospace);
    assert_eq!(
        resolve_family(FontFamily::Name("DejaVu".to_string())),
        HostFontFamily::Name("DejaVu".to_string())
    );
}

#[test]
fn mult_range_scales_about_midpoint() {
    // The window 0..100 doubled about its midpoint becomes -50..150.
    let (start, end) = mult_range(0, px(100), 2 * SUB);
    assert_eq!(start, -50 * PX33);
    assert_eq!(end, 150 * PX33);
}

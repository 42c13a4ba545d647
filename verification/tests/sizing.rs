//! Tests for background-image sizing and the primitive builders.

use egui_plotter::backend::EguiBackend;
use egui_plotter::bg_image::{BgImageSize, BgRect};
use egui_plotter::color::ChartColor;
use egui_plotter::backend::PenStyle;
use egui_plotter::coords::Bounds;

const SUB: i64 = 65536;
const PX33: i128 = 0x2_0000_0000;

fn px(v: i64) -> i64 {
    v * SUB
}

fn width_px(r: &BgRect) -> f64 {
    r.width.num as f64 / r.width.den as f64
}

fn height_px(r: &BgRect) -> f64 {
    r.height.num as f64 / r.height.den as f64
}

fn center_px(r: &BgRect) -> (f64, f64) {
    (r.center_x2 as f64 / (2.0 * SUB as f64), r.center_y2 as f64 / (2.0 * SUB as f64))
}

#[test]
fn fill_returns_bounds() {
    let b = Bounds::new(px(10), px(20), px(110), px(70));
    let r = BgImageSize::Fill.size_from_bounds(&b, None);
    assert_eq!(center_px(&r), (60.0, 45.0));
    assert_eq!(width_px(&r), 100.0);
    assert_eq!(height_px(&r), 50.0);
}

#[test]
fn ratio_sixteen_nine_scenario() {
    // bounds (0,0)-(200,100), ratio 16:9: centered at (100,50), exactly
    // 16:9, inside the bounds, touching the top and bottom edges.
    let b = Bounds::new(0, 0, px(200), px(100));
    let r = BgImageSize::Ratio(px(16), px(9)).size_from_bounds(&b, None);
    assert_eq!(center_px(&r), (100.0, 50.0));
    let w = width_px(&r);
    let h = height_px(&r);
    assert!((w / h - 16.0 / 9.0).abs() < 1e-12);
    assert!(w <= 200.0 && h <= 100.0);
    assert_eq!(h, 100.0); // touches the horizontal edges
    assert!((w - 1600.0 / 9.0).abs() < 1e-12);
    // The height side is exact in raw values too.
    assert_eq!(r.height.num, px(100) as i128);
    assert_eq!(r.height.den, SUB as i128);
}

#[test]
fn ratio_preserves_ratio_when_width_limits() {
    // A tall ratio in a wide box: the height limits on the other side.
    let b = Bounds::new(0, 0, px(100), px(200));
    let r = BgImageSize::Ratio(px(1), px(1)).size_from_bounds(&b, None);
    assert_eq!(width_px(&r), 100.0);
    assert_eq!(height_px(&r), 100.0);
}

#[test]
fn ratio_degenerate_falls_back_to_bounds() {
    let b = Bounds::new(0, 0, px(200), px(100));
    for policy in [BgImageSize::Ratio(0, px(9)), BgImageSize::Ratio(px(16), 0)] {
        let r = policy.size_from_bounds(&b, None);
        assert_eq!(width_px(&r), 200.0);
        assert_eq!(height_px(&r), 100.0);
    }
    let flat = Bounds::new(0, 0, px(200), 0);
    let r = BgImageSize::Ratio(px(16), px(9)).size_from_bounds(&flat, None);
    assert_eq!(width_px(&r), 200.0);
    assert_eq!(height_px(&r), 0.0);
}

#[test]
fn original_unresolved_returns_bounds() {
    let b = Bounds::new(px(5), px(5), px(105), px(55));
    let r = BgImageSize::Original.size_from_bounds(&b, None);
    assert_eq!(center_px(&r), (55.0, 30.0));
    assert_eq!(width_px(&r), 100.0);
    assert_eq!(height_px(&r), 50.0);
}

#[test]
fn original_uses_native_size() {
    let b = Bounds::new(0, 0, px(200), px(100));
    let r = BgImageSize::Original.size_from_bounds(&b, Some((30, 40)));
    assert_eq!(center_px(&r), (100.0, 50.0));
    assert_eq!(width_px(&r), 30.0);
    assert_eq!(height_px(&r), 40.0);
}

#[test]
fn fit_follows_native_aspect_ratio() {
    // A 400x100 image fit into 200x100 bounds: scaled down to 200x50.
    let b = Bounds::new(0, 0, px(200), px(100));
    let r = BgImageSize::Fit.size_from_bounds(&b, Some((400, 100)));
    assert_eq!(width_px(&r), 200.0);
    assert_eq!(height_px(&r), 50.0);
    // Unresolvable image: the bounds' own ratio fills them exactly.
    let r = BgImageSize::Fit.size_from_bounds(&b, None);
    assert_eq!(width_px(&r), 200.0);
    assert_eq!(height_px(&r), 100.0);
}

#[test]
fn exact_ignores_native_size() {
    let b = Bounds::new(0, 0, px(200), px(100));
    let r = BgImageSize::Exact(px(123), px(45)).size_from_bounds(&b, Some((400, 100)));
    assert_eq!(center_px(&r), (100.0, 50.0));
    assert_eq!(width_px(&r), 123.0);
    assert_eq!(height_px(&r), 45.0);
}

fn style(w: u32) -> PenStyle {
    PenStyle { color: ChartColor { r: 9, g: 8, b: 7, alpha: SUB }, stroke_width: w }
}

#[test]
fn pixel_is_unit_segment() {
    let b = Bounds::new(0, 0, px(100), px(100));
    let be = EguiBackend::new(b);
    let s = be.draw_pixel((3, 4), ChartColor { r: 1, g: 2, b: 3, alpha: SUB });
    assert_eq!(s.p0.x, 3 * PX33);
    assert_eq!(s.p0.y, 4 * PX33);
    assert_eq!(s.p1.x, 4 * PX33);
    assert_eq!(s.p1.y, 5 * PX33);
    assert_eq!(s.width, 1);
    assert_eq!((s.color.r, s.color.g, s.color.b, s.color.a), (1, 2, 3, 255));
}

#[test]
fn line_and_rect_carry_style() {
    let b = Bounds::new(0, 0, px(100), px(100));
    let be = EguiBackend::new(b);
    let s = be.draw_line((0, 0), (10, 20), &style(5));
    assert_eq!(s.width, 5);
    assert_eq!(s.p1.x, 10 * PX33);
    assert_eq!(s.p1.y, 20 * PX33);

    let filled = be.draw_rect((1, 2), (30, 40), &style(5), true);
    assert!(filled.fill);
    assert_eq!(filled.p0.x, 1 * PX33);
    assert_eq!(filled.p1.y, 40 * PX33);
    let stroked = be.draw_rect((1, 2), (30, 40), &style(5), false);
    assert!(!stroked.fill);
    assert_eq!(stroked.width, 5);
}

#[test]
fn circle_radius_is_not_scaled() {
    // The view transform scales all geometry except circle radii: a
    // known quirk, preserved deliberately.
    let b = Bounds::new(0, 0, px(100), px(100));
    let be = EguiBackend::new(b).scale(2 * SUB);
    let c = be.draw_circle((50, 50), 7, &style(2), false);
    assert_eq!(c.radius, 7);
    assert_eq!(c.center.x, 50 * PX33);
    assert_eq!(c.center.y, 50 * PX33);
    // While distances between drawn points double under the same scale.
    let p = be.point_transform((50, 57), &b);
    assert_eq!(p.y - c.center.y, 2 * 7 * PX33);
}

#[test]
fn path_and_polygon_transform_all_points() {
    let b = Bounds::new(0, 0, px(100), px(100));
    let be = EguiBackend::new(b).offset((10, 0));
    let pts = vec![(0, 0), (10, 10), (20, 5)];
    let path = be.draw_path(&pts, &style(1));
    assert_eq!(path.points.len(), 3);
    for (i, (x, y)) in pts.iter().enumerate() {
        assert_eq!(path.points[i].x, (*x as i128 + 10) * PX33);
        assert_eq!(path.points[i].y, *y as i128 * PX33);
    }
    let poly = be.fill_polygon(&pts, &style(1));
    assert_eq!(poly.points.len(), 3);
    assert_eq!(poly.points[2].x, 30 * PX33);
    assert_eq!((poly.color.r, poly.color.g, poly.color.b), (9, 8, 7));
}

#[test]
fn builders_match_in_place_setters() {
    let b = Bounds::new(0, 0, px(100), px(100));
    let chained = EguiBackend::new(b).offset((3, 4)).scale(5 * SUB);
    let mut stepped = EguiBackend::new(b);
    stepped.set_offset((3, 4));
    stepped.set_scale(5 * SUB);
    assert_eq!(chained, stepped);
}

#[test]
fn get_size_truncates_to_whole_pixels() {
    let b = Bounds::new(0, 0, px(200) + SUB / 2, px(100) + SUB - 1);
    let be = EguiBackend::new(b);
    assert_eq!(be.get_size(), (200, 100));
}

#[test]
fn bg_image_rect_uses_adapter_bounds() {
    let b = Bounds::new(px(10), px(10), px(210), px(110));
    let be = EguiBackend::new(b);
    let r = be.bg_image_rect(BgImageSize::Original, None);
    assert_eq!(center_px(&r), (110.0, 60.0));
    assert_eq!(width_px(&r), 200.0);
    assert_eq!(height_px(&r), 100.0);
}

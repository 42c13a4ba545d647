//! The adapter itself: view state plus one verified builder per abstract
//! drawing command.
//!
//! Each builder transforms its logical coordinates through the view
//! transform, converts the color, and returns a plain description of the
//! host primitive to paint. The unverified shell forwards those
//! descriptions to the host painter; by contract no builder can fail, so
//! the shell's drawing calls always succeed.

use vstd::prelude::*;

use crate::anchor::anchor_of;
use crate::bg_image::BgImageSize;
use crate::bg_image::BgRect;
use crate::anchor::rotate_anchor_n;
use crate::anchor::Anchor;
use crate::anchor::HPos;
use crate::anchor::VPos;
use crate::color::is_host_of;
use crate::color::to_host_color;
use crate::color::ChartColor;
use crate::color::HostColor;
use crate::coords::lemma_mul_bound;
use crate::coords::Bounds;
use crate::coords::ScreenPoint;
use crate::coords::COORD_LIMIT;
use crate::coords::SCALE_LIMIT;
use crate::coords::SUBPIXEL;
use crate::text::anchored_min_x;
use crate::text::anchored_min_y;
use crate::text::rotated_anchor_spec;
use crate::text::TextPlacement;
use crate::transform::transform_axis;
use crate::transform::transform_axis_exec;
use crate::transform::SCREEN_LIMIT;

verus! {

/// One raw pixel at the transformed points' denominator of `2^33`.
pub const PIXEL33: i128 = 0x2_0000_0000;

/// Error type of the drawing interface. The host painter exposes no
/// error channel, so this is a stub: it exists to satisfy the abstract
/// drawing contract's result shape and is never constructed on a failure
/// path.
#[derive(Debug, Clone, Copy)]
pub struct EguiBackendError;

/// Stroke width and color of a primitive. Whether a shape is filled or
/// stroked is a separate flag passed per call, not part of the style.
#[derive(Clone, Copy, Debug, PartialEq, Eq, Structural)]
pub struct PenStyle {
    pub color: ChartColor,
    pub stroke_width: u32,
}

impl PenStyle {
    pub open spec fn wf(self) -> bool {
        self.color.wf()
    }
}

/// A straight line segment for the host painter.
#[derive(Clone, Copy, Debug, PartialEq, Eq, Structural)]
pub struct SegmentShape {
    pub p0: ScreenPoint,
    pub p1: ScreenPoint,
    pub width: u32,
    pub color: HostColor,
}

/// An axis-aligned rectangle: filled without a border when `fill` holds,
/// otherwise transparent with a border stroke of `width`.
#[derive(Clone, Copy, Debug, PartialEq, Eq, Structural)]
pub struct RectShape {
    pub p0: ScreenPoint,
    pub p1: ScreenPoint,
    pub fill: bool,
    pub width: u32,
    pub color: HostColor,
}

/// A circle: filled when `fill` holds, otherwise stroked with `width`.
/// The radius is in whole pixels and deliberately untouched by the view
/// transform's scale (a long-standing quirk of this adapter, preserved
/// rather than corrected).
#[derive(Clone, Copy, Debug, PartialEq, Eq, Structural)]
pub struct CircleShape {
    pub center: ScreenPoint,
    pub radius: u32,
    pub fill: bool,
    pub width: u32,
    pub color: HostColor,
}

/// An open polyline through its points, stroked, never closed.
#[derive(Debug)]
pub struct PolylineShape {
    pub points: Vec<ScreenPoint>,
    pub width: u32,
    pub color: HostColor,
}

/// A filled convex polygon; no stroke is drawn regardless of style.
#[derive(Debug)]
pub struct PolygonShape {
    pub points: Vec<ScreenPoint>,
    pub color: HostColor,
}

/// The adapter's view state: pan offset in whole pixels, raw scale
/// factor (`SUBPIXEL` is a scale of one), and the screen-space bounds the
/// adapter renders into. Bounds are set once at construction; offset and
/// scale are mutated only between drawing passes.
#[derive(Clone, Copy, Debug, PartialEq, Eq, Structural)]
pub struct EguiBackend {
    pub x: i32,
    pub y: i32,
    pub scale: i64,
    pub bounds: Bounds,
}

impl EguiBackend {
    pub open spec fn wf(self) -> bool {
        &&& self.bounds.wf()
        &&& -SCALE_LIMIT <= self.scale <= SCALE_LIMIT
    }

    /// The horizontal view transform at this adapter's own bounds, as a
    /// numerator at denominator `2^33`.
    pub open spec fn tf_x(self, p: int) -> int {
        transform_axis(p, self.bounds.min_x as int, self.bounds.max_x as int, self.x as int, self.scale as int)
    }

    /// Vertical counterpart of `tf_x`.
    pub open spec fn tf_y(self, p: int) -> int {
        transform_axis(p, self.bounds.min_y as int, self.bounds.max_y as int, self.y as int, self.scale as int)
    }

    /// A fresh adapter for a drawing region: offset zero, scale one.
    pub fn new(bounds: Bounds) -> (r: EguiBackend)
        requires
            bounds.wf(),
        ensures
            r == (EguiBackend { x: 0, y: 0, scale: SUBPIXEL, bounds }),
            r.wf(),
    {
        EguiBackend { x: 0, y: 0, scale: SUBPIXEL, bounds }
    }

    /// Replaces the pan offset unconditionally.
    pub fn set_offset(&mut self, offset: (i32, i32))
        ensures
            final(self).x == offset.0,
            final(self).y == offset.1,
            final(self).scale == old(self).scale,
            final(self).bounds == old(self).bounds,
    {
        self.x = offset.0;
        self.y = offset.1;
    }

    /// Replaces the pan offset; consumes and returns the adapter.
    pub fn offset(self, offset: (i32, i32)) -> (r: EguiBackend)
        ensures
            r == (EguiBackend { x: offset.0, y: offset.1, ..self }),
    {
        let mut this = self;
        this.set_offset(offset);
        this
    }

    /// Replaces the scale unconditionally: a non-positive scale is
    /// accepted and produces degenerate or mirrored geometry by design,
    /// not an error.
    pub fn set_scale(&mut self, scale: i64)
        requires
            -SCALE_LIMIT <= scale <= SCALE_LIMIT,
        ensures
            final(self).scale == scale,
            final(self).x == old(self).x,
            final(self).y == old(self).y,
            final(self).bounds == old(self).bounds,
    {
        self.scale = scale;
    }

    /// Replaces the scale; consumes and returns the adapter.
    pub fn scale(self, scale: i64) -> (r: EguiBackend)
        requires
            -SCALE_LIMIT <= scale <= SCALE_LIMIT,
        ensures
            r == (EguiBackend { scale, ..self }),
    {
        let mut this = self;
        this.set_scale(scale);
        this
    }

    /// Size of the drawing region in whole pixels (truncated).
    pub fn get_size(&self) -> (r: (u32, u32))
        requires
            self.wf(),
        ensures
            r.0 == self.bounds.width() / (SUBPIXEL as int),
            r.1 == self.bounds.height() / (SUBPIXEL as int),
    {
        let w: i64 = (self.bounds.max_x - self.bounds.min_x) / SUBPIXEL;
        let h: i64 = (self.bounds.max_y - self.bounds.min_y) / SUBPIXEL;
        (w as u32, h as u32)
    }

    /// Transforms a logical point into screen space relative to the given
    /// rectangle: scale about the rectangle's center, add the unscaled
    /// pan offset, re-anchor at the rectangle's min corner.
    pub fn point_transform(&self, point: (i32, i32), bounds: &Bounds) -> (r: ScreenPoint)
        requires
            bounds.wf(),
            -SCALE_LIMIT <= self.scale <= SCALE_LIMIT,
        ensures
            r.x == transform_axis(point.0 as int, bounds.min_x as int, bounds.max_x as int, self.x as int, self.scale as int),
            r.y == transform_axis(point.1 as int, bounds.min_y as int, bounds.max_y as int, self.y as int, self.scale as int),
            -SCREEN_LIMIT <= r.x <= SCREEN_LIMIT,
            -SCREEN_LIMIT <= r.y <= SCREEN_LIMIT,
    {
        ScreenPoint {
            x: transform_axis_exec(point.0, bounds.min_x, bounds.max_x, self.x, self.scale),
            y: transform_axis_exec(point.1, bounds.min_y, bounds.max_y, self.y, self.scale),
        }
    }

    /// A pixel, approximated as a unit-length segment of stroke width one
    /// from the transformed point to that point offset by one pixel in
    /// both axes (the host has no true single-pixel primitive).
    pub fn draw_pixel(&self, point: (i32, i32), color: ChartColor) -> (r: SegmentShape)
        requires
            self.wf(),
            color.wf(),
        ensures
            r.p0.x == self.tf_x(point.0 as int),
            r.p0.y == self.tf_y(point.1 as int),
            r.p1.x == r.p0.x + PIXEL33,
            r.p1.y == r.p0.y + PIXEL33,
            r.width == 1,
            is_host_of(r.color, color),
    {
        let p0 = self.point_transform(point, &self.bounds);
        let p1 = ScreenPoint { x: p0.x + PIXEL33, y: p0.y + PIXEL33 };
        SegmentShape { p0, p1, width: 1, color: to_host_color(color) }
    }

    /// A straight segment between two transformed points, stroked with
    /// the style's width and color.
    pub fn draw_line(&self, from: (i32, i32), to: (i32, i32), style: &PenStyle) -> (r: SegmentShape)
        requires
            self.wf(),
            style.wf(),
        ensures
            r.p0.x == self.tf_x(from.0 as int),
            r.p0.y == self.tf_y(from.1 as int),
            r.p1.x == self.tf_x(to.0 as int),
            r.p1.y == self.tf_y(to.1 as int),
            r.width == style.stroke_width,
            is_host_of(r.color, style.color),
    {
        SegmentShape {
            p0: self.point_transform(from, &self.bounds),
            p1: self.point_transform(to, &self.bounds),
            width: style.stroke_width,
            color: to_host_color(style.color),
        }
    }

    /// An axis-aligned rectangle between two transformed corners: filled
    /// borderless when `fill` holds, else transparent with a border
    /// stroke. No corner rounding.
    pub fn draw_rect(&self, upper_left: (i32, i32), bottom_right: (i32, i32), style: &PenStyle, fill: bool) -> (r: RectShape)
        requires
            self.wf(),
            style.wf(),
        ensures
            r.p0.x == self.tf_x(upper_left.0 as int),
            r.p0.y == self.tf_y(upper_left.1 as int),
            r.p1.x == self.tf_x(bottom_right.0 as int),
            r.p1.y == self.tf_y(bottom_right.1 as int),
            r.fill == fill,
            r.width == style.stroke_width,
            is_host_of(r.color, style.color),
    {
        RectShape {
            p0: self.point_transform(upper_left, &self.bounds),
            p1: self.point_transform(bottom_right, &self.bounds),
            fill,
            width: style.stroke_width,
            color: to_host_color(style.color),
        }
    }

    /// An open polyline through all transformed points, single stroke,
    /// not closed.
    pub fn draw_path(&self, path: &Vec<(i32, i32)>, style: &PenStyle) -> (r: PolylineShape)
        requires
            self.wf(),
            style.wf(),
        ensures
            r.points@.len() == path@.len(),
            forall|i: int| 0 <= i < path@.len() ==> #[trigger] r.points@[i].x == self.tf_x(path@[i].0 as int)
                && r.points@[i].y == self.tf_y(path@[i].1 as int),
            r.width == style.stroke_width,
            is_host_of(r.color, style.color),
    {
        PolylineShape {
            points: self.transform_all(path),
            width: style.stroke_width,
            color: to_host_color(style.color),
        }
    }

    /// A filled convex polygon through all transformed vertices in the
    /// style's color; by design no stroke is drawn.
    pub fn fill_polygon(&self, vert: &Vec<(i32, i32)>, style: &PenStyle) -> (r: PolygonShape)
        requires
            self.wf(),
            style.wf(),
        ensures
            r.points@.len() == vert@.len(),
            forall|i: int| 0 <= i < vert@.len() ==> #[trigger] r.points@[i].x == self.tf_x(vert@[i].0 as int)
                && r.points@[i].y == self.tf_y(vert@[i].1 as int),
            is_host_of(r.color, style.color),
    {
        PolygonShape { points: self.transform_all(vert), color: to_host_color(style.color) }
    }

    /// A circle at the transformed center. The radius is passed through
    /// unscaled from logical to screen space, unlike every other length.
    pub fn draw_circle(&self, center: (i32, i32), radius: u32, style: &PenStyle, fill: bool) -> (r: CircleShape)
        requires
            self.wf(),
            style.wf(),
        ensures
            r.center.x == self.tf_x(center.0 as int),
            r.center.y == self.tf_y(center.1 as int),
            r.radius == radius,
            r.fill == fill,
            r.width == style.stroke_width,
            is_host_of(r.color, style.color),
    {
        CircleShape {
            center: self.point_transform(center, &self.bounds),
            radius,
            fill,
            width: style.stroke_width,
            color: to_host_color(style.color),
        }
    }

    /// Places measured text: the target position is transformed, the
    /// nine-way anchor is advanced one perimeter step per quarter turn,
    /// and the measured bounding rectangle (extent `w16` by `h16`, raw
    /// sub-pixel units) is anchored against the transformed position.
    /// Empty measured text yields no primitive at all.
    pub fn place_text(
        &self,
        pos: (i32, i32),
        h: HPos,
        v: VPos,
        turns: u32,
        w16: i64,
        h16: i64,
        empty: bool,
    ) -> (r: Option<TextPlacement>)
        requires
            self.wf(),
            0 <= w16 <= COORD_LIMIT,
            0 <= h16 <= COORD_LIMIT,
        ensures
            r is Some <==> !empty,
            r matches Some(t) ==> ({
                let a = rotated_anchor_spec(h, v, turns);
                &&& t.min.x == anchored_min_x(self.tf_x(pos.0 as int), a, w16 as int)
                &&& t.min.y == anchored_min_y(self.tf_y(pos.1 as int), a, h16 as int)
                &&& t.quarter_turns == turns
            }),
    {
        let p = self.point_transform(pos, &self.bounds);
        let a = rotate_anchor_n(anchor_of(h, v), turns);
        let kx: i128 = anchor_kx_exec(a) as i128;
        let ky: i128 = anchor_ky_exec(a) as i128;
        let half_w: i128 = (w16 as i128) * (SUBPIXEL as i128);
        let half_h: i128 = (h16 as i128) * (SUBPIXEL as i128);
        proof {
            lemma_mul_bound(kx as int, half_w as int, 2, 0x4000_0000_0000_0000);
            lemma_mul_bound(ky as int, half_h as int, 2, 0x4000_0000_0000_0000);
        }
        let min = ScreenPoint { x: p.x - kx * half_w, y: p.y - ky * half_h };
        if empty {
            None
        } else {
            Some(TextPlacement { min, quarter_turns: turns })
        }
    }

    /// Destination rectangle for an optional background image, computed
    /// against this adapter's bounds; painted once by the shell before
    /// the chart's own commands. `native` is the image's native pixel
    /// size from the host's texture registry, if the image resolves.
    pub fn bg_image_rect(&self, size: BgImageSize, native: Option<(u32, u32)>) -> (r: BgRect)
        requires
            self.wf(),
            size.wf(),
            native matches Some(wh) ==> wh.0 <= crate::bg_image::NATIVE_LIMIT && wh.1
                <= crate::bg_image::NATIVE_LIMIT,
        ensures
            r.center_x2 == self.bounds.min_x + self.bounds.max_x,
            r.center_y2 == self.bounds.min_y + self.bounds.max_y,
            r.width.den > 0,
            r.height.den > 0,
            size is Original && native is None ==> crate::bg_image::bg_same_size(r, self.bounds),
    {
        size.size_from_bounds(&self.bounds, native)
    }

    /// Transforms every point of a path through the view transform, in
    /// order.
    fn transform_all(&self, path: &Vec<(i32, i32)>) -> (r: Vec<ScreenPoint>)
        requires
            self.wf(),
        ensures
            r@.len() == path@.len(),
            forall|i: int| 0 <= i < path@.len() ==> #[trigger] r@[i].x == self.tf_x(path@[i].0 as int)
                && r@[i].y == self.tf_y(path@[i].1 as int),
    {
        let mut points: Vec<ScreenPoint> = Vec::new();
        let mut i: usize = 0;
        while i < path.len()
            invariant
                self.wf(),
                i <= path@.len(),
                points@.len() == i,
                forall|j: int| 0 <= j < i ==> #[trigger] points@[j].x == self.tf_x(path@[j].0 as int)
                    && points@[j].y == self.tf_y(path@[j].1 as int),
            decreases path@.len() - i,
        {
            let p = path[i];
            points.push(self.point_transform(p, &self.bounds));
            i = i + 1;
        }
        points
    }
}

/// Executable `anchor_kx`.
fn anchor_kx_exec(a: Anchor) -> (k: u8)
    ensures
        k == crate::text::anchor_kx(a),
{
    match a {
        Anchor::LeftTop | Anchor::LeftCenter | Anchor::LeftBottom => 0,
        Anchor::CenterTop | Anchor::CenterCenter | Anchor::CenterBottom => 1,
        Anchor::RightTop | Anchor::RightCenter | Anchor::RightBottom => 2,
    }
}

/// Executable `anchor_ky`.
fn anchor_ky_exec(a: Anchor) -> (k: u8)
    ensures
        k == crate::text::anchor_ky(a),
{
    match a {
        Anchor::LeftTop | Anchor::CenterTop | Anchor::RightTop => 0,
        Anchor::LeftCenter | Anchor::CenterCenter | Anchor::RightCenter => 1,
        Anchor::LeftBottom | Anchor::CenterBottom | Anchor::RightBottom => 2,
    }
}

} // verus!

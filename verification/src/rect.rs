//! Axis-aligned rectangles with a style and an optional corner radius.

use crate::color::style_text;
use crate::color::style_with_fill;
use crate::color::style_with_opacity;
use crate::color::style_with_stroke;
use crate::color::style_with_stroke_opacity;
use crate::color::Fill;
use crate::color::Stroke;
use crate::color::Style;
use crate::line::default_segment;
use crate::line::LineSegment;
use crate::num::decimal_i64;
use crate::num::int_text;
use vstd::prelude::*;
use vstd::string::*;

verus! {

/// An axis-aligned rectangle at (x,y) with width `w`, height `h`, a style
/// and a corner radius. Renders as an SVG `rect` element.
#[derive(Copy, Clone, PartialEq, Eq, Structural, Debug)]
pub struct Rectangle {
    pub x: i64,
    pub y: i64,
    pub w: i64,
    pub h: i64,
    pub style: Style,
    pub border_radius: i64,
}

/// The rendering of a rectangle:
/// `<rect x="..." y="..." width="..." height="..." ry="..." style="..." />`.
pub open spec fn rect_text(r: Rectangle) -> Seq<char> {
    "<rect x=\""@ + int_text(r.x as int) + "\" y=\""@ + int_text(r.y as int) + "\" width=\""@
        + int_text(r.w as int) + "\" height=\""@ + int_text(r.h as int) + "\" ry=\""@ + int_text(
        r.border_radius as int,
    ) + "\" style=\""@ + style_text(r.style) + "\" />"@
}

/// `r` with its style's fill attribute replaced.
pub open spec fn rect_with_fill(r: Rectangle, f: Fill) -> Rectangle {
    Rectangle { style: style_with_fill(r.style, f), ..r }
}

/// `r` with its style's stroke attribute replaced.
pub open spec fn rect_with_stroke(r: Rectangle, k: Stroke) -> Rectangle {
    Rectangle { style: style_with_stroke(r.style, k), ..r }
}

/// A rectangle at (x,y) of size (w,h) with the default style and no corner
/// radius.
pub fn rectangle(x: i64, y: i64, w: i64, h: i64) -> (r: Rectangle)
    ensures
        r == (Rectangle {
            x,
            y,
            w,
            h,
            style: crate::color::default_style(),
            border_radius: 0,
        }),
{
    Rectangle { x, y, w, h, style: Style::default(), border_radius: 0 }
}

impl Rectangle {
    /// Replaces the fill attribute of this rectangle's style.
    pub fn fill(self, fill: Fill) -> (r: Rectangle)
        ensures
            r == rect_with_fill(self, fill),
    {
        Rectangle { style: Style { fill, ..self.style }, ..self }
    }

    /// Replaces the stroke attribute of this rectangle's style.
    pub fn stroke(self, stroke: Stroke) -> (r: Rectangle)
        ensures
            r == rect_with_stroke(self, stroke),
    {
        Rectangle { style: Style { stroke, ..self.style }, ..self }
    }

    /// Replaces the fill opacity of this rectangle's style.
    pub fn opacity(self, opacity: i64) -> (r: Rectangle)
        ensures
            r == (Rectangle { style: style_with_opacity(self.style, opacity), ..self }),
    {
        Rectangle { style: Style { opacity, ..self.style }, ..self }
    }

    /// Replaces the stroke opacity of this rectangle's style.
    pub fn stroke_opacity(self, opacity: i64) -> (r: Rectangle)
        ensures
            r == (Rectangle { style: style_with_stroke_opacity(self.style, opacity), ..self }),
    {
        Rectangle { style: Style { stroke_opacity: opacity, ..self.style }, ..self }
    }

    /// Replaces the whole style.
    pub fn style(self, style: Style) -> (r: Rectangle)
        ensures
            r == (Rectangle { style, ..self }),
    {
        Rectangle { style, ..self }
    }

    /// Replaces the corner radius.
    pub fn border_radius(self, r: i64) -> (res: Rectangle)
        ensures
            res == (Rectangle { border_radius: r, ..self }),
    {
        Rectangle { border_radius: r, ..self }
    }

    /// Translates the rectangle by (dx,dy).
    pub fn offset(self, dx: i64, dy: i64) -> (r: Rectangle)
        requires
            i64::MIN <= self.x + dx <= i64::MAX,
            i64::MIN <= self.y + dy <= i64::MAX,
        ensures
            r.x == self.x + dx,
            r.y == self.y + dy,
            r.w == self.w,
            r.h == self.h,
            r.style == self.style,
            r.border_radius == self.border_radius,
    {
        Rectangle { x: self.x + dx, y: self.y + dy, ..self }
    }

    /// Expands the rectangle symmetrically: the origin moves by (-dx,-dy)
    /// and each dimension grows by twice the matching amount.
    pub fn inflate(self, dx: i64, dy: i64) -> (r: Rectangle)
        requires
            i64::MIN <= self.x - dx <= i64::MAX,
            i64::MIN <= self.y - dy <= i64::MAX,
            i64::MIN <= 2 * dx <= i64::MAX,
            i64::MIN <= 2 * dy <= i64::MAX,
            i64::MIN <= self.w + 2 * dx <= i64::MAX,
            i64::MIN <= self.h + 2 * dy <= i64::MAX,
        ensures
            r.x == self.x - dx,
            r.y == self.y - dy,
            r.w == self.w + 2 * dx,
            r.h == self.h + 2 * dy,
            r.style == self.style,
            r.border_radius == self.border_radius,
    {
        Rectangle {
            x: self.x - dx,
            y: self.y - dy,
            w: self.w + 2 * dx,
            h: self.h + 2 * dy,
            ..self
        }
    }

    /// The four boundary segments, in the fixed order top, bottom, left,
    /// right, each with the default segment appearance.
    pub fn sides(&self) -> (r: [LineSegment; 4])
        requires
            i64::MIN <= self.x + self.w <= i64::MAX,
            i64::MIN <= self.y + self.h <= i64::MAX,
        ensures
            r@ == seq![
                default_segment(self.x as int, self.y as int, self.x + self.w, self.y as int),
                default_segment(self.x as int, self.y + self.h, self.x + self.w, self.y + self.h),
                default_segment(self.x as int, self.y as int, self.x as int, self.y + self.h),
                default_segment(self.x + self.w, self.y as int, self.x + self.w, self.y + self.h),
            ],
    {
        let right = self.x + self.w;
        let bottom = self.y + self.h;
        let r = [
            crate::line::line_segment(self.x, self.y, right, self.y),
            crate::line::line_segment(self.x, bottom, right, bottom),
            crate::line::line_segment(self.x, self.y, self.x, bottom),
            crate::line::line_segment(right, self.y, right, bottom),
        ];
        proof {
            assert(r@ =~= seq![
                default_segment(self.x as int, self.y as int, self.x + self.w, self.y as int),
                default_segment(self.x as int, self.y + self.h, self.x + self.w, self.y + self.h),
                default_segment(self.x as int, self.y as int, self.x as int, self.y + self.h),
                default_segment(self.x + self.w, self.y as int, self.x + self.w, self.y + self.h),
            ]);
        }
        r
    }

    /// Renders this rectangle as an SVG `rect` element.
    pub fn render(&self) -> (s: String)
        ensures
            s@ == rect_text(*self),
    {
        let mut s = "<rect x=\"".to_owned();
        s.append(decimal_i64(self.x).as_str());
        s.append("\" y=\"");
        s.append(decimal_i64(self.y).as_str());
        s.append("\" width=\"");
        s.append(decimal_i64(self.w).as_str());
        s.append("\" height=\"");
        s.append(decimal_i64(self.h).as_str());
        s.append("\" ry=\"");
        s.append(decimal_i64(self.border_radius).as_str());
        s.append("\" style=\"");
        s.append(self.style.render().as_str());
        s.append("\" />");
        s
    }
}

/// Setting the fill and then the stroke of a rectangle gives the same
/// rectangle, and hence the same rendering, as setting them in the
/// opposite order: the two attributes are independent fields.
pub proof fn lemma_rect_fill_stroke_commute(r: Rectangle, f: Fill, k: Stroke)
    ensures
        rect_with_stroke(rect_with_fill(r, f), k) == rect_with_fill(rect_with_stroke(r, k), f),
        rect_text(rect_with_stroke(rect_with_fill(r, f), k)) == rect_text(
            rect_with_fill(rect_with_stroke(r, k), f),
        ),
{
}

} // verus!

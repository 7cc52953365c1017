//! Straight line segments, including the conditional endpoint reordering
//! of `flip_to`.

use crate::color::color_text;
use crate::color::Color;
use crate::num::decimal_i64;
use crate::num::int_text;
use vstd::prelude::*;
use vstd::string::*;

verus! {

/// A straight segment from (x1,y1) to (x2,y2) with stroke color, width and
/// opacity. Renders as a `path` element with a two-point `d` attribute.
#[derive(Copy, Clone, PartialEq, Eq, Structural, Debug)]
pub struct LineSegment {
    pub x1: i64,
    pub x2: i64,
    pub y1: i64,
    pub y2: i64,
    pub color: Color,
    pub width: i64,
    pub opacity: i64,
}

/// The rendering of a line segment:
/// `<path d="M x1 y1 L x2 y2" style="stroke:...;stroke-width:...;stroke-opacity:..."/>`.
pub open spec fn line_text(l: LineSegment) -> Seq<char> {
    "<path d=\"M "@ + int_text(l.x1 as int) + " "@ + int_text(l.y1 as int) + " L "@ + int_text(
        l.x2 as int,
    ) + " "@ + int_text(l.y2 as int) + "\" style=\"stroke:"@ + color_text(l.color)
        + ";stroke-width:"@ + int_text(l.width as int) + ";stroke-opacity:"@ + int_text(
        l.opacity as int,
    ) + "\"/>"@
}

/// One axis of `flip_to`: given the two endpoint coordinates `a1`, `a2` and
/// a candidate `na`, a nonzero candidate greater than `a1` pushes `a1`'s
/// role onto `a2` and takes the second slot; a nonzero candidate less than
/// `a1` pushes the old `a1` to the second slot and takes the first; a zero
/// candidate (or one equal to `a1`) changes nothing.
pub open spec fn flip_axis(a1: int, a2: int, na: int) -> (int, int) {
    if na != 0 && na > a1 {
        (a2, na)
    } else if na != 0 && na < a1 {
        (na, a1)
    } else {
        (a1, a2)
    }
}

/// A segment with the given endpoints and the default appearance:
/// black, width 1, opacity 1.
pub open spec fn default_segment(x1: int, y1: int, x2: int, y2: int) -> LineSegment {
    LineSegment {
        x1: x1 as i64,
        x2: x2 as i64,
        y1: y1 as i64,
        y2: y2 as i64,
        color: Color { r: 0, g: 0, b: 0 },
        width: 1,
        opacity: 1,
    }
}

/// A segment from (x1,y1) to (x2,y2) with the default appearance:
/// black, width 1, opacity 1.
pub fn line_segment(x1: i64, y1: i64, x2: i64, y2: i64) -> (l: LineSegment)
    ensures
        l == default_segment(x1 as int, y1 as int, x2 as int, y2 as int),
{
    LineSegment { x1, y1, x2, y2, color: Color { r: 0, g: 0, b: 0 }, width: 1, opacity: 1 }
}

impl LineSegment {
    /// Replaces the stroke color.
    pub fn color(self, color: Color) -> (l: LineSegment)
        ensures
            l == (LineSegment { color, ..self }),
    {
        LineSegment { color, ..self }
    }

    /// Replaces the stroke width.
    pub fn width(self, width: i64) -> (l: LineSegment)
        ensures
            l == (LineSegment { width, ..self }),
    {
        LineSegment { width, ..self }
    }

    /// Replaces the stroke opacity.
    pub fn opacity(self, opacity: i64) -> (l: LineSegment)
        ensures
            l == (LineSegment { opacity, ..self }),
    {
        LineSegment { opacity, ..self }
    }

    /// Translates both endpoints by (dx,dy).
    pub fn offset(self, dx: i64, dy: i64) -> (l: LineSegment)
        requires
            i64::MIN <= self.x1 + dx <= i64::MAX,
            i64::MIN <= self.x2 + dx <= i64::MAX,
            i64::MIN <= self.y1 + dy <= i64::MAX,
            i64::MIN <= self.y2 + dy <= i64::MAX,
        ensures
            l.x1 == self.x1 + dx,
            l.x2 == self.x2 + dx,
            l.y1 == self.y1 + dy,
            l.y2 == self.y2 + dy,
            l.color == self.color,
            l.width == self.width,
            l.opacity == self.opacity,
    {
        LineSegment {
            x1: self.x1 + dx,
            x2: self.x2 + dx,
            y1: self.y1 + dy,
            y2: self.y2 + dy,
            ..self
        }
    }

    /// Conditionally reorders the endpoints toward a new point, one axis at
    /// a time, by the `flip_axis` rule; a candidate coordinate of exactly
    /// zero leaves that axis unchanged.
    pub fn flip_to(self, new_x: i64, new_y: i64) -> (l: LineSegment)
        ensures
            (l.x1 as int, l.x2 as int) == flip_axis(self.x1 as int, self.x2 as int, new_x as int),
            (l.y1 as int, l.y2 as int) == flip_axis(self.y1 as int, self.y2 as int, new_y as int),
            l.color == self.color,
            l.width == self.width,
            l.opacity == self.opacity,
    {
        let mut l = self;
        if new_x != 0 {
            if new_x > l.x1 {
                l.x1 = l.x2;
                l.x2 = new_x;
            } else if new_x < l.x1 {
                l.x2 = l.x1;
                l.x1 = new_x;
            }
        }
        if new_y != 0 {
            if new_y > l.y1 {
                l.y1 = l.y2;
                l.y2 = new_y;
            } else if new_y < l.y1 {
                l.y2 = l.y1;
                l.y1 = new_y;
            }
        }
        l
    }

    /// Renders this segment as an SVG `path` element.
    pub fn render(&self) -> (s: String)
        ensures
            s@ == line_text(*self),
    {
        let mut s = "<path d=\"M ".to_owned();
        s.append(decimal_i64(self.x1).as_str());
        s.append(" ");
        s.append(decimal_i64(self.y1).as_str());
        s.append(" L ");
        s.append(decimal_i64(self.x2).as_str());
        s.append(" ");
        s.append(decimal_i64(self.y2).as_str());
        s.append("\" style=\"stroke:");
        s.append(self.color.render().as_str());
        s.append(";stroke-width:");
        s.append(decimal_i64(self.width).as_str());
        s.append(";stroke-opacity:");
        s.append(decimal_i64(self.opacity).as_str());
        s.append("\"/>");
        s
    }
}

} // verus!

//! Circles with a style.

use crate::color::style_text;
use crate::color::style_with_fill;
use crate::color::style_with_opacity;
use crate::color::style_with_stroke;
use crate::color::style_with_stroke_opacity;
use crate::color::Fill;
use crate::color::Stroke;
use crate::color::Style;
use crate::num::decimal_i64;
use crate::num::int_text;
use vstd::prelude::*;
use vstd::string::*;

verus! {

/// A circle centered at (x,y) with the given radius and a style. Renders
/// as an SVG `circle` element.
#[derive(Copy, Clone, PartialEq, Eq, Structural, Debug)]
pub struct Circle {
    pub x: i64,
    pub y: i64,
    pub radius: i64,
    pub style: Style,
}

/// The rendering of a circle:
/// `<circle cx="..." cy="..." r="..." style="..." />`.
pub open spec fn circle_text(c: Circle) -> Seq<char> {
    "<circle cx=\""@ + int_text(c.x as int) + "\" cy=\""@ + int_text(c.y as int) + "\" r=\""@
        + int_text(c.radius as int) + "\" style=\""@ + style_text(c.style) + "\" />"@
}

impl Circle {
    /// Replaces the fill attribute of this circle's style.
    pub fn fill(self, fill: Fill) -> (c: Circle)
        ensures
            c == (Circle { style: style_with_fill(self.style, fill), ..self }),
    {
        Circle { style: Style { fill, ..self.style }, ..self }
    }

    /// Replaces the stroke attribute of this circle's style.
    pub fn stroke(self, stroke: Stroke) -> (c: Circle)
        ensures
            c == (Circle { style: style_with_stroke(self.style, stroke), ..self }),
    {
        Circle { style: Style { stroke, ..self.style }, ..self }
    }

    /// Replaces the whole style.
    pub fn style(self, style: Style) -> (c: Circle)
        ensures
            c == (Circle { style, ..self }),
    {
        Circle { style, ..self }
    }

    /// Replaces the fill opacity of this circle's style.
    pub fn opacity(self, opacity: i64) -> (c: Circle)
        ensures
            c == (Circle { style: style_with_opacity(self.style, opacity), ..self }),
    {
        Circle { style: Style { opacity, ..self.style }, ..self }
    }

    /// Replaces the stroke opacity of this circle's style.
    pub fn stroke_opacity(self, opacity: i64) -> (c: Circle)
        ensures
            c == (Circle { style: style_with_stroke_opacity(self.style, opacity), ..self }),
    {
        Circle { style: Style { stroke_opacity: opacity, ..self.style }, ..self }
    }

    /// Translates the center by (dx,dy).
    pub fn offset(self, dx: i64, dy: i64) -> (c: Circle)
        requires
            i64::MIN <= self.x + dx <= i64::MAX,
            i64::MIN <= self.y + dy <= i64::MAX,
        ensures
            c.x == self.x + dx,
            c.y == self.y + dy,
            c.radius == self.radius,
            c.style == self.style,
    {
        Circle { x: self.x + dx, y: self.y + dy, ..self }
    }

    /// Grows the radius by the given amount.
    pub fn inflate(self, by: i64) -> (c: Circle)
        requires
            i64::MIN <= self.radius + by <= i64::MAX,
        ensures
            c.radius == self.radius + by,
            c.x == self.x,
            c.y == self.y,
            c.style == self.style,
    {
        Circle { radius: self.radius + by, ..self }
    }

    /// Renders this circle as an SVG `circle` element.
    pub fn render(&self) -> (s: String)
        ensures
            s@ == circle_text(*self),
    {
        let mut s = "<circle cx=\"".to_owned();
        s.append(decimal_i64(self.x).as_str());
        s.append("\" cy=\"");
        s.append(decimal_i64(self.y).as_str());
        s.append("\" r=\"");
        s.append(decimal_i64(self.radius).as_str());
        s.append("\" style=\"");
        s.append(self.style.render().as_str());
        s.append("\" />");
        s
    }
}

} // verus!

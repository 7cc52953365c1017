//! Colors, fill and stroke attributes, combined styles, and text alignment.

use crate::num::dec_digits;
use crate::num::decimal_i64;
use crate::num::decimal_u64;
use crate::num::int_text;
use vstd::prelude::*;
use vstd::string::*;

verus! {

/// An RGB triple. Renders as `rgb(r,g,b)` with decimal byte values.
#[derive(Copy, Clone, PartialEq, Eq, Structural, Debug)]
pub struct Color {
    pub r: u8,
    pub g: u8,
    pub b: u8,
}

/// The rendering of a color: `rgb(r,g,b)`.
pub open spec fn color_text(c: Color) -> Seq<char> {
    "rgb("@ + dec_digits(c.r as nat) + ","@ + dec_digits(c.g as nat) + ","@ + dec_digits(
        c.b as nat,
    ) + ")"@
}

pub fn rgb(r: u8, g: u8, b: u8) -> (c: Color)
    ensures
        c == (Color { r, g, b }),
{
    Color { r, g, b }
}

pub fn black() -> (c: Color)
    ensures
        c == (Color { r: 0, g: 0, b: 0 }),
{
    rgb(0, 0, 0)
}

pub fn white() -> (c: Color)
    ensures
        c == (Color { r: 255, g: 255, b: 255 }),
{
    rgb(255, 255, 255)
}

pub fn red() -> (c: Color)
    ensures
        c == (Color { r: 255, g: 0, b: 0 }),
{
    rgb(255, 0, 0)
}

pub fn green() -> (c: Color)
    ensures
        c == (Color { r: 0, g: 255, b: 0 }),
{
    rgb(0, 255, 0)
}

pub fn blue() -> (c: Color)
    ensures
        c == (Color { r: 0, g: 0, b: 255 }),
{
    rgb(0, 0, 255)
}

impl Color {
    /// Renders this color as `rgb(r,g,b)`.
    pub fn render(&self) -> (s: String)
        ensures
            s@ == color_text(*self),
    {
        let mut s = "rgb(".to_owned();
        s.append(decimal_u64(self.r as u64).as_str());
        s.append(",");
        s.append(decimal_u64(self.g as u64).as_str());
        s.append(",");
        s.append(decimal_u64(self.b as u64).as_str());
        s.append(")");
        s
    }
}

/// A fill attribute: a color, or none. Renders as `fill:<color>` or
/// `fill:none`.
#[derive(Copy, Clone, PartialEq, Eq, Structural, Debug)]
pub enum Fill {
    Color(Color),
    NoFill,
}

/// A stroke attribute: a color with a width, or none. Renders as
/// `stroke:<color>;stroke-width:<width>` or `stroke:none`.
#[derive(Copy, Clone, PartialEq, Eq, Structural, Debug)]
pub enum Stroke {
    Color(Color, i64),
    NoStroke,
}

/// The rendering of a fill attribute.
pub open spec fn fill_text(f: Fill) -> Seq<char> {
    match f {
        Fill::Color(c) => "fill:"@ + color_text(c),
        Fill::NoFill => "fill:none"@,
    }
}

/// The rendering of a stroke attribute.
pub open spec fn stroke_text(s: Stroke) -> Seq<char> {
    match s {
        Stroke::Color(c, w) => "stroke:"@ + color_text(c) + ";stroke-width:"@ + int_text(w as int),
        Stroke::NoStroke => "stroke:none"@,
    }
}

impl Fill {
    /// Renders this fill attribute.
    pub fn render(&self) -> (s: String)
        ensures
            s@ == fill_text(*self),
    {
        match self {
            Fill::Color(c) => {
                let mut s = "fill:".to_owned();
                s.append(c.render().as_str());
                s
            },
            Fill::NoFill => "fill:none".to_owned(),
        }
    }
}

impl Stroke {
    /// Renders this stroke attribute.
    pub fn render(&self) -> (s: String)
        ensures
            s@ == stroke_text(*self),
    {
        match self {
            Stroke::Color(c, w) => {
                let mut s = "stroke:".to_owned();
                s.append(c.render().as_str());
                s.append(";stroke-width:");
                s.append(decimal_i64(*w).as_str());
                s
            },
            Stroke::NoStroke => "stroke:none".to_owned(),
        }
    }
}

impl From<Color> for Fill {
    /// A bare color converts to a color fill.
    fn from(c: Color) -> (f: Fill) {
        Fill::Color(c)
    }
}

impl vstd::std_specs::convert::FromSpecImpl<Color> for Fill {
    open spec fn obeys_from_spec() -> bool {
        true
    }

    open spec fn from_spec(c: Color) -> Fill {
        Fill::Color(c)
    }
}

impl From<Color> for Stroke {
    /// A bare color converts to a stroke of that color with width 1.
    fn from(c: Color) -> (s: Stroke) {
        Stroke::Color(c, 1)
    }
}

impl vstd::std_specs::convert::FromSpecImpl<Color> for Stroke {
    open spec fn obeys_from_spec() -> bool {
        true
    }

    open spec fn from_spec(c: Color) -> Stroke {
        Stroke::Color(c, 1)
    }
}

/// Fill, stroke and opacity attributes combined into one style fragment.
/// Renders as `<fill>;<stroke>;fill-opacity:<o>;stroke-opacity:<so>;`.
#[derive(Copy, Clone, PartialEq, Eq, Structural, Debug)]
pub struct Style {
    pub fill: Fill,
    pub stroke: Stroke,
    pub opacity: i64,
    pub stroke_opacity: i64,
}

/// The rendering of a full style fragment.
pub open spec fn style_text(s: Style) -> Seq<char> {
    fill_text(s.fill) + ";"@ + stroke_text(s.stroke) + ";fill-opacity:"@ + int_text(
        s.opacity as int,
    ) + ";stroke-opacity:"@ + int_text(s.stroke_opacity as int) + ";"@
}

/// The default style: black fill, no stroke, both opacities 1.
pub open spec fn default_style() -> Style {
    Style {
        fill: Fill::Color(Color { r: 0, g: 0, b: 0 }),
        stroke: Stroke::NoStroke,
        opacity: 1,
        stroke_opacity: 1,
    }
}

/// `s` with its fill attribute replaced.
pub open spec fn style_with_fill(s: Style, f: Fill) -> Style {
    Style { fill: f, ..s }
}

/// `s` with its stroke attribute replaced.
pub open spec fn style_with_stroke(s: Style, k: Stroke) -> Style {
    Style { stroke: k, ..s }
}

/// `s` with its fill opacity replaced.
pub open spec fn style_with_opacity(s: Style, o: i64) -> Style {
    Style { opacity: o, ..s }
}

/// `s` with its stroke opacity replaced.
pub open spec fn style_with_stroke_opacity(s: Style, o: i64) -> Style {
    Style { stroke_opacity: o, ..s }
}

impl Style {
    /// The default style: black fill, no stroke, both opacities 1.
    pub fn default() -> (s: Style)
        ensures
            s == default_style(),
    {
        Style { fill: Fill::Color(Color { r: 0, g: 0, b: 0 }), stroke: Stroke::NoStroke, opacity: 1, stroke_opacity: 1 }
    }

    /// Renders this style fragment.
    pub fn render(&self) -> (s: String)
        ensures
            s@ == style_text(*self),
    {
        let mut s = self.fill.render();
        s.append(";");
        s.append(self.stroke.render().as_str());
        s.append(";fill-opacity:");
        s.append(decimal_i64(self.opacity).as_str());
        s.append(";stroke-opacity:");
        s.append(decimal_i64(self.stroke_opacity).as_str());
        s.append(";");
        s
    }
}

/// Setting the fill and then the stroke of a style gives the same style,
/// and hence the same rendering, as setting them in the opposite order:
/// the two attributes are independent fields.
pub proof fn lemma_style_fill_stroke_commute(s: Style, f: Fill, k: Stroke)
    ensures
        style_with_stroke(style_with_fill(s, f), k) == style_with_fill(style_with_stroke(s, k), f),
        style_text(style_with_stroke(style_with_fill(s, f), k)) == style_text(
            style_with_fill(style_with_stroke(s, k), f),
        ),
{
}

/// Horizontal alignment of a text element. Renders as the matching
/// `text-anchor`/`text-align` pair.
#[derive(Copy, Clone, PartialEq, Eq, Structural, Debug)]
pub enum Align {
    Left,
    Right,
    Center,
}

/// The rendering of an alignment fragment.
pub open spec fn align_text(a: Align) -> Seq<char> {
    match a {
        Align::Left => "text-anchor:start;text-align:left;"@,
        Align::Right => "text-anchor:end;text-align:right;"@,
        Align::Center => "text-anchor:middle;text-align:center;"@,
    }
}

impl Align {
    /// Renders this alignment fragment.
    pub fn render(&self) -> (s: String)
        ensures
            s@ == align_text(*self),
    {
        match self {
            Align::Left => "text-anchor:start;text-align:left;".to_owned(),
            Align::Right => "text-anchor:end;text-align:right;".to_owned(),
            Align::Center => "text-anchor:middle;text-align:center;".to_owned(),
        }
    }
}

} // verus!

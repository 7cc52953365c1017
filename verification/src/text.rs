//! Text elements and comments. The library performs no escaping of the
//! embedded text: callers embedding untrusted text must escape it first.

use crate::color::align_text;
use crate::color::color_text;
use crate::color::Align;
use crate::color::Color;
use crate::num::decimal_i64;
use crate::num::int_text;
use vstd::prelude::*;
use vstd::string::*;

verus! {

/// A text element at (x,y) with its content, color, alignment and font
/// size. Renders as an SVG `text` element.
#[derive(Clone, PartialEq, Debug)]
pub struct Text {
    pub x: i64,
    pub y: i64,
    pub text: String,
    pub color: Color,
    pub align: Align,
    pub size: i64,
}

/// The rendering of a text element:
/// `<text x="..." y="..." style="font-size:...px;fill:...;..."> ... </text>`.
pub open spec fn text_text(t: Text) -> Seq<char> {
    "<text x=\""@ + int_text(t.x as int) + "\" y=\""@ + int_text(t.y as int)
        + "\" style=\"font-size:"@ + int_text(t.size as int) + "px;fill:"@ + color_text(t.color)
        + ";"@ + align_text(t.align) + "\"> "@ + t.text@ + " </text>"@
}

/// A text element at (x,y) with the given content and the defaults: black,
/// left-aligned, font size 10.
pub fn text(x: i64, y: i64, txt: &str) -> (t: Text)
    ensures
        t.x == x,
        t.y == y,
        t.text@ == txt@,
        t.color == (Color { r: 0, g: 0, b: 0 }),
        t.align == Align::Left,
        t.size == 10,
{
    Text {
        x,
        y,
        text: txt.to_owned(),
        color: Color { r: 0, g: 0, b: 0 },
        align: Align::Left,
        size: 10,
    }
}

impl Text {
    /// Replaces the text color.
    pub fn color(self, color: Color) -> (t: Text)
        ensures
            t == (Text { color, ..self }),
    {
        Text { color, ..self }
    }

    /// Replaces the font size.
    pub fn size(self, size: i64) -> (t: Text)
        ensures
            t == (Text { size, ..self }),
    {
        Text { size, ..self }
    }

    /// Replaces the alignment.
    pub fn align(self, align: Align) -> (t: Text)
        ensures
            t == (Text { align, ..self }),
    {
        Text { align, ..self }
    }

    /// Translates the anchor point by (dx,dy).
    pub fn offset(self, dx: i64, dy: i64) -> (t: Text)
        requires
            i64::MIN <= self.x + dx <= i64::MAX,
            i64::MIN <= self.y + dy <= i64::MAX,
        ensures
            t.x == self.x + dx,
            t.y == self.y + dy,
            t.text == self.text,
            t.color == self.color,
            t.align == self.align,
            t.size == self.size,
    {
        Text { x: self.x + dx, y: self.y + dy, ..self }
    }

    /// Renders this element as an SVG `text` element.
    pub fn render(&self) -> (s: String)
        ensures
            s@ == text_text(*self),
    {
        let mut s = "<text x=\"".to_owned();
        s.append(decimal_i64(self.x).as_str());
        s.append("\" y=\"");
        s.append(decimal_i64(self.y).as_str());
        s.append("\" style=\"font-size:");
        s.append(decimal_i64(self.size).as_str());
        s.append("px;fill:");
        s.append(self.color.render().as_str());
        s.append(";");
        s.append(self.align.render().as_str());
        s.append("\"> ");
        s.append(self.text.as_str());
        s.append(" </text>");
        s
    }
}

/// A comment holding unescaped text. Renders as `<!-- text -->`.
#[derive(Clone, PartialEq, Debug)]
pub struct Comment {
    pub text: String,
}

/// The rendering of a comment: `<!-- text -->`.
pub open spec fn comment_text(c: Comment) -> Seq<char> {
    "<!-- "@ + c.text@ + " -->"@
}

/// A comment over the given text.
pub fn comment(text: &str) -> (c: Comment)
    ensures
        c.text@ == text@,
{
    Comment { text: text.to_owned() }
}

impl Comment {
    /// Renders this comment.
    pub fn render(&self) -> (s: String)
        ensures
            s@ == comment_text(*self),
    {
        let mut s = "<!-- ".to_owned();
        s.append(self.text.as_str());
        s.append(" -->");
        s
    }
}

} // verus!

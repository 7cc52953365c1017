//! Document framing: the root `svg` open and close tags, and an
//! indentation counter for pretty-printing nested output.

use crate::num::decimal_i64;
use crate::num::int_text;
use vstd::prelude::*;
use vstd::string::*;

verus! {

/// The root `svg` open tag with its viewBox. Renders as
/// `<svg xmlns="http://www.w3.org/2000/svg" viewBox="x y w h">`.
#[derive(Copy, Clone, PartialEq, Eq, Structural, Debug)]
pub struct BeginSvg {
    pub x: i64,
    pub y: i64,
    pub w: i64,
    pub h: i64,
}

/// The rendering of the root open tag.
pub open spec fn begin_svg_text(b: BeginSvg) -> Seq<char> {
    "<svg xmlns=\"http://www.w3.org/2000/svg\" viewBox=\""@ + int_text(b.x as int) + " "@
        + int_text(b.y as int) + " "@ + int_text(b.w as int) + " "@ + int_text(b.h as int) + "\">"@
}

impl Default for BeginSvg {
    /// The default viewBox: origin (0,0), size (1,1).
    fn default() -> (b: BeginSvg)
        ensures
            b == (BeginSvg { x: 0, y: 0, w: 1, h: 1 }),
    {
        BeginSvg { x: 0, y: 0, w: 1, h: 1 }
    }
}

impl BeginSvg {
    /// Renders the root open tag with this viewBox.
    pub fn render(&self) -> (s: String)
        ensures
            s@ == begin_svg_text(*self),
    {
        let mut s = "<svg xmlns=\"http://www.w3.org/2000/svg\" viewBox=\"".to_owned();
        s.append(decimal_i64(self.x).as_str());
        s.append(" ");
        s.append(decimal_i64(self.y).as_str());
        s.append(" ");
        s.append(decimal_i64(self.w).as_str());
        s.append(" ");
        s.append(decimal_i64(self.h).as_str());
        s.append("\">");
        s
    }
}

/// The root close tag. Renders as `</svg>`.
#[derive(Copy, Clone, PartialEq, Eq, Structural, Debug)]
pub struct EndSvg;

impl EndSvg {
    /// Renders the root close tag.
    pub fn render(&self) -> (s: String)
        ensures
            s@ == "</svg>"@,
    {
        "</svg>".to_owned()
    }
}

/// An indentation counter: the one mutate-in-place entity of the library.
/// Renders as `n` repetitions of a four-space unit.
#[derive(Copy, Clone, PartialEq, Eq, Structural, Debug)]
pub struct Indentation {
    pub n: u32,
}

/// The rendering of an indentation of depth `n`: `n` four-space units.
pub open spec fn indent_text(n: nat) -> Seq<char>
    decreases n,
{
    if n == 0 {
        Seq::empty()
    } else {
        indent_text((n - 1) as nat) + "    "@
    }
}

/// The counter after a push: one more level.
pub open spec fn pushed(n: u32) -> int {
    n + 1
}

/// The counter after a pop: one less level, saturating at zero. Popping at
/// depth zero is a no-op by design, rather than an underflowing decrement.
pub open spec fn popped(n: u32) -> int {
    if n == 0 {
        0
    } else {
        n - 1
    }
}

/// An indentation counter at depth `n`.
pub fn indent(n: u32) -> (i: Indentation)
    ensures
        i.n == n,
{
    Indentation { n }
}

impl Indentation {
    /// Raises the depth by one.
    pub fn push(&mut self)
        requires
            old(self).n < u32::MAX,
        ensures
            final(self).n == pushed(old(self).n),
    {
        self.n = self.n + 1;
    }

    /// Lowers the depth by one, saturating at zero.
    pub fn pop(&mut self)
        ensures
            final(self).n == popped(old(self).n),
    {
        if self.n > 0 {
            self.n = self.n - 1;
        }
    }

    /// Renders this indentation as `n` four-space units.
    pub fn render(&self) -> (s: String)
        ensures
            s@ == indent_text(self.n as nat),
    {
        let mut s = String::new();
        proof {
            assert(s@ =~= indent_text(0));
        }
        let mut i: u32 = 0;
        while i < self.n
            invariant
                i <= self.n,
                s@ == indent_text(i as nat),
            decreases self.n - i,
        {
            s.append("    ");
            i = i + 1;
        }
        s
    }
}

/// A pop right after a push returns the counter to its original depth.
pub proof fn lemma_push_pop(n: u32)
    requires
        n < u32::MAX,
    ensures
        popped(pushed(n) as u32) == n,
{
}

} // verus!

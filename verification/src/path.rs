//! Paths built from drawing operations, and polygons rendered as paths.

use crate::color::style_text;
use crate::color::style_with_fill;
use crate::color::style_with_opacity;
use crate::color::style_with_stroke;
use crate::color::style_with_stroke_opacity;
use crate::color::Fill;
use crate::color::Stroke;
use crate::color::Style;
use crate::num::decimal_i64;
use crate::num::int_text;
use vstd::prelude::*;
use vstd::slice::slice_index_get;
use vstd::string::*;

verus! {

/// One drawing instruction of a path's `d` attribute.
#[derive(Copy, Clone, PartialEq, Eq, Structural, Debug)]
pub enum PathOp {
    MoveTo { x: i64, y: i64 },
    LineTo { x: i64, y: i64 },
    QuadraticTo { ctrl_x: i64, ctrl_y: i64, x: i64, y: i64 },
    CubicTo { ctrl1_x: i64, ctrl1_y: i64, ctrl2_x: i64, ctrl2_y: i64, x: i64, y: i64 },
    Close,
}

/// The rendering of one path operation: its letter code and operands,
/// space-separated, with a trailing space.
pub open spec fn path_op_text(op: PathOp) -> Seq<char> {
    match op {
        PathOp::MoveTo { x, y } => "M "@ + int_text(x as int) + " "@ + int_text(y as int) + " "@,
        PathOp::LineTo { x, y } => "L "@ + int_text(x as int) + " "@ + int_text(y as int) + " "@,
        PathOp::QuadraticTo { ctrl_x, ctrl_y, x, y } => "Q "@ + int_text(ctrl_x as int) + " "@
            + int_text(ctrl_y as int) + " "@ + int_text(x as int) + " "@ + int_text(y as int)
            + " "@,
        PathOp::CubicTo { ctrl1_x, ctrl1_y, ctrl2_x, ctrl2_y, x, y } => "C "@ + int_text(
            ctrl1_x as int,
        ) + " "@ + int_text(ctrl1_y as int) + " "@ + int_text(ctrl2_x as int) + " "@ + int_text(
            ctrl2_y as int,
        ) + " "@ + int_text(x as int) + " "@ + int_text(y as int) + " "@,
        PathOp::Close => "Z "@,
    }
}

/// The concatenated rendering of a sequence of path operations, in order.
pub open spec fn path_ops_text(ops: Seq<PathOp>) -> Seq<char>
    decreases ops.len(),
{
    if ops.len() == 0 {
        Seq::empty()
    } else {
        path_ops_text(ops.drop_last()) + path_op_text(ops.last())
    }
}

impl PathOp {
    /// Renders this operation as its `d`-attribute fragment.
    pub fn render(&self) -> (s: String)
        ensures
            s@ == path_op_text(*self),
    {
        match self {
            PathOp::MoveTo { x, y } => {
                let mut s = "M ".to_owned();
                s.append(decimal_i64(*x).as_str());
                s.append(" ");
                s.append(decimal_i64(*y).as_str());
                s.append(" ");
                s
            },
            PathOp::LineTo { x, y } => {
                let mut s = "L ".to_owned();
                s.append(decimal_i64(*x).as_str());
                s.append(" ");
                s.append(decimal_i64(*y).as_str());
                s.append(" ");
                s
            },
            PathOp::QuadraticTo { ctrl_x, ctrl_y, x, y } => {
                let mut s = "Q ".to_owned();
                s.append(decimal_i64(*ctrl_x).as_str());
                s.append(" ");
                s.append(decimal_i64(*ctrl_y).as_str());
                s.append(" ");
                s.append(decimal_i64(*x).as_str());
                s.append(" ");
                s.append(decimal_i64(*y).as_str());
                s.append(" ");
                s
            },
            PathOp::CubicTo { ctrl1_x, ctrl1_y, ctrl2_x, ctrl2_y, x, y } => {
                let mut s = "C ".to_owned();
                s.append(decimal_i64(*ctrl1_x).as_str());
                s.append(" ");
                s.append(decimal_i64(*ctrl1_y).as_str());
                s.append(" ");
                s.append(decimal_i64(*ctrl2_x).as_str());
                s.append(" ");
                s.append(decimal_i64(*ctrl2_y).as_str());
                s.append(" ");
                s.append(decimal_i64(*x).as_str());
                s.append(" ");
                s.append(decimal_i64(*y).as_str());
                s.append(" ");
                s
            },
            PathOp::Close => "Z ".to_owned(),
        }
    }
}

/// A sequence of drawing operations with a style. Renders as an SVG `path`
/// element whose `d` attribute is the operations' concatenated rendering,
/// in call order.
#[derive(Clone, PartialEq, Debug)]
pub struct Path {
    pub ops: Vec<PathOp>,
    pub style: Style,
}

/// The rendering of a path:
/// `<path d="..." style="..." />`.
pub open spec fn path_text(p: Path) -> Seq<char> {
    "<path d=\""@ + path_ops_text(p.ops@) + "\" style=\""@ + style_text(p.style) + "\" />"@
}

/// An empty path with the default style.
pub fn path() -> (p: Path)
    ensures
        p.ops@ == Seq::<PathOp>::empty(),
        p.style == crate::color::default_style(),
{
    Path { ops: Vec::new(), style: Style::default() }
}

impl Path {
    /// Appends a move-to operation.
    pub fn move_to(self, x: i64, y: i64) -> (p: Path)
        ensures
            p.ops@ == self.ops@.push(PathOp::MoveTo { x, y }),
            p.style == self.style,
    {
        let mut p = self;
        p.ops.push(PathOp::MoveTo { x, y });
        p
    }

    /// Appends a line-to operation.
    pub fn line_to(self, x: i64, y: i64) -> (p: Path)
        ensures
            p.ops@ == self.ops@.push(PathOp::LineTo { x, y }),
            p.style == self.style,
    {
        let mut p = self;
        p.ops.push(PathOp::LineTo { x, y });
        p
    }

    /// Appends a quadratic Bezier operation.
    pub fn quadratic_bezier_to(self, ctrl_x: i64, ctrl_y: i64, x: i64, y: i64) -> (p: Path)
        ensures
            p.ops@ == self.ops@.push(PathOp::QuadraticTo { ctrl_x, ctrl_y, x, y }),
            p.style == self.style,
    {
        let mut p = self;
        p.ops.push(PathOp::QuadraticTo { ctrl_x, ctrl_y, x, y });
        p
    }

    /// Appends a cubic Bezier operation.
    pub fn cubic_bezier_to(
        self,
        ctrl1_x: i64,
        ctrl1_y: i64,
        ctrl2_x: i64,
        ctrl2_y: i64,
        x: i64,
        y: i64,
    ) -> (p: Path)
        ensures
            p.ops@ == self.ops@.push(
                PathOp::CubicTo { ctrl1_x, ctrl1_y, ctrl2_x, ctrl2_y, x, y },
            ),
            p.style == self.style,
    {
        let mut p = self;
        p.ops.push(PathOp::CubicTo { ctrl1_x, ctrl1_y, ctrl2_x, ctrl2_y, x, y });
        p
    }

    /// Appends a close operation.
    pub fn close(self) -> (p: Path)
        ensures
            p.ops@ == self.ops@.push(PathOp::Close),
            p.style == self.style,
    {
        let mut p = self;
        p.ops.push(PathOp::Close);
        p
    }

    /// Replaces the fill attribute of this path's style.
    pub fn fill(self, fill: Fill) -> (p: Path)
        ensures
            p.ops@ == self.ops@,
            p.style == style_with_fill(self.style, fill),
    {
        let style = Style { fill, ..self.style };
        Path { style, ..self }
    }

    /// Replaces the stroke attribute of this path's style.
    pub fn stroke(self, stroke: Stroke) -> (p: Path)
        ensures
            p.ops@ == self.ops@,
            p.style == style_with_stroke(self.style, stroke),
    {
        let style = Style { stroke, ..self.style };
        Path { style, ..self }
    }

    /// Replaces the fill opacity of this path's style.
    pub fn opacity(self, opacity: i64) -> (p: Path)
        ensures
            p.ops@ == self.ops@,
            p.style == style_with_opacity(self.style, opacity),
    {
        let style = Style { opacity, ..self.style };
        Path { style, ..self }
    }

    /// Replaces the stroke opacity of this path's style.
    pub fn stroke_opacity(self, opacity: i64) -> (p: Path)
        ensures
            p.ops@ == self.ops@,
            p.style == style_with_stroke_opacity(self.style, opacity),
    {
        let style = Style { stroke_opacity: opacity, ..self.style };
        Path { style, ..self }
    }

    /// Replaces the whole style.
    pub fn style(self, style: Style) -> (p: Path)
        ensures
            p.ops@ == self.ops@,
            p.style == style,
    {
        Path { style, ..self }
    }

    /// Renders this path as an SVG `path` element.
    pub fn render(&self) -> (s: String)
        ensures
            s@ == path_text(*self),
    {
        let mut s = "<path d=\"".to_owned();
        proof {
            assert(self.ops@.subrange(0, 0) =~= Seq::<PathOp>::empty());
            assert(s@ + path_ops_text(self.ops@.subrange(0, 0)) =~= s@);
        }
        let mut i: usize = 0;
        while i < self.ops.len()
            invariant
                i <= self.ops@.len(),
                s@ == "<path d=\""@ + path_ops_text(self.ops@.subrange(0, i as int)),
            decreases self.ops@.len() - i,
        {
            let op = *slice_index_get(self.ops.as_slice(), i);
            s.append(op.render().as_str());
            proof {
                assert(self.ops@.subrange(0, i + 1).drop_last() =~= self.ops@.subrange(0, i as int));
                assert(self.ops@.subrange(0, i + 1).last() == self.ops@[i as int]);
                assert(s@ =~= "<path d=\""@ + path_ops_text(self.ops@.subrange(0, i + 1)));
            }
            i = i + 1;
        }
        proof {
            assert(self.ops@.subrange(0, self.ops@.len() as int) =~= self.ops@);
        }
        s.append("\" style=\"");
        s.append(self.style.render().as_str());
        s.append("\" />");
        s
    }
}

/// The point-visiting part of a polygon's `d` attribute: `M x0 y0 ` for the
/// first point, then `L xi yi ` for each later point, in order.
pub open spec fn poly_points_text(pts: Seq<(i64, i64)>) -> Seq<char>
    decreases pts.len(),
{
    if pts.len() == 0 {
        Seq::empty()
    } else if pts.len() == 1 {
        "M "@ + int_text(pts[0].0 as int) + " "@ + int_text(pts[0].1 as int) + " "@
    } else {
        poly_points_text(pts.drop_last()) + "L "@ + int_text(pts.last().0 as int) + " "@
            + int_text(pts.last().1 as int) + " "@
    }
}

/// The full `d` attribute of a polygon: the visited points, then `Z` if and
/// only if the polygon is closed and has at least one point.
pub open spec fn poly_data_text(pts: Seq<(i64, i64)>, closed: bool) -> Seq<char> {
    if closed && pts.len() > 0 {
        poly_points_text(pts) + "Z"@
    } else {
        poly_points_text(pts)
    }
}

/// An ordered sequence of points with a closed flag and a style. Renders
/// as an SVG `path` element.
#[derive(Clone, PartialEq, Debug)]
pub struct Polygon {
    pub points: Vec<(i64, i64)>,
    pub closed: bool,
    pub style: Style,
}

/// The rendering of a polygon:
/// `<path d="..." style="..."/>`.
pub open spec fn poly_text(p: Polygon) -> Seq<char> {
    "<path d=\""@ + poly_data_text(p.points@, p.closed) + "\" style=\""@ + style_text(p.style)
        + "\"/>"@
}

/// A closed polygon over the given points, with the default style.
pub fn polygon(pts: &[(i64, i64)]) -> (p: Polygon)
    ensures
        p.points@ == pts@,
        p.closed == true,
        p.style == crate::color::default_style(),
{
    let mut points: Vec<(i64, i64)> = Vec::new();
    let mut i: usize = 0;
    while i < pts.len()
        invariant
            i <= pts@.len(),
            points@ == pts@.subrange(0, i as int),
        decreases pts@.len() - i,
    {
        points.push(*slice_index_get(pts, i));
        proof {
            assert(points@ =~= pts@.subrange(0, i + 1));
        }
        i = i + 1;
    }
    proof {
        assert(pts@.subrange(0, pts@.len() as int) =~= pts@);
    }
    Polygon { points, closed: true, style: Style::default() }
}

/// A closed triangle over three points, with the default style.
pub fn triangle(x1: i64, y1: i64, x2: i64, y2: i64, x3: i64, y3: i64) -> (p: Polygon)
    ensures
        p.points@ == seq![(x1, y1), (x2, y2), (x3, y3)],
        p.closed == true,
        p.style == crate::color::default_style(),
{
    let pts: [(i64, i64); 3] = [(x1, y1), (x2, y2), (x3, y3)];
    let p = polygon(pts.as_slice());
    proof {
        assert(p.points@ =~= seq![(x1, y1), (x2, y2), (x3, y3)]);
    }
    p
}

impl Polygon {
    /// Marks the polygon as open: its rendering gets no closing `Z`.
    pub fn open(self) -> (p: Polygon)
        ensures
            p.points@ == self.points@,
            p.closed == false,
            p.style == self.style,
    {
        Polygon { closed: false, ..self }
    }

    /// Replaces the fill attribute of this polygon's style.
    pub fn fill(self, fill: Fill) -> (p: Polygon)
        ensures
            p.points@ == self.points@,
            p.closed == self.closed,
            p.style == style_with_fill(self.style, fill),
    {
        let style = Style { fill, ..self.style };
        Polygon { style, ..self }
    }

    /// Replaces the stroke attribute of this polygon's style.
    pub fn stroke(self, stroke: Stroke) -> (p: Polygon)
        ensures
            p.points@ == self.points@,
            p.closed == self.closed,
            p.style == style_with_stroke(self.style, stroke),
    {
        let style = Style { stroke, ..self.style };
        Polygon { style, ..self }
    }

    /// Replaces the fill opacity of this polygon's style.
    pub fn opacity(self, opacity: i64) -> (p: Polygon)
        ensures
            p.points@ == self.points@,
            p.closed == self.closed,
            p.style == style_with_opacity(self.style, opacity),
    {
        let style = Style { opacity, ..self.style };
        Polygon { style, ..self }
    }

    /// Replaces the stroke opacity of this polygon's style.
    pub fn stroke_opacity(self, opacity: i64) -> (p: Polygon)
        ensures
            p.points@ == self.points@,
            p.closed == self.closed,
            p.style == style_with_stroke_opacity(self.style, opacity),
    {
        let style = Style { stroke_opacity: opacity, ..self.style };
        Polygon { style, ..self }
    }

    /// Replaces the whole style.
    pub fn style(self, style: Style) -> (p: Polygon)
        ensures
            p.points@ == self.points@,
            p.closed == self.closed,
            p.style == style,
    {
        Polygon { style, ..self }
    }

    /// Renders this polygon as an SVG `path` element.
    pub fn render(&self) -> (s: String)
        ensures
            s@ == poly_text(*self),
    {
        let mut s = "<path d=\"".to_owned();
        proof {
            assert(self.points@.subrange(0, 0) =~= Seq::<(i64, i64)>::empty());
            assert(s@ + poly_points_text(self.points@.subrange(0, 0)) =~= s@);
        }
        let mut i: usize = 0;
        while i < self.points.len()
            invariant
                i <= self.points@.len(),
                s@ == "<path d=\""@ + poly_points_text(self.points@.subrange(0, i as int)),
            decreases self.points@.len() - i,
        {
            let pt = *slice_index_get(self.points.as_slice(), i);
            if i == 0 {
                s.append("M ");
            } else {
                s.append("L ");
            }
            s.append(decimal_i64(pt.0).as_str());
            s.append(" ");
            s.append(decimal_i64(pt.1).as_str());
            s.append(" ");
            proof {
                assert(self.points@.subrange(0, i + 1).drop_last() =~= self.points@.subrange(
                    0,
                    i as int,
                ));
                assert(self.points@.subrange(0, i + 1).last() == self.points@[i as int]);
                assert(s@ =~= "<path d=\""@ + poly_points_text(self.points@.subrange(0, i + 1)));
            }
            i = i + 1;
        }
        proof {
            assert(self.points@.subrange(0, self.points@.len() as int) =~= self.points@);
        }
        if self.closed && self.points.len() > 0 {
            s.append("Z");
        }
        s.append("\" style=\"");
        s.append(self.style.render().as_str());
        s.append("\"/>");
        s
    }
}

} // verus!

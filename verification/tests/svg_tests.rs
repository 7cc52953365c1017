use svg_fmt::black;
use svg_fmt::blue;
use svg_fmt::comment;
use svg_fmt::green;
use svg_fmt::indent;
use svg_fmt::line_segment;
use svg_fmt::path;
use svg_fmt::polygon;
use svg_fmt::rectangle;
use svg_fmt::red;
use svg_fmt::rgb;
use svg_fmt::text;
use svg_fmt::triangle;
use svg_fmt::white;
use svg_fmt::Align;
use svg_fmt::BeginSvg;
use svg_fmt::Circle;
use svg_fmt::EndSvg;
use svg_fmt::Fill;
use svg_fmt::Stroke;
use svg_fmt::Style;

#[test]
fn foo() {
    println!("{}", BeginSvg { w: 800, h: 600, ..Default::default() }.render());
    println!(
        "    {}",
        rectangle(20, 50, 200, 100)
            .fill(Fill::Color(red()))
            .stroke(Stroke::Color(black(), 3))
            .border_radius(5)
            .render()
    );
    println!("    {}", text(25, 100, "Foo!").size(42).color(white()).render());
    println!("{}", EndSvg.render());
}

#[test]
fn color_renders_as_decimal_rgb_triple() {
    assert_eq!(rgb(1, 2, 3).render(), "rgb(1,2,3)");
    assert_eq!(black().render(), "rgb(0,0,0)");
    assert_eq!(white().render(), "rgb(255,255,255)");
    assert_eq!(red().render(), "rgb(255,0,0)");
    assert_eq!(green().render(), "rgb(0,255,0)");
    assert_eq!(blue().render(), "rgb(0,0,255)");
    assert_eq!(rgb(10, 100, 200).render(), "rgb(10,100,200)");
}

#[test]
fn default_style_rendering() {
    assert_eq!(
        Style::default().render(),
        "fill:rgb(0,0,0);stroke:none;fill-opacity:1;stroke-opacity:1;"
    );
}

#[test]
fn fill_and_stroke_fragments() {
    assert_eq!(Fill::Color(blue()).render(), "fill:rgb(0,0,255)");
    assert_eq!(Fill::NoFill.render(), "fill:none");
    assert_eq!(
        Stroke::Color(green(), 2).render(),
        "stroke:rgb(0,255,0);stroke-width:2"
    );
    assert_eq!(Stroke::NoStroke.render(), "stroke:none");
}

#[test]
fn mutator_order_is_independent_for_independent_fields() {
    let a = rectangle(1, 2, 3, 4)
        .fill(Fill::Color(red()))
        .stroke(Stroke::Color(black(), 3));
    let b = rectangle(1, 2, 3, 4)
        .stroke(Stroke::Color(black(), 3))
        .fill(Fill::Color(red()));
    assert_eq!(a, b);
    assert_eq!(a.render(), b.render());
}

#[test]
fn rectangle_golden_rendering() {
    let r = rectangle(20, 50, 200, 100)
        .fill(Fill::Color(red()))
        .stroke(Stroke::Color(black(), 3))
        .border_radius(5);
    assert_eq!(
        r.render(),
        "<rect x=\"20\" y=\"50\" width=\"200\" height=\"100\" ry=\"5\" style=\"fill:rgb(255,0,0);stroke:rgb(0,0,0);stroke-width:3;fill-opacity:1;stroke-opacity:1;\" />"
    );
}

#[test]
fn rectangle_offset_and_inflate() {
    let r = rectangle(1, 2, 3, 4).offset(10, 20);
    assert_eq!((r.x, r.y, r.w, r.h), (11, 22, 3, 4));
    let r = rectangle(1, 2, 3, 4).inflate(1, 2);
    assert_eq!((r.x, r.y, r.w, r.h), (0, 0, 5, 8));
}

#[test]
fn rectangle_sides_fixed_order() {
    let r = rectangle(0, 0, 10, 5);
    let s = r.sides();
    // top, bottom, left, right
    assert_eq!((s[0].x1, s[0].y1, s[0].x2, s[0].y2), (0, 0, 10, 0));
    assert_eq!((s[1].x1, s[1].y1, s[1].x2, s[1].y2), (0, 5, 10, 5));
    assert_eq!((s[2].x1, s[2].y1, s[2].x2, s[2].y2), (0, 0, 0, 5));
    assert_eq!((s[3].x1, s[3].y1, s[3].x2, s[3].y2), (10, 0, 10, 5));
    for seg in s.iter() {
        assert_eq!(seg.color, black());
        assert_eq!(seg.width, 1);
        assert_eq!(seg.opacity, 1);
    }
}

#[test]
fn circle_golden_rendering() {
    let c = Circle { x: 10, y: 20, radius: 5, style: Style::default() };
    assert_eq!(
        c.render(),
        "<circle cx=\"10\" cy=\"20\" r=\"5\" style=\"fill:rgb(0,0,0);stroke:none;fill-opacity:1;stroke-opacity:1;\" />"
    );
    let c = c.offset(5, 5).inflate(3);
    assert_eq!((c.x, c.y, c.radius), (15, 25, 8));
}

#[test]
fn polygon_closed_and_open_rendering() {
    let p = polygon(&[(0, 0), (1, 0), (1, 1)]);
    assert_eq!(
        p.render(),
        "<path d=\"M 0 0 L 1 0 L 1 1 Z\" style=\"fill:rgb(0,0,0);stroke:none;fill-opacity:1;stroke-opacity:1;\"/>"
    );
    let p = polygon(&[(0, 0), (1, 0), (1, 1)]).open();
    assert_eq!(
        p.render(),
        "<path d=\"M 0 0 L 1 0 L 1 1 \" style=\"fill:rgb(0,0,0);stroke:none;fill-opacity:1;stroke-opacity:1;\"/>"
    );
}

#[test]
fn empty_polygon_renders_empty_path_data() {
    let p = polygon(&[]);
    assert_eq!(
        p.render(),
        "<path d=\"\" style=\"fill:rgb(0,0,0);stroke:none;fill-opacity:1;stroke-opacity:1;\"/>"
    );
}

#[test]
fn triangle_is_a_three_point_closed_polygon() {
    let t = triangle(0, 0, 2, 0, 1, 2);
    assert_eq!(t.points, vec![(0, 0), (2, 0), (1, 2)]);
    assert!(t.closed);
    assert_eq!(
        t.render(),
        "<path d=\"M 0 0 L 2 0 L 1 2 Z\" style=\"fill:rgb(0,0,0);stroke:none;fill-opacity:1;stroke-opacity:1;\"/>"
    );
}

#[test]
fn path_builder_golden_rendering() {
    let p = path().move_to(0, 0).line_to(1, 1).close();
    assert_eq!(
        p.render(),
        "<path d=\"M 0 0 L 1 1 Z \" style=\"fill:rgb(0,0,0);stroke:none;fill-opacity:1;stroke-opacity:1;\" />"
    );
}

#[test]
fn path_curve_ops_rendering() {
    let p = path()
        .move_to(0, 0)
        .quadratic_bezier_to(1, 2, 3, 4)
        .cubic_bezier_to(5, 6, 7, 8, 9, 10);
    assert_eq!(
        p.render(),
        "<path d=\"M 0 0 Q 1 2 3 4 C 5 6 7 8 9 10 \" style=\"fill:rgb(0,0,0);stroke:none;fill-opacity:1;stroke-opacity:1;\" />"
    );
}

#[test]
fn empty_path_rendering() {
    assert_eq!(
        path().render(),
        "<path d=\"\" style=\"fill:rgb(0,0,0);stroke:none;fill-opacity:1;stroke-opacity:1;\" />"
    );
}

#[test]
fn line_segment_golden_rendering() {
    let l = line_segment(0, 1, 10, 11);
    assert_eq!(
        l.render(),
        "<path d=\"M 0 1 L 10 11\" style=\"stroke:rgb(0,0,0);stroke-width:1;stroke-opacity:1\"/>"
    );
    let l = l.color(red()).width(3).opacity(2).offset(1, 1);
    assert_eq!(
        l.render(),
        "<path d=\"M 1 2 L 11 12\" style=\"stroke:rgb(255,0,0);stroke-width:3;stroke-opacity:2\"/>"
    );
}

#[test]
fn flip_to_moves_endpoints_by_the_axis_rule() {
    // candidate greater than x1: old x2 becomes x1, candidate becomes x2
    let l = line_segment(0, 0, 10, 0).flip_to(15, 0);
    assert_eq!((l.x1, l.x2), (10, 15));
    // candidate less than x1: old x1 becomes x2, candidate becomes x1
    let l = line_segment(0, 0, 10, 0).flip_to(-5, 0);
    assert_eq!((l.x1, l.x2), (-5, 0));
    // a candidate of exactly zero leaves the axis unchanged
    let l = line_segment(0, 0, 10, 0).flip_to(0, 0);
    assert_eq!((l.x1, l.x2), (0, 10));
    // the y axis follows the same rule, independently
    let l = line_segment(0, 2, 10, 6).flip_to(0, 4);
    assert_eq!((l.x1, l.x2, l.y1, l.y2), (0, 10, 6, 4));
}

#[test]
fn text_golden_rendering() {
    let t = text(25, 100, "Foo!").size(42).color(white());
    assert_eq!(
        t.render(),
        "<text x=\"25\" y=\"100\" style=\"font-size:42px;fill:rgb(255,255,255);text-anchor:start;text-align:left;\"> Foo! </text>"
    );
    let t = text(0, 0, "hi").align(Align::Center).offset(3, 4);
    assert_eq!(
        t.render(),
        "<text x=\"3\" y=\"4\" style=\"font-size:10px;fill:rgb(0,0,0);text-anchor:middle;text-align:center;\"> hi </text>"
    );
}

#[test]
fn align_fragments() {
    assert_eq!(Align::Left.render(), "text-anchor:start;text-align:left;");
    assert_eq!(Align::Right.render(), "text-anchor:end;text-align:right;");
    assert_eq!(Align::Center.render(), "text-anchor:middle;text-align:center;");
}

#[test]
fn color_converts_to_fill_and_stroke() {
    assert_eq!(Fill::from(red()), Fill::Color(red()));
    assert_eq!(Stroke::from(blue()), Stroke::Color(blue(), 1));
    let r = rectangle(0, 0, 1, 1).fill(red().into()).stroke(green().into());
    assert_eq!(r.style.fill, Fill::Color(red()));
    assert_eq!(r.style.stroke, Stroke::Color(green(), 1));
}

#[test]
fn comment_rendering() {
    assert_eq!(comment("hello").render(), "<!-- hello -->");
}

#[test]
fn svg_framing_tags() {
    assert_eq!(
        BeginSvg { x: 0, y: 0, w: 800, h: 600 }.render(),
        "<svg xmlns=\"http://www.w3.org/2000/svg\" viewBox=\"0 0 800 600\">"
    );
    assert_eq!(
        BeginSvg::default().render(),
        "<svg xmlns=\"http://www.w3.org/2000/svg\" viewBox=\"0 0 1 1\">"
    );
    assert_eq!(EndSvg.render(), "</svg>");
}

#[test]
fn indentation_push_pop_and_rendering() {
    let mut ind = indent(2);
    ind.push();
    assert_eq!(ind.n, 3);
    ind.pop();
    assert_eq!(ind.n, 2);
    // the pop-at-zero policy: saturate, never wrap
    let mut ind = indent(0);
    ind.pop();
    assert_eq!(ind.n, 0);
    assert_eq!(indent(3).render(), "            ");
    assert_eq!(indent(3).render().len(), 12);
    assert_eq!(indent(0).render(), "");
}

#[test]
fn decimal_rendering_of_scalars() {
    let r = rectangle(-5, 0, 1, 9223372036854775807).border_radius(-1);
    assert_eq!(
        r.render(),
        "<rect x=\"-5\" y=\"0\" width=\"1\" height=\"9223372036854775807\" ry=\"-1\" style=\"fill:rgb(0,0,0);stroke:none;fill-opacity:1;stroke-opacity:1;\" />"
    );
    let l = line_segment(i64::MIN, 0, 0, 0);
    assert_eq!(
        l.render(),
        "<path d=\"M -9223372036854775808 0 L 0 0\" style=\"stroke:rgb(0,0,0);stroke-width:1;stroke-opacity:1\"/>"
    );
}

#[test]
fn negative_values_render_verbatim() {
    // no domain validation: negative widths and opacities pass through
    let r = rectangle(1, 1, 2, 2)
        .opacity(-3)
        .stroke_opacity(-4)
        .stroke(Stroke::Color(black(), -2));
    assert_eq!(
        r.render(),
        "<rect x=\"1\" y=\"1\" width=\"2\" height=\"2\" ry=\"0\" style=\"fill:rgb(0,0,0);stroke:rgb(0,0,0);stroke-width:-2;fill-opacity:-3;stroke-opacity:-4;\" />"
    );
}

#[test]
fn style_replacement_is_wholesale() {
    let s = Style {
        fill: Fill::NoFill,
        stroke: Stroke::Color(blue(), 7),
        opacity: 0,
        stroke_opacity: 1,
    };
    let r = rectangle(0, 0, 1, 1).style(s);
    assert_eq!(r.style, s);
    assert_eq!(
        r.render(),
        "<rect x=\"0\" y=\"0\" width=\"1\" height=\"1\" ry=\"0\" style=\"fill:none;stroke:rgb(0,0,255);stroke-width:7;fill-opacity:0;stroke-opacity:1;\" />"
    );
}

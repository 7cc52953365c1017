//! A small builder and text-serialization library for SVG markup.
//!
//! Callers construct values for SVG primitives — rectangles, circles,
//! polygons, paths, line segments, text, colors, styles — with chainable
//! configuration methods, then render each value to its exact textual SVG
//! form. Every rendering function carries a contract that pins the output
//! down character by character over spec-level models of the values.
//!
//! All scalar quantities (coordinates, lengths, widths, opacities) are
//! signed integers rendered in plain decimal; color channels are bytes.

pub mod circle;
pub mod color;
pub mod frame;
pub mod line;
pub mod num;
pub mod path;
pub mod rect;
pub mod text;

pub use circle::Circle;
pub use color::black;
pub use color::blue;
pub use color::green;
pub use color::red;
pub use color::rgb;
pub use color::white;
pub use color::Align;
pub use color::Color;
pub use color::Fill;
pub use color::Stroke;
pub use color::Style;
pub use frame::indent;
pub use frame::BeginSvg;
pub use frame::EndSvg;
pub use frame::Indentation;
pub use line::line_segment;
pub use line::LineSegment;
pub use num::dec_digits;
pub use num::decimal_i64;
pub use num::decimal_u64;
pub use num::dig_char;
pub use num::int_text;
pub use path::path;
pub use path::polygon;
pub use path::triangle;
pub use path::Path;
pub use path::PathOp;
pub use path::Polygon;
pub use rect::rectangle;
pub use rect::Rectangle;
pub use text::comment;
pub use text::text;
pub use text::Comment;
pub use text::Text;

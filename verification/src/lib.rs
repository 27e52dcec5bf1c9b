//! A 2D curve and path kernel for Bézier-based vector graphics.
//!
//! The crate models points, vectors, rectangles, Bézier segments and
//! composite paths, together with the structural algorithms on them:
//! the element/segment duality of a path, segment lookup, subpath
//! reversal, and polyline intersection scanning.  Coordinate arithmetic
//! is delegated to the `kurbo` crate behind a small trusted boundary;
//! everything structural is verified.

pub mod affine;
pub mod arc;
pub mod bezpath;
pub mod circle;
pub mod constpoint;
pub mod cubicbez;
pub mod ellipse;
pub mod insets;
pub mod interop;
pub mod line;
pub mod pathel;
pub mod pathseg;
pub mod point;
pub mod quadbez;
pub mod quadspline;
pub mod rect;
pub mod size;
pub mod translatescale;
pub mod vec2;

pub use affine::Affine;
pub use arc::Arc;
pub use bezpath::BezPath;
pub use bezpath::ElementIterator;
pub use bezpath::SegmentIterator;
pub use circle::Circle;
pub use circle::CircleSegment;
pub use constpoint::ConstPoint;
pub use cubicbez::CubicBez;
pub use ellipse::Ellipse;
pub use insets::Insets;
pub use line::Line;
pub use pathel::PathEl;
pub use pathseg::LineIntersection;
pub use pathseg::PathSeg;
pub use pathseg::SegDeriv;
pub use point::Point;
pub use quadbez::QuadBez;
pub use quadspline::QuadSpline;
pub use rect::Rect;
pub use size::Size;
pub use translatescale::TranslateScale;
pub use vec2::Vec2;

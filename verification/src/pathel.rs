//! A single drawing instruction of a path.

use crate::point::finite_of;
use crate::point::nan_of;
use crate::point::Point;
use vstd::prelude::*;

verus! {

/// An element of a Bézier path: one drawing instruction.
///
/// A path is a sequence of these.  `MoveTo` starts a new subpath,
/// `LineTo`, `QuadTo` and `CurveTo` extend the current subpath with a
/// segment, and `ClosePath` closes the current subpath back to its
/// starting point.
#[derive(Clone, Copy, Debug)]
pub enum PathEl {
    /// Start a new subpath at the given point.
    MoveTo(Point),
    /// Draw a line from the current location to the point.
    LineTo(Point),
    /// Draw a quadratic bezier using the control point and the end point.
    QuadTo(Point, Point),
    /// Draw a cubic bezier using the two control points and the end point.
    CurveTo(Point, Point, Point),
    /// Close off the path.
    ClosePath,
}

impl PathEl {
    /// The end point of the element, if it has one.
    pub open spec fn end_point_spec(self) -> Option<Point> {
        match self {
            PathEl::MoveTo(p) => Some(p),
            PathEl::LineTo(p) => Some(p),
            PathEl::QuadTo(_, p2) => Some(p2),
            PathEl::CurveTo(_, _, p3) => Some(p3),
            PathEl::ClosePath => None,
        }
    }

    /// Get the end point of the path element, if it exists.
    pub fn end_point(&self) -> (r: Option<Point>)
        ensures
            r == self.end_point_spec(),
    {
        match self {
            PathEl::MoveTo(p) => Some(*p),
            PathEl::LineTo(p) => Some(*p),
            PathEl::QuadTo(_, p2) => Some(*p2),
            PathEl::CurveTo(_, _, p3) => Some(*p3),
            PathEl::ClosePath => None,
        }
    }

    /// Whether every control point of the element is finite.
    pub open spec fn finite_spec(self) -> bool {
        match self {
            PathEl::MoveTo(p) => finite_of(p),
            PathEl::LineTo(p) => finite_of(p),
            PathEl::QuadTo(p1, p2) => finite_of(p1) && finite_of(p2),
            PathEl::CurveTo(p1, p2, p3) => finite_of(p1) && finite_of(p2) && finite_of(p3),
            PathEl::ClosePath => true,
        }
    }

    /// Whether some control point of the element is NaN.
    pub open spec fn nan_spec(self) -> bool {
        match self {
            PathEl::MoveTo(p) => nan_of(p),
            PathEl::LineTo(p) => nan_of(p),
            PathEl::QuadTo(p1, p2) => nan_of(p1) || nan_of(p2),
            PathEl::CurveTo(p1, p2, p3) => nan_of(p1) || nan_of(p2) || nan_of(p3),
            PathEl::ClosePath => false,
        }
    }

    /// Is this path element finite?
    pub fn is_finite(&self) -> (r: bool)
        ensures
            r == self.finite_spec(),
    {
        match self {
            PathEl::MoveTo(p) => p.is_finite(),
            PathEl::LineTo(p) => p.is_finite(),
            PathEl::QuadTo(p1, p2) => p1.is_finite() && p2.is_finite(),
            PathEl::CurveTo(p1, p2, p3) => {
                p1.is_finite() && p2.is_finite() && p3.is_finite()
            },
            PathEl::ClosePath => true,
        }
    }

    /// Is this path element NaN?
    pub fn is_nan(&self) -> (r: bool)
        ensures
            r == self.nan_spec(),
    {
        match self {
            PathEl::MoveTo(p) => p.is_nan(),
            PathEl::LineTo(p) => p.is_nan(),
            PathEl::QuadTo(p1, p2) => p1.is_nan() || p2.is_nan(),
            PathEl::CurveTo(p1, p2, p3) => p1.is_nan() || p2.is_nan() || p3.is_nan(),
            PathEl::ClosePath => false,
        }
    }
}

} // verus!

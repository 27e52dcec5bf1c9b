//! A straight line segment.

use crate::constpoint::ConstPoint;
use crate::point::finite_of;
use crate::point::moved_back;
use crate::point::moved_by;
use crate::point::nan_of;
use crate::point::Point;
use crate::vec2::Vec2;
use kurbo::Line as KLine;
use vstd::prelude::*;

verus! {

/// The derivative of a line, a constant: a function of the line
/// alone.
pub uninterp spec fn line_deriv_of(l: Line) -> ConstPoint;

/// A single line segment, from `p0` to `p1`.
#[derive(Clone, Copy, Debug)]
pub struct Line {
    /// The line's start point.
    pub p0: Point,
    /// The line's end point.
    pub p1: Point,
}

impl Line {
    /// Create a new line from its two end points.
    pub fn new(p0: Point, p1: Point) -> (r: Line)
        ensures
            r.p0 == p0,
            r.p1 == p1,
    {
        Line { p0, p1 }
    }

    /// The line's start point.
    pub fn get_p0(&self) -> (r: Point)
        ensures
            r == self.p0,
    {
        self.p0
    }

    /// The line's end point.
    pub fn get_p1(&self) -> (r: Point)
        ensures
            r == self.p1,
    {
        self.p1
    }

    /// Replace the start point.
    pub fn set_p0(&mut self, p0: Point)
        ensures
            final(self).p0 == p0,
            final(self).p1 == old(self).p1,
    {
        self.p0 = p0;
    }

    /// Replace the end point.
    pub fn set_p1(&mut self, p1: Point)
        ensures
            final(self).p0 == old(self).p0,
            final(self).p1 == p1,
    {
        self.p1 = p1;
    }

    /// The start point of the segment, as a parametric curve.
    pub fn start(&self) -> (r: Point)
        ensures
            r == self.p0,
    {
        self.p0
    }

    /// The end point of the segment, as a parametric curve.
    pub fn end(&self) -> (r: Point)
        ensures
            r == self.p1,
    {
        self.p1
    }

    /// The line translated by a displacement: both end points are
    /// translated.
    pub fn add_vec2(&self, rhs: Vec2) -> (r: Line)
        ensures
            r.p0 == moved_by(self.p0, rhs),
            r.p1 == moved_by(self.p1, rhs),
    {
        Line { p0: self.p0.add_vec2(rhs), p1: self.p1.add_vec2(rhs) }
    }

    /// The line translated backwards by a displacement: both end
    /// points are translated.
    pub fn sub_vec2(&self, rhs: Vec2) -> (r: Line)
        ensures
            r.p0 == moved_back(self.p0, rhs),
            r.p1 == moved_back(self.p1, rhs),
    {
        Line { p0: self.p0.sub_vec2(rhs), p1: self.p1.sub_vec2(rhs) }
    }

    /// Whether both end points of the line are finite.
    pub open spec fn finite_spec(self) -> bool {
        finite_of(self.p0) && finite_of(self.p1)
    }

    /// Whether an end point of the line is NaN.
    pub open spec fn nan_spec(self) -> bool {
        nan_of(self.p0) || nan_of(self.p1)
    }

    /// Is this line finite?
    pub fn is_finite(&self) -> (r: bool)
        ensures
            r == self.finite_spec(),
    {
        self.p0.is_finite() && self.p1.is_finite()
    }

    /// Is this line NaN?
    pub fn is_nan(&self) -> (r: bool)
        ensures
            r == self.nan_spec(),
    {
        self.p0.is_nan() || self.p1.is_nan()
    }

    /// The same segment as a `kurbo` value.
    ///
    /// Relies on `kurbo::Line::new` being a plain constructor.
    #[verifier::external_body]
    pub(crate) fn to_kurbo(&self) -> KLine {
        KLine::new(self.p0.0, self.p1.0)
    }

    /// The `kurbo` segment as a value of this crate.
    #[verifier::external_body]
    pub(crate) fn from_kurbo(l: &KLine) -> Line {
        Line { p0: Point(l.p0), p1: Point(l.p1) }
    }

    /// Computes the point where two lines, if extended to infinity,
    /// would cross.
    ///
    /// Relies on `kurbo::Line::crossing_point`, which returns `None`
    /// when the two direction vectors have zero cross product (the
    /// lines are parallel or degenerate).
    #[verifier::external_body]
    pub fn crossing_point(&self, other: &Line) -> Option<Point> {
        self.to_kurbo().crossing_point(other.to_kurbo()).map(Point)
    }

    /// The derivative of the line, a constant.
    ///
    /// Relies on `kurbo::Line`'s `ParamCurveDeriv` implementation,
    /// pure coordinate arithmetic, a function of the line alone.
    #[verifier::external_body]
    pub fn deriv(&self) -> (r: ConstPoint)
        ensures
            r == line_deriv_of(*self),
    {
        ConstPoint(kurbo::ParamCurveDeriv::deriv(&self.to_kurbo()))
    }
}

} // verus!

//! A quadratic Bézier segment.

use crate::cubicbez::CubicBez;
use crate::line::Line;
use crate::point::finite_of;
use crate::point::nan_of;
use crate::point::Point;
use kurbo::QuadBez as KQuadBez;
use vstd::prelude::*;

verus! {

/// The derivative of a quadratic Bézier, a line: a function of the
/// quadratic alone.
pub uninterp spec fn quad_deriv_of(q: QuadBez) -> Line;

/// The degree elevation of a quadratic Bézier, a cubic: a function of
/// the quadratic alone.
pub uninterp spec fn raise_of(q: QuadBez) -> CubicBez;

/// A single quadratic Bézier segment with control points `p0`, `p1`
/// and `p2`.
#[derive(Clone, Copy, Debug)]
pub struct QuadBez {
    /// The start point.
    pub p0: Point,
    /// The control point.
    pub p1: Point,
    /// The end point.
    pub p2: Point,
}

impl QuadBez {
    /// Create a new quadratic Bézier segment.
    pub fn new(p0: Point, p1: Point, p2: Point) -> (r: QuadBez)
        ensures
            r.p0 == p0,
            r.p1 == p1,
            r.p2 == p2,
    {
        QuadBez { p0, p1, p2 }
    }

    /// The start point.
    pub fn get_p0(&self) -> (r: Point)
        ensures
            r == self.p0,
    {
        self.p0
    }

    /// The control point.
    pub fn get_p1(&self) -> (r: Point)
        ensures
            r == self.p1,
    {
        self.p1
    }

    /// The end point.
    pub fn get_p2(&self) -> (r: Point)
        ensures
            r == self.p2,
    {
        self.p2
    }

    /// Replace the start point.
    pub fn set_p0(&mut self, p: Point)
        ensures
            *final(self) == (QuadBez { p0: p, ..*old(self) }),
    {
        self.p0 = p;
    }

    /// Replace the control point.
    pub fn set_p1(&mut self, p: Point)
        ensures
            *final(self) == (QuadBez { p1: p, ..*old(self) }),
    {
        self.p1 = p;
    }

    /// Replace the end point.
    pub fn set_p2(&mut self, p: Point)
        ensures
            *final(self) == (QuadBez { p2: p, ..*old(self) }),
    {
        self.p2 = p;
    }

    /// The start point of the segment, as a parametric curve.
    pub fn start(&self) -> (r: Point)
        ensures
            r == self.p0,
    {
        self.p0
    }

    /// The end point of the segment, as a parametric curve.
    pub fn end(&self) -> (r: Point)
        ensures
            r == self.p2,
    {
        self.p2
    }

    /// Whether every control point of the curve is finite.
    pub open spec fn finite_spec(self) -> bool {
        finite_of(self.p0) && finite_of(self.p1) && finite_of(self.p2)
    }

    /// Whether a control point of the curve is NaN.
    pub open spec fn nan_spec(self) -> bool {
        nan_of(self.p0) || nan_of(self.p1) || nan_of(self.p2)
    }

    /// Is this curve finite?
    pub fn is_finite(&self) -> (r: bool)
        ensures
            r == self.finite_spec(),
    {
        self.p0.is_finite() && self.p1.is_finite() && self.p2.is_finite()
    }

    /// Is this curve NaN?
    pub fn is_nan(&self) -> (r: bool)
        ensures
            r == self.nan_spec(),
    {
        self.p0.is_nan() || self.p1.is_nan() || self.p2.is_nan()
    }

    /// The same segment as a `kurbo` value.
    ///
    /// Relies on `kurbo::QuadBez::new` being a plain constructor.
    #[verifier::external_body]
    pub(crate) fn to_kurbo(&self) -> KQuadBez {
        KQuadBez::new(self.p0.0, self.p1.0, self.p2.0)
    }

    /// The `kurbo` segment as a value of this crate.
    #[verifier::external_body]
    pub(crate) fn from_kurbo(q: &KQuadBez) -> QuadBez {
        QuadBez { p0: Point(q.p0), p1: Point(q.p1), p2: Point(q.p2) }
    }

    /// Raise the order by 1.
    ///
    /// Returns a cubic Bézier segment that exactly represents this
    /// quadratic.
    ///
    /// Relies on `kurbo::QuadBez::raise`, pure coordinate arithmetic,
    /// a function of the quadratic alone; it copies the start and end
    /// points unchanged into the cubic's end points.
    #[verifier::external_body]
    pub fn raise(&self) -> (r: CubicBez)
        ensures
            r == raise_of(*self),
            r.p0 == self.p0,
            r.p3 == self.p2,
    {
        CubicBez::from_kurbo(&self.to_kurbo().raise())
    }

    /// The derivative of the curve, a line.
    ///
    /// Relies on `kurbo::QuadBez`'s `ParamCurveDeriv` implementation,
    /// pure coordinate arithmetic, a function of the quadratic alone.
    #[verifier::external_body]
    pub fn deriv(&self) -> (r: Line)
        ensures
            r == quad_deriv_of(*self),
    {
        Line::from_kurbo(&kurbo::ParamCurveDeriv::deriv(&self.to_kurbo()))
    }
}

} // verus!

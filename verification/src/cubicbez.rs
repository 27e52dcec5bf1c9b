//! A cubic Bézier segment.

use crate::point::finite_of;
use crate::point::nan_of;
use crate::point::Point;
use crate::quadbez::QuadBez;
use kurbo::CubicBez as KCubicBez;
use vstd::prelude::*;

verus! {

/// The derivative of a cubic Bézier, a quadratic: a function of the
/// cubic alone.
pub uninterp spec fn cubic_deriv_of(c: CubicBez) -> QuadBez;

/// A single cubic Bézier segment with control points `p0` through `p3`.
#[derive(Clone, Copy, Debug)]
pub struct CubicBez {
    /// The start point.
    pub p0: Point,
    /// The first control point.
    pub p1: Point,
    /// The second control point.
    pub p2: Point,
    /// The end point.
    pub p3: Point,
}

impl CubicBez {
    /// Create a new cubic Bézier segment.
    pub fn new(p0: Point, p1: Point, p2: Point, p3: Point) -> (r: CubicBez)
        ensures
            r.p0 == p0,
            r.p1 == p1,
            r.p2 == p2,
            r.p3 == p3,
    {
        CubicBez { p0, p1, p2, p3 }
    }

    /// The start point.
    pub fn get_p0(&self) -> (r: Point)
        ensures
            r == self.p0,
    {
        self.p0
    }

    /// The first control point.
    pub fn get_p1(&self) -> (r: Point)
        ensures
            r == self.p1,
    {
        self.p1
    }

    /// The second control point.
    pub fn get_p2(&self) -> (r: Point)
        ensures
            r == self.p2,
    {
        self.p2
    }

    /// The end point.
    pub fn get_p3(&self) -> (r: Point)
        ensures
            r == self.p3,
    {
        self.p3
    }

    /// Replace the start point.
    pub fn set_p0(&mut self, p: Point)
        ensures
            *final(self) == (CubicBez { p0: p, ..*old(self) }),
    {
        self.p0 = p;
    }

    /// Replace the first control point.
    pub fn set_p1(&mut self, p: Point)
        ensures
            *final(self) == (CubicBez { p1: p, ..*old(self) }),
    {
        self.p1 = p;
    }

    /// Replace the second control point.
    pub fn set_p2(&mut self, p: Point)
        ensures
            *final(self) == (CubicBez { p2: p, ..*old(self) }),
    {
        self.p2 = p;
    }

    /// Replace the end point.
    pub fn set_p3(&mut self, p: Point)
        ensures
            *final(self) == (CubicBez { p3: p, ..*old(self) }),
    {
        self.p3 = p;
    }

    /// The start point of the segment, as a parametric curve.
    pub fn start(&self) -> (r: Point)
        ensures
            r == self.p0,
    {
        self.p0
    }

    /// The end point of the segment, as a parametric curve.
    pub fn end(&self) -> (r: Point)
        ensures
            r == self.p3,
    {
        self.p3
    }

    /// Whether every control point of the curve is finite.
    pub open spec fn finite_spec(self) -> bool {
        finite_of(self.p0) && finite_of(self.p1) && finite_of(self.p2) && finite_of(self.p3)
    }

    /// Whether a control point of the curve is NaN.
    pub open spec fn nan_spec(self) -> bool {
        nan_of(self.p0) || nan_of(self.p1) || nan_of(self.p2) || nan_of(self.p3)
    }

    /// Is this curve finite?
    pub fn is_finite(&self) -> (r: bool)
        ensures
            r == self.finite_spec(),
    {
        self.p0.is_finite() && self.p1.is_finite() && self.p2.is_finite()
            && self.p3.is_finite()
    }

    /// Is this curve NaN?
    pub fn is_nan(&self) -> (r: bool)
        ensures
            r == self.nan_spec(),
    {
        self.p0.is_nan() || self.p1.is_nan() || self.p2.is_nan() || self.p3.is_nan()
    }

    /// The same segment as a `kurbo` value.
    ///
    /// Relies on `kurbo::CubicBez::new` being a plain constructor.
    #[verifier::external_body]
    pub(crate) fn to_kurbo(&self) -> KCubicBez {
        KCubicBez::new(self.p0.0, self.p1.0, self.p2.0, self.p3.0)
    }

    /// The `kurbo` segment as a value of this crate.
    #[verifier::external_body]
    pub(crate) fn from_kurbo(c: &KCubicBez) -> CubicBez {
        CubicBez { p0: Point(c.p0), p1: Point(c.p1), p2: Point(c.p2), p3: Point(c.p3) }
    }

    /// The derivative of the curve, a quadratic.
    ///
    /// Relies on `kurbo::CubicBez`'s `ParamCurveDeriv` implementation,
    /// pure coordinate arithmetic, a function of the cubic alone.
    #[verifier::external_body]
    pub fn deriv(&self) -> (r: QuadBez)
        ensures
            r == cubic_deriv_of(*self),
    {
        QuadBez::from_kurbo(&kurbo::ParamCurveDeriv::deriv(&self.to_kurbo()))
    }
}

} // verus!

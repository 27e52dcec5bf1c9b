//! A quadratic B-spline.

use crate::point::midpoint_of;
use crate::point::Point;
use crate::quadbez::QuadBez;
use kurbo::Point as KPoint;
use kurbo::QuadSpline as KQuadSpline;
use vstd::prelude::*;

verus! {

/// A quadratic Bézier spline in B-spline format: a control polygon
/// that implies a sequence of quadratic Bézier segments through the
/// standard midpoint construction.
#[derive(Clone, Debug)]
pub struct QuadSpline {
    /// The control points of the spline.
    pub points: Vec<Point>,
}

impl QuadSpline {
    /// Create a new quadratic spline from its control points.
    pub fn new(points: Vec<Point>) -> (r: QuadSpline)
        ensures
            r.points@ == points@,
    {
        QuadSpline { points }
    }

    /// The spline's control points.
    pub fn points(&self) -> (r: &Vec<Point>)
        ensures
            r@ == self.points@,
    {
        &self.points
    }

    /// The implied quadratic Bézier sequence: one segment per window
    /// of three consecutive control points, by the standard midpoint
    /// construction.  Consecutive segments share their end points, so
    /// the sequence is C0-continuous.
    pub fn to_quads(&self) -> (r: Vec<QuadBez>)
        ensures
            self.points@.len() >= 3 ==> r@.len() == self.points@.len() - 2,
            self.points@.len() < 3 ==> r@.len() == 0,
            forall|i: int|
                0 <= i < r@.len() ==> (#[trigger] r@[i]).p1 == self.points@[i + 1],
            forall|i: int|
                0 <= i < r@.len() ==> (#[trigger] r@[i]).p0 == (if i == 0 {
                    self.points@[0]
                } else {
                    midpoint_of(self.points@[i], self.points@[i + 1])
                }),
            forall|i: int|
                0 <= i < r@.len() ==> (#[trigger] r@[i]).p2 == (if i + 2 == self.points@.len()
                    - 1 {
                    self.points@[i + 2]
                } else {
                    midpoint_of(self.points@[i + 1], self.points@[i + 2])
                }),
            forall|i: int| 0 <= i < r@.len() - 1 ==> (#[trigger] r@[i]).p2 == r@[i + 1].p0,
    {
        let r = spline_to_quads(&self.points);
        proof {
            assert forall|i: int| 0 <= i < r@.len() - 1 implies (#[trigger] r@[i]).p2
                == r@[i + 1].p0 by {
                assert(r@[i].p2 == midpoint_of(self.points@[i + 1], self.points@[i + 2]));
                assert(r@[i + 1].p0 == midpoint_of(self.points@[i + 1], self.points@[i + 2]));
            }
        }
        r
    }
}

/// The implied quadratic Bézier sequence of a control polygon.
///
/// Relies on `kurbo::QuadSpline::to_quads`, whose iterator yields one
/// quadratic for each window of three consecutive control points: the
/// window's middle point is moved in unchanged as the inner control
/// point; the outer points are copied unchanged at the two ends of
/// the polygon and are otherwise passed through `kurbo::Point::midpoint`
/// with the middle point, the function that `midpoint_of` stands for.
#[verifier::external_body]
fn spline_to_quads(pts: &Vec<Point>) -> (r: Vec<QuadBez>)
    ensures
        pts@.len() >= 3 ==> r@.len() == pts@.len() - 2,
        pts@.len() < 3 ==> r@.len() == 0,
        forall|i: int| 0 <= i < r@.len() ==> (#[trigger] r@[i]).p1 == pts@[i + 1],
        forall|i: int|
            0 <= i < r@.len() ==> (#[trigger] r@[i]).p0 == (if i == 0 {
                pts@[0]
            } else {
                midpoint_of(pts@[i], pts@[i + 1])
            }),
        forall|i: int|
            0 <= i < r@.len() ==> (#[trigger] r@[i]).p2 == (if i + 2 == pts@.len() - 1 {
                pts@[i + 2]
            } else {
                midpoint_of(pts@[i + 1], pts@[i + 2])
            }),
{
    let kpts: Vec<KPoint> = pts.iter().map(|p| p.0).collect();
    KQuadSpline::new(kpts).to_quads().map(|q| QuadBez::from_kurbo(&q)).collect()
}

} // verus!

//! An elliptical arc segment.

use crate::point::nan_of;
use crate::point::Point;
use crate::rect::Rect;
use crate::vec2::Vec2;
use kurbo::Arc as KArc;
use vstd::prelude::*;

verus! {

/// A single elliptical arc segment, described by its center, radii,
/// start angle, sweep angle and x rotation.  An arc is an open curve,
/// so its area and winding are only approximately meaningful.
#[derive(Clone, Copy, Debug)]
pub struct Arc(pub KArc);

impl Arc {
    /// The center of the ellipse the arc runs along.
    ///
    /// Relies on the `center` field of `kurbo::Arc`.
    #[verifier::external_body]
    pub fn get_center(&self) -> Point {
        Point(self.0.center)
    }

    /// Move the center of the arc's ellipse.
    ///
    /// Relies on the `center` field of `kurbo::Arc`.
    #[verifier::external_body]
    pub fn set_center(&mut self, center: Point) {
        self.0.center = center.0;
    }

    /// The radii of the arc's ellipse.
    ///
    /// Relies on the `radii` field of `kurbo::Arc`.
    #[verifier::external_body]
    pub fn get_radii(&self) -> Vec2 {
        Vec2(self.0.radii)
    }

    /// Replace the radii of the arc's ellipse.
    ///
    /// Relies on the `radii` field of `kurbo::Arc`.
    #[verifier::external_body]
    pub fn set_radii(&mut self, radii: Vec2) {
        self.0.radii = radii.0;
    }

    /// The winding number of a point.
    ///
    /// Relies on `kurbo::Arc`'s `Shape` implementation, which traces
    /// the arc as cubic segments and counts ray crossings.  The
    /// crossing solver asserts, in builds with debug assertions, that
    /// the query height lies in the segment's range, which a NaN
    /// coordinate of the query point defeats; the `requires` leaves
    /// such a point out.
    #[verifier::external_body]
    pub fn winding(&self, pt: Point) -> i32
        requires
            !nan_of(pt),
    {
        kurbo::Shape::winding(&self.0, pt.0)
    }

    /// Whether the point lies inside the closed arc.
    ///
    /// Relies on `kurbo::Arc`'s `Shape` implementation, which answers
    /// with the winding number; the `requires` leaves out a NaN query
    /// point, on which the crossing solver asserts in builds with
    /// debug assertions.
    #[verifier::external_body]
    pub fn contains(&self, pt: Point) -> bool
        requires
            !nan_of(pt),
    {
        kurbo::Shape::contains(&self.0, pt.0)
    }

    /// The smallest rectangle that encloses the arc.
    ///
    /// Relies on `kurbo::Arc`'s `Shape` implementation.
    #[verifier::external_body]
    pub fn bounding_box(&self) -> Rect {
        Rect(kurbo::Shape::bounding_box(&self.0))
    }
}

} // verus!

//! A circle, and a segment of an annulus.

use crate::point::Point;
use crate::rect::Rect;
use crate::vec2::Vec2;
use kurbo::Circle as KCircle;
use kurbo::CircleSegment as KCircleSegment;
use vstd::prelude::*;

verus! {

/// A circle given by its center and radius.
#[derive(Clone, Copy, Debug)]
pub struct Circle(pub KCircle);

/// A segment of a circle: the region between two radii and two
/// concentric arcs.
#[derive(Clone, Copy, Debug)]
pub struct CircleSegment(pub KCircleSegment);

impl Circle {
    /// The center of the circle.
    ///
    /// Relies on the `center` field of `kurbo::Circle`.
    #[verifier::external_body]
    pub fn get_center(&self) -> Point {
        Point(self.0.center)
    }

    /// Move the center of the circle.
    ///
    /// Relies on the `center` field of `kurbo::Circle`.
    #[verifier::external_body]
    pub fn set_center(&mut self, center: Point) {
        self.0.center = center.0;
    }

    /// The circle translated by a displacement.
    ///
    /// Relies on `kurbo::Circle`'s addition with `kurbo::Vec2`.
    #[verifier::external_body]
    pub fn add_vec2(&self, v: Vec2) -> Circle {
        Circle(self.0 + v.0)
    }

    /// The circle translated backwards by a displacement.
    ///
    /// Relies on `kurbo::Circle`'s subtraction of `kurbo::Vec2`.
    #[verifier::external_body]
    pub fn sub_vec2(&self, v: Vec2) -> Circle {
        Circle(self.0 - v.0)
    }

    /// The winding number of a point.
    ///
    /// Relies on `kurbo::Circle`'s `Shape` implementation.
    #[verifier::external_body]
    pub fn winding(&self, pt: Point) -> i32 {
        kurbo::Shape::winding(&self.0, pt.0)
    }

    /// Whether the point lies inside the circle.
    ///
    /// Relies on `kurbo::Circle`'s `Shape` implementation.
    #[verifier::external_body]
    pub fn contains(&self, pt: Point) -> bool {
        kurbo::Shape::contains(&self.0, pt.0)
    }

    /// The smallest rectangle that encloses the circle.
    ///
    /// Relies on `kurbo::Circle`'s `Shape` implementation.
    #[verifier::external_body]
    pub fn bounding_box(&self) -> Rect {
        Rect(kurbo::Shape::bounding_box(&self.0))
    }

    /// Is this circle finite?
    ///
    /// Relies on `kurbo::Circle::is_finite`.
    #[verifier::external_body]
    pub fn is_finite(&self) -> bool {
        self.0.is_finite()
    }

    /// Is this circle NaN?
    ///
    /// Relies on `kurbo::Circle::is_nan`.
    #[verifier::external_body]
    pub fn is_nan(&self) -> bool {
        self.0.is_nan()
    }
}

impl CircleSegment {
    /// The center of the annulus.
    ///
    /// Relies on the `center` field of `kurbo::CircleSegment`.
    #[verifier::external_body]
    pub fn get_center(&self) -> Point {
        Point(self.0.center)
    }

    /// Move the center of the annulus.
    ///
    /// Relies on the `center` field of `kurbo::CircleSegment`.
    #[verifier::external_body]
    pub fn set_center(&mut self, center: Point) {
        self.0.center = center.0;
    }

    /// The segment translated by a displacement.
    ///
    /// Relies on `kurbo::CircleSegment`'s addition with `kurbo::Vec2`.
    #[verifier::external_body]
    pub fn add_vec2(&self, v: Vec2) -> CircleSegment {
        CircleSegment(self.0 + v.0)
    }

    /// The segment translated backwards by a displacement.
    ///
    /// Relies on `kurbo::CircleSegment`'s subtraction of `kurbo::Vec2`.
    #[verifier::external_body]
    pub fn sub_vec2(&self, v: Vec2) -> CircleSegment {
        CircleSegment(self.0 - v.0)
    }

    /// The winding number of a point.
    ///
    /// Relies on `kurbo::CircleSegment`'s `Shape` implementation.
    #[verifier::external_body]
    pub fn winding(&self, pt: Point) -> i32 {
        kurbo::Shape::winding(&self.0, pt.0)
    }

    /// Whether the point lies inside the segment.
    ///
    /// Relies on `kurbo::CircleSegment`'s `Shape` implementation.
    #[verifier::external_body]
    pub fn contains(&self, pt: Point) -> bool {
        kurbo::Shape::contains(&self.0, pt.0)
    }

    /// The smallest rectangle that encloses the segment.
    ///
    /// Relies on `kurbo::CircleSegment`'s `Shape` implementation.
    #[verifier::external_body]
    pub fn bounding_box(&self) -> Rect {
        Rect(kurbo::Shape::bounding_box(&self.0))
    }

    /// Is this segment finite?
    ///
    /// Relies on `kurbo::CircleSegment::is_finite`.
    #[verifier::external_body]
    pub fn is_finite(&self) -> bool {
        self.0.is_finite()
    }

    /// Is this segment NaN?
    ///
    /// Relies on `kurbo::CircleSegment::is_nan`.
    #[verifier::external_body]
    pub fn is_nan(&self) -> bool {
        self.0.is_nan()
    }
}

} // verus!

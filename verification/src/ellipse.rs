//! An ellipse.

use crate::affine::Affine;
use crate::point::Point;
use crate::rect::Rect;
use crate::vec2::Vec2;
use kurbo::Ellipse as KEllipse;
use vstd::prelude::*;

verus! {

/// An ellipse given by a center, two radii and a rotation; always a
/// closed shape.
#[derive(Clone, Copy, Debug)]
pub struct Ellipse(pub KEllipse);

impl Ellipse {
    /// An ellipse from an affine image of the unit circle.
    ///
    /// Relies on `kurbo::Ellipse::from_affine`.
    #[verifier::external_body]
    pub fn from_affine(affine: Affine) -> Ellipse {
        Ellipse(KEllipse::from_affine(affine.0))
    }

    /// The center of the ellipse.
    ///
    /// Relies on `kurbo::Ellipse::center`.
    #[verifier::external_body]
    pub fn get_center(&self) -> Point {
        Point(self.0.center())
    }

    /// The two radii of the ellipse.
    ///
    /// Relies on `kurbo::Ellipse::radii`.
    #[verifier::external_body]
    pub fn get_radii(&self) -> Vec2 {
        Vec2(self.0.radii())
    }

    /// The same ellipse moved to a new center.
    ///
    /// Relies on `kurbo::Ellipse::with_center`.
    #[verifier::external_body]
    pub fn with_center(&self, center: Point) -> Ellipse {
        Ellipse(self.0.with_center(center.0))
    }

    /// The same ellipse with new radii.
    ///
    /// Relies on `kurbo::Ellipse::with_radii`.
    #[verifier::external_body]
    pub fn with_radii(&self, radii: Vec2) -> Ellipse {
        Ellipse(self.0.with_radii(radii.0))
    }

    /// The winding number of a point.
    ///
    /// Relies on `kurbo::Ellipse`'s `Shape` implementation.
    #[verifier::external_body]
    pub fn winding(&self, pt: Point) -> i32 {
        kurbo::Shape::winding(&self.0, pt.0)
    }

    /// Whether the point lies inside the ellipse.
    ///
    /// Relies on `kurbo::Ellipse`'s `Shape` implementation.
    #[verifier::external_body]
    pub fn contains(&self, pt: Point) -> bool {
        kurbo::Shape::contains(&self.0, pt.0)
    }

    /// The smallest rectangle that encloses the ellipse.
    ///
    /// Relies on `kurbo::Ellipse`'s `Shape` implementation.
    #[verifier::external_body]
    pub fn bounding_box(&self) -> Rect {
        Rect(kurbo::Shape::bounding_box(&self.0))
    }

    /// Is this ellipse finite?
    ///
    /// Relies on `kurbo::Ellipse::is_finite`.
    #[verifier::external_body]
    pub fn is_finite(&self) -> bool {
        self.0.is_finite()
    }

    /// Is this ellipse NaN?
    ///
    /// Relies on `kurbo::Ellipse::is_nan`.
    #[verifier::external_body]
    pub fn is_nan(&self) -> bool {
        self.0.is_nan()
    }
}

} // verus!

//! An axis-aligned rectangle.

use crate::insets::Insets;
use crate::point::Point;
use crate::size::Size;
use crate::vec2::Vec2;
use kurbo::Rect as KRect;
use vstd::prelude::*;

verus! {

/// A rectangle given by its two opposite corners `(x0, y0)` and
/// `(x1, y1)`.  The corners are not required to be ordered: width and
/// height may be negative, and [`Rect::abs`] normalizes them.
#[derive(Clone, Copy, Debug)]
pub struct Rect(pub KRect);

/// The ordered rectangle spanned by two points: a function of the two
/// points alone.
pub uninterp spec fn rect_of_points(a: Point, b: Point) -> Rect;

/// The smallest rectangle enclosing a rectangle and a point: a
/// function of the rectangle and the point alone.
pub uninterp spec fn union_pt_of(r: Rect, p: Point) -> Rect;

impl Rect {
    /// The rectangle with all coordinates zero.
    ///
    /// Relies on `kurbo::Rect::ZERO`.
    #[verifier::external_body]
    pub fn zero() -> Rect {
        Rect(KRect::ZERO)
    }

    /// A new rectangle from two corner points.
    ///
    /// Relies on `kurbo::Rect::from_points`, which orders the
    /// corners; pure coordinate arithmetic, a function of the two
    /// points alone.
    #[verifier::external_body]
    pub fn from_points(p0: Point, p1: Point) -> (r: Rect)
        ensures
            r == rect_of_points(p0, p1),
    {
        Rect(KRect::from_points(p0.0, p1.0))
    }

    /// A new rectangle from an origin and a size.
    ///
    /// Relies on `kurbo::Rect::from_origin_size`.
    #[verifier::external_body]
    pub fn from_origin_size(origin: Point, size: Size) -> Rect {
        Rect(KRect::from_origin_size(origin.0, size.0))
    }

    /// A new rectangle from a center point and a size.
    ///
    /// Relies on `kurbo::Rect::from_center_size`.
    #[verifier::external_body]
    pub fn from_center_size(center: Point, size: Size) -> Rect {
        Rect(KRect::from_center_size(center.0, size.0))
    }

    /// A new rectangle with the same size at the given origin.
    ///
    /// Relies on `kurbo::Rect::with_origin`.
    #[verifier::external_body]
    pub fn with_origin(&self, origin: Point) -> Rect {
        Rect(self.0.with_origin(origin.0))
    }

    /// A new rectangle with the same origin and the given size.
    ///
    /// Relies on `kurbo::Rect::with_size`.
    #[verifier::external_body]
    pub fn with_size(&self, size: Size) -> Rect {
        Rect(self.0.with_size(size.0))
    }

    /// The rectangle grown by the given insets on each edge.
    ///
    /// Relies on `kurbo::Rect::inset`.
    #[verifier::external_body]
    pub fn inset(&self, insets: Insets) -> Rect {
        Rect(self.0.inset(insets.0))
    }

    /// The origin (the `(x0, y0)` corner).
    ///
    /// Relies on `kurbo::Rect::origin`.
    #[verifier::external_body]
    pub fn origin(&self) -> Point {
        Point(self.0.origin())
    }

    /// The size of the rectangle.
    ///
    /// Relies on `kurbo::Rect::size`.
    #[verifier::external_body]
    pub fn size(&self) -> Size {
        Size(self.0.size())
    }

    /// The center point of the rectangle.
    ///
    /// Relies on `kurbo::Rect::center`.
    #[verifier::external_body]
    pub fn center(&self) -> Point {
        Point(self.0.center())
    }

    /// Whether the area of the rectangle is zero.
    ///
    /// Relies on `kurbo::Rect::is_zero_area`.
    #[verifier::external_body]
    pub fn is_empty(&self) -> bool {
        self.0.is_zero_area()
    }

    /// The same rectangle with non-negative width and height.
    ///
    /// Relies on `kurbo::Rect::abs`.
    #[verifier::external_body]
    pub fn abs(&self) -> Rect {
        Rect(self.0.abs())
    }

    /// The smallest rectangle enclosing both rectangles.
    ///
    /// Relies on `kurbo::Rect::union`.
    #[verifier::external_body]
    pub fn union(&self, other: Rect) -> Rect {
        Rect(self.0.union(other.0))
    }

    /// The smallest rectangle enclosing this one and the point.
    ///
    /// Relies on `kurbo::Rect::union_pt`, pure coordinate minima and
    /// maxima, a function of the rectangle and the point alone.
    #[verifier::external_body]
    pub fn union_pt(&self, pt: Point) -> (r: Rect)
        ensures
            r == union_pt_of(*self, pt),
    {
        Rect(self.0.union_pt(pt.0))
    }

    /// The intersection of the two rectangles, empty if they do not
    /// overlap.
    ///
    /// Relies on `kurbo::Rect::intersect`.
    #[verifier::external_body]
    pub fn intersect(&self, other: Rect) -> Rect {
        Rect(self.0.intersect(other.0))
    }

    /// All coordinates rounded to the nearest integer.
    ///
    /// Relies on `kurbo::Rect::round`.
    #[verifier::external_body]
    pub fn round(&self) -> Rect {
        Rect(self.0.round())
    }

    /// All coordinates rounded up.
    ///
    /// Relies on `kurbo::Rect::ceil`.
    #[verifier::external_body]
    pub fn ceil(&self) -> Rect {
        Rect(self.0.ceil())
    }

    /// All coordinates rounded down.
    ///
    /// Relies on `kurbo::Rect::floor`.
    #[verifier::external_body]
    pub fn floor(&self) -> Rect {
        Rect(self.0.floor())
    }

    /// All coordinates rounded away from the center.
    ///
    /// Relies on `kurbo::Rect::expand`.
    #[verifier::external_body]
    pub fn expand(&self) -> Rect {
        Rect(self.0.expand())
    }

    /// All coordinates rounded towards the center.
    ///
    /// Relies on `kurbo::Rect::trunc`.
    #[verifier::external_body]
    pub fn trunc(&self) -> Rect {
        Rect(self.0.trunc())
    }

    /// The rectangle translated by a displacement.
    ///
    /// Relies on `kurbo::Rect`'s addition with `kurbo::Vec2`.
    #[verifier::external_body]
    pub fn add_vec2(&self, rhs: Vec2) -> Rect {
        Rect(self.0 + rhs.0)
    }

    /// The rectangle translated backwards by a displacement.
    ///
    /// Relies on `kurbo::Rect`'s subtraction of `kurbo::Vec2`.
    #[verifier::external_body]
    pub fn sub_vec2(&self, rhs: Vec2) -> Rect {
        Rect(self.0 - rhs.0)
    }

    /// The rectangle shrunk by the given insets on each edge.
    ///
    /// Relies on `kurbo::Rect`'s subtraction of `kurbo::Insets`.
    #[verifier::external_body]
    pub fn sub_insets(&self, rhs: Insets) -> Rect {
        Rect(self.0 - rhs.0)
    }

    /// The insets by which the other rectangle's edges differ from
    /// this one's.
    ///
    /// Relies on `kurbo::Rect`'s subtraction of `kurbo::Rect`.
    #[verifier::external_body]
    pub fn sub_rect(&self, rhs: Rect) -> Insets {
        Insets(self.0 - rhs.0)
    }

    /// The winding number of a point: 1 inside the rectangle, 0
    /// outside.
    ///
    /// Relies on `kurbo::Rect`'s `Shape` implementation.
    #[verifier::external_body]
    pub fn winding(&self, pt: Point) -> i32 {
        kurbo::Shape::winding(&self.0, pt.0)
    }

    /// Whether the point lies inside the rectangle.
    ///
    /// Relies on `kurbo::Rect`'s `Shape` implementation.
    #[verifier::external_body]
    pub fn contains(&self, pt: Point) -> bool {
        kurbo::Shape::contains(&self.0, pt.0)
    }

    /// The bounding box of the rectangle, which is itself, normalized.
    ///
    /// Relies on `kurbo::Rect`'s `Shape` implementation.
    #[verifier::external_body]
    pub fn bounding_box(&self) -> Rect {
        Rect(kurbo::Shape::bounding_box(&self.0))
    }

    /// Is this rectangle finite?
    ///
    /// Relies on `kurbo::Rect::is_finite`.
    #[verifier::external_body]
    pub fn is_finite(&self) -> bool {
        self.0.is_finite()
    }

    /// Is this rectangle NaN?
    ///
    /// Relies on `kurbo::Rect::is_nan`.
    #[verifier::external_body]
    pub fn is_nan(&self) -> bool {
        self.0.is_nan()
    }
}

} // verus!

//! An absolute position in 2D space.

use vstd::prelude::*;

verus! {

/// A 2D point.
///
/// The coordinates live inside a [`kurbo::Point`], which the verifier
/// treats as an opaque value; the rounding and interpolation helpers
/// below are trusted calls into `kurbo`.
#[derive(Clone, Copy, Debug)]
pub struct Point(pub kurbo::Point);

/// The midpoint of two points: a function of the two points alone.
pub uninterp spec fn midpoint_of(a: Point, b: Point) -> Point;

/// Whether both coordinates of a point are finite: a function of the
/// point alone.
pub uninterp spec fn finite_of(p: Point) -> bool;

/// Whether a coordinate of a point is NaN: a function of the point
/// alone.
pub uninterp spec fn nan_of(p: Point) -> bool;

/// The point translated by a displacement: a function of the point
/// and the displacement alone.
pub uninterp spec fn moved_by(p: Point, v: crate::vec2::Vec2) -> Point;

/// The point translated backwards by a displacement: a function of
/// the point and the displacement alone.
pub uninterp spec fn moved_back(p: Point, v: crate::vec2::Vec2) -> Point;

impl Point {
    /// The origin, `(0, 0)`.
    ///
    /// Relies on `kurbo::Point::ZERO`.
    #[verifier::external_body]
    pub fn origin() -> Point {
        Point(kurbo::Point::ZERO)
    }

    /// Convert this point into a `Vec2`.
    ///
    /// Relies on `kurbo::Point::to_vec2`: the displacement of this
    /// point from the origin.
    #[verifier::external_body]
    pub fn to_vec2(&self) -> crate::vec2::Vec2 {
        crate::vec2::Vec2(self.0.to_vec2())
    }

    /// Determine the midpoint of two points.
    ///
    /// Relies on `kurbo::Point::midpoint`, pure coordinate
    /// arithmetic, a function of the two points alone.
    #[verifier::external_body]
    pub fn midpoint(&self, other: Point) -> (r: Point)
        ensures
            r == midpoint_of(*self, other),
    {
        Point(self.0.midpoint(other.0))
    }

    /// Returns a new `Point` with both coordinates rounded to the
    /// nearest integer.
    ///
    /// Relies on `kurbo::Point::round`.
    #[verifier::external_body]
    pub fn round(&self) -> Point {
        Point(self.0.round())
    }

    /// Returns a new `Point` with both coordinates rounded up.
    ///
    /// Relies on `kurbo::Point::ceil`.
    #[verifier::external_body]
    pub fn ceil(&self) -> Point {
        Point(self.0.ceil())
    }

    /// Returns a new `Point` with both coordinates rounded down.
    ///
    /// Relies on `kurbo::Point::floor`.
    #[verifier::external_body]
    pub fn floor(&self) -> Point {
        Point(self.0.floor())
    }

    /// Returns a new `Point` with both coordinates rounded away from
    /// zero.
    ///
    /// Relies on `kurbo::Point::expand`.
    #[verifier::external_body]
    pub fn expand(&self) -> Point {
        Point(self.0.expand())
    }

    /// Returns a new `Point` with both coordinates rounded towards
    /// zero.
    ///
    /// Relies on `kurbo::Point::trunc`.
    #[verifier::external_body]
    pub fn trunc(&self) -> Point {
        Point(self.0.trunc())
    }

    /// Is this point finite?
    ///
    /// Relies on `kurbo::Point::is_finite`, a function of the
    /// coordinates alone.
    #[verifier::external_body]
    pub fn is_finite(&self) -> (r: bool)
        ensures
            r == finite_of(*self),
    {
        self.0.is_finite()
    }

    /// Is this point NaN?
    ///
    /// Relies on `kurbo::Point::is_nan`, a function of the
    /// coordinates alone.
    #[verifier::external_body]
    pub fn is_nan(&self) -> (r: bool)
        ensures
            r == nan_of(*self),
    {
        self.0.is_nan()
    }

    /// The point translated by a displacement.
    ///
    /// Relies on `kurbo::Point`'s addition with `kurbo::Vec2`, pure
    /// coordinate arithmetic, a function of the two operands alone.
    #[verifier::external_body]
    pub fn add_vec2(&self, rhs: crate::vec2::Vec2) -> (r: Point)
        ensures
            r == moved_by(*self, rhs),
    {
        Point(self.0 + rhs.0)
    }

    /// The point translated backwards by a displacement.
    ///
    /// Relies on `kurbo::Point`'s subtraction of `kurbo::Vec2`, pure
    /// coordinate arithmetic, a function of the two operands alone.
    #[verifier::external_body]
    pub fn sub_vec2(&self, rhs: crate::vec2::Vec2) -> (r: Point)
        ensures
            r == moved_back(*self, rhs),
    {
        Point(self.0 - rhs.0)
    }

    /// Translate this point in place.
    ///
    /// Relies on `kurbo::Point`'s addition with `kurbo::Vec2`.
    #[verifier::external_body]
    pub fn iadd(&mut self, other: crate::vec2::Vec2) {
        self.0 += other.0;
    }

    /// Translate this point backwards in place.
    ///
    /// Relies on `kurbo::Point`'s subtraction of `kurbo::Vec2`.
    #[verifier::external_body]
    pub fn isub(&mut self, other: crate::vec2::Vec2) {
        self.0 -= other.0;
    }
}

} // verus!

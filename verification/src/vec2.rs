//! A displacement in 2D space.

use vstd::prelude::*;

verus! {

/// A 2D vector, i.e. a displacement between two [`crate::Point`]s.
#[derive(Clone, Copy, Debug)]
pub struct Vec2(pub kurbo::Vec2);

impl Vec2 {
    /// The zero vector.
    ///
    /// Relies on `kurbo::Vec2::ZERO`.
    #[verifier::external_body]
    pub fn zero() -> Vec2 {
        Vec2(kurbo::Vec2::ZERO)
    }

    /// Convert this vector into a `Point`.
    ///
    /// Relies on `kurbo::Vec2::to_point`.
    #[verifier::external_body]
    pub fn to_point(&self) -> crate::point::Point {
        crate::point::Point(self.0.to_point())
    }

    /// A vector of the same direction and unit length.
    ///
    /// Relies on `kurbo::Vec2::normalize`.
    #[verifier::external_body]
    pub fn normalize(&self) -> Vec2 {
        Vec2(self.0.normalize())
    }

    /// Both components rounded to the nearest integer.
    ///
    /// Relies on `kurbo::Vec2::round`.
    #[verifier::external_body]
    pub fn round(&self) -> Vec2 {
        Vec2(self.0.round())
    }

    /// Both components rounded up.
    ///
    /// Relies on `kurbo::Vec2::ceil`.
    #[verifier::external_body]
    pub fn ceil(&self) -> Vec2 {
        Vec2(self.0.ceil())
    }

    /// Both components rounded down.
    ///
    /// Relies on `kurbo::Vec2::floor`.
    #[verifier::external_body]
    pub fn floor(&self) -> Vec2 {
        Vec2(self.0.floor())
    }

    /// Both components rounded away from zero.
    ///
    /// Relies on `kurbo::Vec2::expand`.
    #[verifier::external_body]
    pub fn expand(&self) -> Vec2 {
        Vec2(self.0.expand())
    }

    /// Both components rounded towards zero.
    ///
    /// Relies on `kurbo::Vec2::trunc`.
    #[verifier::external_body]
    pub fn trunc(&self) -> Vec2 {
        Vec2(self.0.trunc())
    }

    /// Is this vector finite?
    ///
    /// Relies on `kurbo::Vec2::is_finite`.
    #[verifier::external_body]
    pub fn is_finite(&self) -> bool {
        self.0.is_finite()
    }

    /// Is this vector NaN?
    ///
    /// Relies on `kurbo::Vec2::is_nan`.
    #[verifier::external_body]
    pub fn is_nan(&self) -> bool {
        self.0.is_nan()
    }

    /// The sum of two vectors.
    ///
    /// Relies on `kurbo::Vec2`'s addition.
    #[verifier::external_body]
    pub fn add_vec2(&self, rhs: Vec2) -> Vec2 {
        Vec2(self.0 + rhs.0)
    }

    /// The difference of two vectors.
    ///
    /// Relies on `kurbo::Vec2`'s subtraction.
    #[verifier::external_body]
    pub fn sub_vec2(&self, rhs: Vec2) -> Vec2 {
        Vec2(self.0 - rhs.0)
    }

    /// The negated vector.
    ///
    /// Relies on `kurbo::Vec2`'s negation.
    #[verifier::external_body]
    pub fn neg(&self) -> Vec2 {
        Vec2(-self.0)
    }
}

} // verus!

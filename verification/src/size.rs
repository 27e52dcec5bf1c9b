//! A 2D extent.

use crate::rect::Rect;
use crate::vec2::Vec2;
use kurbo::Size as KSize;
use vstd::prelude::*;

verus! {

/// A width and a height.
#[derive(Clone, Copy, Debug)]
pub struct Size(pub KSize);

impl Size {
    /// The zero size.
    ///
    /// Relies on `kurbo::Size::ZERO`.
    #[verifier::external_body]
    pub fn zero() -> Size {
        Size(KSize::ZERO)
    }

    /// Whether the area of the size is zero.
    ///
    /// Relies on `kurbo::Size::is_zero_area`.
    #[verifier::external_body]
    pub fn is_empty(&self) -> bool {
        self.0.is_zero_area()
    }

    /// The size with both dimensions clamped between two bounds.
    ///
    /// Relies on `kurbo::Size::clamp`.
    #[verifier::external_body]
    pub fn clamp(&self, min: Size, max: Size) -> Size {
        Size(self.0.clamp(min.0, max.0))
    }

    /// Convert this size into a displacement.
    ///
    /// Relies on `kurbo::Size::to_vec2`.
    #[verifier::external_body]
    pub fn to_vec2(&self) -> Vec2 {
        Vec2(self.0.to_vec2())
    }

    /// Convert this size into a rectangle at the origin.
    ///
    /// Relies on `kurbo::Size::to_rect`.
    #[verifier::external_body]
    pub fn to_rect(&self) -> Rect {
        Rect(self.0.to_rect())
    }

    /// Both dimensions rounded to the nearest integer.
    ///
    /// Relies on `kurbo::Size::round`.
    #[verifier::external_body]
    pub fn round(&self) -> Size {
        Size(self.0.round())
    }

    /// Both dimensions rounded up.
    ///
    /// Relies on `kurbo::Size::ceil`.
    #[verifier::external_body]
    pub fn ceil(&self) -> Size {
        Size(self.0.ceil())
    }

    /// Both dimensions rounded down.
    ///
    /// Relies on `kurbo::Size::floor`.
    #[verifier::external_body]
    pub fn floor(&self) -> Size {
        Size(self.0.floor())
    }

    /// Both dimensions rounded away from zero.
    ///
    /// Relies on `kurbo::Size::expand`.
    #[verifier::external_body]
    pub fn expand(&self) -> Size {
        Size(self.0.expand())
    }

    /// Both dimensions rounded towards zero.
    ///
    /// Relies on `kurbo::Size::trunc`.
    #[verifier::external_body]
    pub fn trunc(&self) -> Size {
        Size(self.0.trunc())
    }

    /// The sum of two sizes.
    ///
    /// Relies on `kurbo::Size`'s addition.
    #[verifier::external_body]
    pub fn add_size(&self, rhs: Size) -> Size {
        Size(self.0 + rhs.0)
    }

    /// The difference of two sizes.
    ///
    /// Relies on `kurbo::Size`'s subtraction.
    #[verifier::external_body]
    pub fn sub_size(&self, rhs: Size) -> Size {
        Size(self.0 - rhs.0)
    }

    /// Is this size finite?
    ///
    /// Relies on `kurbo::Size::is_finite`.
    #[verifier::external_body]
    pub fn is_finite(&self) -> bool {
        self.0.is_finite()
    }

    /// Is this size NaN?
    ///
    /// Relies on `kurbo::Size::is_nan`.
    #[verifier::external_body]
    pub fn is_nan(&self) -> bool {
        self.0.is_nan()
    }
}

} // verus!

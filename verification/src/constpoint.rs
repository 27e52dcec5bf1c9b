//! A degree-0 curve: a single point.

use kurbo::ConstPoint as KConstPoint;
use vstd::prelude::*;

verus! {

/// A curve of constant value: every parameter evaluates to the same
/// point.  It arises as the derivative of a [`crate::line::Line`].
#[derive(Clone, Copy, Debug)]
pub struct ConstPoint(pub KConstPoint);

impl ConstPoint {
    /// The derivative of the curve, which is constant at the origin.
    ///
    /// Relies on `kurbo::ConstPoint`'s `ParamCurveDeriv` implementation.
    #[verifier::external_body]
    pub fn deriv(&self) -> ConstPoint {
        ConstPoint(kurbo::ParamCurveDeriv::deriv(&self.0))
    }

    /// Is this value finite?
    ///
    /// Relies on `kurbo::ConstPoint::is_finite`.
    #[verifier::external_body]
    pub fn is_finite(&self) -> bool {
        self.0.is_finite()
    }

    /// Is this value NaN?
    ///
    /// Relies on `kurbo::ConstPoint::is_nan`.
    #[verifier::external_body]
    pub fn is_nan(&self) -> bool {
        self.0.is_nan()
    }
}

} // verus!

//! Edge deltas of a rectangle.

use kurbo::Insets as KInsets;
use vstd::prelude::*;

verus! {

/// Insets of the edges of a [`crate::rect::Rect`]: a delta for each of
/// the four edges.  Adding insets to a rectangle grows it, subtracting
/// them shrinks it, and subtracting two rectangles yields the insets
/// between them.
#[derive(Clone, Copy, Debug)]
pub struct Insets(pub KInsets);

impl Insets {
    /// Are all the insets non-negative?
    ///
    /// Relies on `kurbo::Insets::are_nonnegative`.
    #[verifier::external_body]
    pub fn are_nonnegative(&self) -> bool {
        self.0.are_nonnegative()
    }

    /// The same insets with negative values replaced by zero.
    ///
    /// Relies on `kurbo::Insets::nonnegative`.
    #[verifier::external_body]
    pub fn nonnegative(&self) -> Insets {
        Insets(self.0.nonnegative())
    }

    /// Are these insets finite?
    ///
    /// Relies on `kurbo::Insets::is_finite`.
    #[verifier::external_body]
    pub fn is_finite(&self) -> bool {
        self.0.is_finite()
    }

    /// Are these insets NaN?
    ///
    /// Relies on `kurbo::Insets::is_nan`.
    #[verifier::external_body]
    pub fn is_nan(&self) -> bool {
        self.0.is_nan()
    }
}

} // verus!

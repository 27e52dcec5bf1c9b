//! A restricted transform: uniform scale plus translation.

use crate::cubicbez::CubicBez;
use crate::line::Line;
use crate::pathel::PathEl;
use crate::point::Point;
use crate::rect::Rect;
use crate::vec2::Vec2;
use kurbo::TranslateScale as KTranslateScale;
use vstd::prelude::*;

verus! {

/// A transform built from a uniform scale followed by a translation.
///
/// Unlike a full [`crate::affine::Affine`], this transform maps
/// rectangles to rectangles, so it applies to a
/// [`crate::rect::Rect`] exactly.
#[derive(Clone, Copy, Debug)]
pub struct TranslateScale(pub KTranslateScale);

/// The image of a point under a translate-scale transform.
///
/// The value itself is opaque; what the name carries is that the image
/// is a function of the transform and the point alone.
pub uninterp spec fn ts_image(ts: TranslateScale, p: Point) -> Point;

/// The image of a path element under a translate-scale transform:
/// every control point is mapped and the element kind is kept.
pub open spec fn ts_el_image(ts: TranslateScale, el: PathEl) -> PathEl {
    match el {
        PathEl::MoveTo(p) => PathEl::MoveTo(ts_image(ts, p)),
        PathEl::LineTo(p) => PathEl::LineTo(ts_image(ts, p)),
        PathEl::QuadTo(p1, p2) => PathEl::QuadTo(ts_image(ts, p1), ts_image(ts, p2)),
        PathEl::CurveTo(p1, p2, p3) => PathEl::CurveTo(
            ts_image(ts, p1),
            ts_image(ts, p2),
            ts_image(ts, p3),
        ),
        PathEl::ClosePath => PathEl::ClosePath,
    }
}

impl TranslateScale {
    /// The pure translation by the given vector.
    ///
    /// Relies on `kurbo::TranslateScale::translate`.
    #[verifier::external_body]
    pub fn translate(t: Vec2) -> TranslateScale {
        TranslateScale(KTranslateScale::translate(t.0))
    }

    /// The inverse transform.
    ///
    /// Produces infinite or NaN values when the scale is zero; callers
    /// must test the result with `is_finite` before trusting it.
    ///
    /// Relies on `kurbo::TranslateScale::inverse`.
    #[verifier::external_body]
    pub fn inverse(&self) -> TranslateScale {
        TranslateScale(self.0.inverse())
    }

    /// Is this transform finite?
    ///
    /// Relies on `kurbo::TranslateScale::is_finite`.
    #[verifier::external_body]
    pub fn is_finite(&self) -> bool {
        self.0.is_finite()
    }

    /// Is this transform NaN?
    ///
    /// Relies on `kurbo::TranslateScale::is_nan`.
    #[verifier::external_body]
    pub fn is_nan(&self) -> bool {
        self.0.is_nan()
    }

    /// The transform followed by one more translation.
    ///
    /// Relies on `kurbo::TranslateScale`'s addition with `kurbo::Vec2`.
    #[verifier::external_body]
    pub fn add_vec2(&self, rhs: Vec2) -> TranslateScale {
        TranslateScale(self.0 + rhs.0)
    }

    /// The composition of two transforms: applying the result equals
    /// applying `rhs` first and `self` second.
    ///
    /// Relies on `kurbo::TranslateScale`'s multiplication.
    #[verifier::external_body]
    pub fn mul_ts(&self, rhs: TranslateScale) -> TranslateScale {
        TranslateScale(self.0 * rhs.0)
    }

    /// The image of a point under the transform.
    ///
    /// Relies on `kurbo::TranslateScale`'s application to
    /// `kurbo::Point`, which depends on the transform and the point
    /// alone.
    #[verifier::external_body]
    pub fn mul_point(&self, rhs: Point) -> (r: Point)
        ensures
            r == ts_image(*self, rhs),
    {
        Point(self.0 * rhs.0)
    }

    /// The image of a rectangle under the transform.
    ///
    /// Relies on `kurbo::TranslateScale`'s application to
    /// `kurbo::Rect`.
    #[verifier::external_body]
    pub fn mul_rect(&self, rhs: Rect) -> Rect {
        Rect(self.0 * rhs.0)
    }

    /// The image of a line under the transform: both end points are
    /// mapped.
    pub fn mul_line(&self, rhs: Line) -> (r: Line)
        ensures
            r.p0 == ts_image(*self, rhs.p0),
            r.p1 == ts_image(*self, rhs.p1),
    {
        Line { p0: self.mul_point(rhs.p0), p1: self.mul_point(rhs.p1) }
    }

    /// The image of a path element under the transform.
    pub fn mul_pathel(&self, rhs: PathEl) -> (r: PathEl)
        ensures
            r == ts_el_image(*self, rhs),
    {
        match rhs {
            PathEl::MoveTo(p) => PathEl::MoveTo(self.mul_point(p)),
            PathEl::LineTo(p) => PathEl::LineTo(self.mul_point(p)),
            PathEl::QuadTo(p1, p2) => PathEl::QuadTo(self.mul_point(p1), self.mul_point(p2)),
            PathEl::CurveTo(p1, p2, p3) => PathEl::CurveTo(
                self.mul_point(p1),
                self.mul_point(p2),
                self.mul_point(p3),
            ),
            PathEl::ClosePath => PathEl::ClosePath,
        }
    }

    /// The image of a cubic Bézier under the transform: every control
    /// point is mapped.
    pub fn mul_cubicbez(&self, rhs: CubicBez) -> (r: CubicBez)
        ensures
            r.p0 == ts_image(*self, rhs.p0),
            r.p1 == ts_image(*self, rhs.p1),
            r.p2 == ts_image(*self, rhs.p2),
            r.p3 == ts_image(*self, rhs.p3),
    {
        CubicBez {
            p0: self.mul_point(rhs.p0),
            p1: self.mul_point(rhs.p1),
            p2: self.mul_point(rhs.p2),
            p3: self.mul_point(rhs.p3),
        }
    }
}

} // verus!

//! A 2D affine transform.

use crate::arc::Arc;
use crate::circle::Circle;
use crate::cubicbez::CubicBez;
use crate::ellipse::Ellipse;
use crate::line::Line;
use crate::pathel::PathEl;
use crate::pathseg::PathSeg;
use crate::point::Point;
use crate::quadbez::QuadBez;
use crate::rect::Rect;
use crate::vec2::Vec2;
use kurbo::Affine as KAffine;
use vstd::prelude::*;

verus! {

/// A full six-coefficient 2D affine transform.
///
/// Composition is matrix multiplication and is not commutative; the
/// transform applies to every geometric type of this crate through the
/// `mul_*` methods.
#[derive(Clone, Copy, Debug)]
pub struct Affine(pub KAffine);

/// The image of a point under an affine transform.
///
/// The value itself is opaque; what the name carries is that the image
/// is a function of the transform and the point alone, so two
/// applications of one transform to one point agree.
pub uninterp spec fn affine_image(a: Affine, p: Point) -> Point;

/// The image of a path element under an affine transform: every
/// control point is mapped and the element kind is kept.
pub open spec fn affine_el_image(a: Affine, el: PathEl) -> PathEl {
    match el {
        PathEl::MoveTo(p) => PathEl::MoveTo(affine_image(a, p)),
        PathEl::LineTo(p) => PathEl::LineTo(affine_image(a, p)),
        PathEl::QuadTo(p1, p2) => PathEl::QuadTo(affine_image(a, p1), affine_image(a, p2)),
        PathEl::CurveTo(p1, p2, p3) => PathEl::CurveTo(
            affine_image(a, p1),
            affine_image(a, p2),
            affine_image(a, p3),
        ),
        PathEl::ClosePath => PathEl::ClosePath,
    }
}

/// The image of a path segment under an affine transform: every
/// control point is mapped and the segment kind is kept.
pub open spec fn affine_seg_image(a: Affine, s: PathSeg) -> PathSeg {
    match s {
        PathSeg::Line(l) => PathSeg::Line(
            Line { p0: affine_image(a, l.p0), p1: affine_image(a, l.p1) },
        ),
        PathSeg::Quad(q) => PathSeg::Quad(
            QuadBez {
                p0: affine_image(a, q.p0),
                p1: affine_image(a, q.p1),
                p2: affine_image(a, q.p2),
            },
        ),
        PathSeg::Cubic(c) => PathSeg::Cubic(
            CubicBez {
                p0: affine_image(a, c.p0),
                p1: affine_image(a, c.p1),
                p2: affine_image(a, c.p2),
                p3: affine_image(a, c.p3),
            },
        ),
    }
}

impl Affine {
    /// The identity transform.
    ///
    /// Relies on `kurbo::Affine::IDENTITY`.
    #[verifier::external_body]
    pub fn identity() -> Affine {
        Affine(KAffine::IDENTITY)
    }

    /// The transform that flips the x coordinate.
    ///
    /// Relies on `kurbo::Affine::FLIP_X`.
    #[verifier::external_body]
    pub fn flip_x() -> Affine {
        Affine(KAffine::FLIP_X)
    }

    /// The transform that flips the y coordinate.
    ///
    /// Relies on `kurbo::Affine::FLIP_Y`.
    #[verifier::external_body]
    pub fn flip_y() -> Affine {
        Affine(KAffine::FLIP_Y)
    }

    /// The translation that moves the origin to the given point.
    ///
    /// Relies on `kurbo::Affine::translate`.
    #[verifier::external_body]
    pub fn translate(p: &Point) -> Affine {
        Affine(KAffine::translate(p.0.to_vec2()))
    }

    /// The reflection across the line through `point` along
    /// `direction`.
    ///
    /// Relies on `kurbo::Affine::reflect`.
    #[verifier::external_body]
    pub fn reflect(point: &Point, direction: &Vec2) -> Affine {
        Affine(KAffine::reflect(point.0, direction.0))
    }

    /// This transform preceded by a translation: the translation is
    /// applied first.
    ///
    /// Relies on `kurbo::Affine::pre_translate`.
    #[verifier::external_body]
    pub fn pre_translate(&self, trans: &Vec2) -> Affine {
        Affine(self.0.pre_translate(trans.0))
    }

    /// This transform followed by a translation.
    ///
    /// Relies on `kurbo::Affine::then_translate`.
    #[verifier::external_body]
    pub fn then_translate(&self, trans: &Vec2) -> Affine {
        Affine(self.0.then_translate(trans.0))
    }

    /// The affine transform that maps the unit square onto the given
    /// rectangle.
    ///
    /// Relies on `kurbo::Affine::map_unit_square`.
    #[verifier::external_body]
    pub fn map_unit_square(rect: &Rect) -> Affine {
        Affine(KAffine::map_unit_square(rect.0))
    }

    /// Compute the inverse transform.
    ///
    /// Produces NaN values when the determinant is zero; callers must
    /// test the result with `is_finite` before trusting it.
    ///
    /// Relies on `kurbo::Affine::inverse`.
    #[verifier::external_body]
    pub fn inverse(&self) -> Affine {
        Affine(self.0.inverse())
    }

    /// Compute the bounding box of a transformed rectangle.
    ///
    /// Relies on `kurbo::Affine::transform_rect_bbox`.
    #[verifier::external_body]
    pub fn transform_rect_bbox(&self, rect: &Rect) -> Rect {
        Rect(self.0.transform_rect_bbox(rect.0))
    }

    /// The translation part of this affine map.
    ///
    /// Relies on `kurbo::Affine::translation`.
    #[verifier::external_body]
    pub fn translation(&self) -> Vec2 {
        Vec2(self.0.translation())
    }

    /// Replaces the translation portion of this affine map.
    ///
    /// Relies on `kurbo::Affine::with_translation`.
    #[verifier::external_body]
    pub fn with_translation(&self, trans: &Vec2) -> Affine {
        Affine(self.0.with_translation(trans.0))
    }

    /// Coefficient-wise equality of two transforms.
    ///
    /// Relies on `kurbo::Affine`'s `PartialEq`.
    #[verifier::external_body]
    pub fn coeffs_eq(&self, other: &Affine) -> bool {
        self.0 == other.0
    }

    /// Is this transform finite?
    ///
    /// Relies on `kurbo::Affine::is_finite`.
    #[verifier::external_body]
    pub fn is_finite(&self) -> bool {
        self.0.is_finite()
    }

    /// Is this transform NaN?
    ///
    /// Relies on `kurbo::Affine::is_nan`.
    #[verifier::external_body]
    pub fn is_nan(&self) -> bool {
        self.0.is_nan()
    }

    /// The composition of two transforms: applying the result equals
    /// applying `rhs` first and `self` second.
    ///
    /// Relies on `kurbo::Affine`'s multiplication.
    #[verifier::external_body]
    pub fn mul_affine(&self, rhs: Affine) -> Affine {
        Affine(self.0 * rhs.0)
    }

    /// The image of a point under the transform.
    ///
    /// Relies on `kurbo::Affine`'s application to `kurbo::Point`,
    /// which depends on the coefficients and the point alone.
    #[verifier::external_body]
    pub fn mul_point(&self, rhs: Point) -> (r: Point)
        ensures
            r == affine_image(*self, rhs),
    {
        Point(self.0 * rhs.0)
    }

    /// The image of an arc under the transform.
    ///
    /// Relies on `kurbo::Affine`'s application to `kurbo::Arc`.
    #[verifier::external_body]
    pub fn mul_arc(&self, rhs: Arc) -> Arc {
        Arc(self.0 * rhs.0)
    }

    /// The image of a circle under the transform, an ellipse.
    ///
    /// Relies on `kurbo::Affine`'s application to `kurbo::Circle`.
    #[verifier::external_body]
    pub fn mul_circle(&self, rhs: Circle) -> Ellipse {
        Ellipse(self.0 * rhs.0)
    }

    /// The image of an ellipse under the transform.
    ///
    /// Relies on `kurbo::Affine`'s application to `kurbo::Ellipse`.
    #[verifier::external_body]
    pub fn mul_ellipse(&self, rhs: Ellipse) -> Ellipse {
        Ellipse(self.0 * rhs.0)
    }

    /// The image of a line under the transform: both end points are
    /// mapped.
    pub fn mul_line(&self, rhs: Line) -> (r: Line)
        ensures
            r.p0 == affine_image(*self, rhs.p0),
            r.p1 == affine_image(*self, rhs.p1),
    {
        Line { p0: self.mul_point(rhs.p0), p1: self.mul_point(rhs.p1) }
    }

    /// The image of a quadratic Bézier under the transform: every
    /// control point is mapped.
    pub fn mul_quadbez(&self, rhs: QuadBez) -> (r: QuadBez)
        ensures
            r.p0 == affine_image(*self, rhs.p0),
            r.p1 == affine_image(*self, rhs.p1),
            r.p2 == affine_image(*self, rhs.p2),
    {
        QuadBez {
            p0: self.mul_point(rhs.p0),
            p1: self.mul_point(rhs.p1),
            p2: self.mul_point(rhs.p2),
        }
    }

    /// The image of a cubic Bézier under the transform: every control
    /// point is mapped.
    pub fn mul_cubicbez(&self, rhs: CubicBez) -> (r: CubicBez)
        ensures
            r.p0 == affine_image(*self, rhs.p0),
            r.p1 == affine_image(*self, rhs.p1),
            r.p2 == affine_image(*self, rhs.p2),
            r.p3 == affine_image(*self, rhs.p3),
    {
        CubicBez {
            p0: self.mul_point(rhs.p0),
            p1: self.mul_point(rhs.p1),
            p2: self.mul_point(rhs.p2),
            p3: self.mul_point(rhs.p3),
        }
    }

    /// The image of a path element under the transform.
    pub fn mul_pathel(&self, rhs: PathEl) -> (r: PathEl)
        ensures
            r == affine_el_image(*self, rhs),
    {
        match rhs {
            PathEl::MoveTo(p) => PathEl::MoveTo(self.mul_point(p)),
            PathEl::LineTo(p) => PathEl::LineTo(self.mul_point(p)),
            PathEl::QuadTo(p1, p2) => PathEl::QuadTo(self.mul_point(p1), self.mul_point(p2)),
            PathEl::CurveTo(p1, p2, p3) => PathEl::CurveTo(
                self.mul_point(p1),
                self.mul_point(p2),
                self.mul_point(p3),
            ),
            PathEl::ClosePath => PathEl::ClosePath,
        }
    }

    /// The image of a path segment under the transform.
    pub fn mul_pathseg(&self, rhs: PathSeg) -> (r: PathSeg)
        ensures
            r == affine_seg_image(*self, rhs),
    {
        match rhs {
            PathSeg::Line(l) => PathSeg::Line(self.mul_line(l)),
            PathSeg::Quad(q) => PathSeg::Quad(self.mul_quadbez(q)),
            PathSeg::Cubic(c) => PathSeg::Cubic(self.mul_cubicbez(c)),
        }
    }
}

} // verus!

//! A single self-contained segment of a path.

use crate::constpoint::ConstPoint;
use crate::cubicbez::cubic_deriv_of;
use crate::cubicbez::CubicBez;
use crate::line::line_deriv_of;
use crate::line::Line;
use crate::pathel::PathEl;
use crate::point::Point;
use crate::quadbez::quad_deriv_of;
use crate::quadbez::raise_of;
use crate::quadbez::QuadBez;
use kurbo::LineIntersection as KLineIntersection;
use kurbo::PathSeg as KPathSeg;
use vstd::prelude::*;

verus! {

/// A segment of a Bézier path: an independent line or curve, with
/// explicit start and end points.
#[derive(Clone, Copy, Debug)]
pub enum PathSeg {
    /// A line segment.
    Line(Line),
    /// A quadratic Bézier segment.
    Quad(QuadBez),
    /// A cubic Bézier segment.
    Cubic(CubicBez),
}

/// The derivative of a [`PathSeg`]: a curve of one lower degree.
#[derive(Clone, Copy, Debug)]
pub enum SegDeriv {
    /// The derivative of a line, a constant.
    Const(ConstPoint),
    /// The derivative of a quadratic, a line.
    Line(Line),
    /// The derivative of a cubic, a quadratic.
    Quad(QuadBez),
}

/// An intersection of a segment and a line, carrying the parameter of
/// the crossing on each of the two.
#[derive(Clone, Copy, Debug)]
pub struct LineIntersection(pub KLineIntersection);

/// The intersections of a segment with a line.
///
/// The values themselves are opaque; what the name carries is that
/// the intersections are a function of the segment and the line
/// alone, so two queries on one pair agree.
pub uninterp spec fn seg_line_hits(s: PathSeg, l: Line) -> Seq<LineIntersection>;

impl LineIntersection {
    /// Is this intersection finite?
    ///
    /// Relies on `kurbo::LineIntersection::is_finite`.
    #[verifier::external_body]
    pub fn is_finite(&self) -> bool {
        self.0.is_finite()
    }

    /// Is this intersection NaN?
    ///
    /// Relies on `kurbo::LineIntersection::is_nan`.
    #[verifier::external_body]
    pub fn is_nan(&self) -> bool {
        self.0.is_nan()
    }
}

impl PathSeg {
    /// The start point of the segment.
    pub open spec fn start_spec(self) -> Point {
        match self {
            PathSeg::Line(l) => l.p0,
            PathSeg::Quad(q) => q.p0,
            PathSeg::Cubic(c) => c.p0,
        }
    }

    /// The end point of the segment.
    pub open spec fn end_spec(self) -> Point {
        match self {
            PathSeg::Line(l) => l.p1,
            PathSeg::Quad(q) => q.p2,
            PathSeg::Cubic(c) => c.p3,
        }
    }

    /// The same segment with its control points in the opposite order.
    pub open spec fn reverse_spec(self) -> PathSeg {
        match self {
            PathSeg::Line(l) => PathSeg::Line(Line { p0: l.p1, p1: l.p0 }),
            PathSeg::Quad(q) => PathSeg::Quad(QuadBez { p0: q.p2, p1: q.p1, p2: q.p0 }),
            PathSeg::Cubic(c) => PathSeg::Cubic(
                CubicBez { p0: c.p3, p1: c.p2, p2: c.p1, p3: c.p0 },
            ),
        }
    }

    /// The element that draws this segment once the start point is the
    /// current location.
    pub open spec fn as_path_el_spec(self) -> PathEl {
        match self {
            PathSeg::Line(l) => PathEl::LineTo(l.p1),
            PathSeg::Quad(q) => PathEl::QuadTo(q.p1, q.p2),
            PathSeg::Cubic(c) => PathEl::CurveTo(c.p1, c.p2, c.p3),
        }
    }

    /// The start point of the segment.
    pub fn start(&self) -> (r: Point)
        ensures
            r == self.start_spec(),
    {
        match self {
            PathSeg::Line(l) => l.p0,
            PathSeg::Quad(q) => q.p0,
            PathSeg::Cubic(c) => c.p0,
        }
    }

    /// The end point of the segment.
    pub fn end(&self) -> (r: Point)
        ensures
            r == self.end_spec(),
    {
        match self {
            PathSeg::Line(l) => l.p1,
            PathSeg::Quad(q) => q.p2,
            PathSeg::Cubic(c) => c.p3,
        }
    }

    /// The segment as a line, if it is one.
    pub fn as_line(&self) -> (r: Option<Line>)
        ensures
            r == (match *self {
                PathSeg::Line(l) => Some(l),
                _ => None::<Line>,
            }),
    {
        if let PathSeg::Line(l) = self {
            Some(*l)
        } else {
            None
        }
    }

    /// The segment as a quadratic Bézier, if it is one.
    pub fn as_quad(&self) -> (r: Option<QuadBez>)
        ensures
            r == (match *self {
                PathSeg::Quad(q) => Some(q),
                _ => None::<QuadBez>,
            }),
    {
        if let PathSeg::Quad(q) = self {
            Some(*q)
        } else {
            None
        }
    }

    /// The segment as a cubic Bézier, if it is one.
    pub fn as_cubic(&self) -> (r: Option<CubicBez>)
        ensures
            r == (match *self {
                PathSeg::Cubic(c) => Some(c),
                _ => None::<CubicBez>,
            }),
    {
        if let PathSeg::Cubic(c) = self {
            Some(*c)
        } else {
            None
        }
    }

    /// Get the [`PathEl`] that is equivalent to discarding the segment
    /// start point.
    pub fn as_path_el(&self) -> (r: PathEl)
        ensures
            r == self.as_path_el_spec(),
    {
        match self {
            PathSeg::Line(l) => PathEl::LineTo(l.p1),
            PathSeg::Quad(q) => PathEl::QuadTo(q.p1, q.p2),
            PathSeg::Cubic(c) => PathEl::CurveTo(c.p1, c.p2, c.p3),
        }
    }

    /// Returns a new `PathSeg` describing the same path as `self`, but
    /// with the points reversed.
    pub fn reverse(&self) -> (r: PathSeg)
        ensures
            r == self.reverse_spec(),
    {
        match self {
            PathSeg::Line(l) => PathSeg::Line(Line { p0: l.p1, p1: l.p0 }),
            PathSeg::Quad(q) => PathSeg::Quad(QuadBez { p0: q.p2, p1: q.p1, p2: q.p0 }),
            PathSeg::Cubic(c) => PathSeg::Cubic(
                CubicBez { p0: c.p3, p1: c.p2, p2: c.p1, p3: c.p0 },
            ),
        }
    }

    /// Convert this segment to a cubic Bézier.
    ///
    /// A line becomes the degenerate cubic whose control points sit on
    /// its two end points, a cubic is returned unchanged, and a
    /// quadratic is raised by one degree; in every case the end points
    /// are kept.
    pub fn to_cubic(&self) -> (r: CubicBez)
        ensures
            *self matches PathSeg::Line(l) ==> r == (CubicBez {
                p0: l.p0,
                p1: l.p0,
                p2: l.p1,
                p3: l.p1,
            }),
            *self matches PathSeg::Quad(q) ==> r == raise_of(q),
            *self matches PathSeg::Cubic(c) ==> r == c,
            r.p0 == self.start_spec(),
            r.p3 == self.end_spec(),
    {
        match self {
            PathSeg::Line(l) => CubicBez { p0: l.p0, p1: l.p0, p2: l.p1, p3: l.p1 },
            PathSeg::Quad(q) => q.raise(),
            PathSeg::Cubic(c) => *c,
        }
    }

    /// The derivative of the segment, a curve of one lower degree:
    /// a line yields a constant, a quadratic a line, a cubic a
    /// quadratic, each the derivative of that curve.
    pub fn deriv(&self) -> (r: SegDeriv)
        ensures
            *self matches PathSeg::Line(l) ==> r == SegDeriv::Const(line_deriv_of(l)),
            *self matches PathSeg::Quad(q) ==> r == SegDeriv::Line(quad_deriv_of(q)),
            *self matches PathSeg::Cubic(c) ==> r == SegDeriv::Quad(cubic_deriv_of(c)),
    {
        match self {
            PathSeg::Line(l) => SegDeriv::Const(l.deriv()),
            PathSeg::Quad(q) => SegDeriv::Line(q.deriv()),
            PathSeg::Cubic(c) => SegDeriv::Quad(c.deriv()),
        }
    }

    /// Whether every control point of the segment is finite.
    pub open spec fn finite_spec(self) -> bool {
        match self {
            PathSeg::Line(l) => l.finite_spec(),
            PathSeg::Quad(q) => q.finite_spec(),
            PathSeg::Cubic(c) => c.finite_spec(),
        }
    }

    /// Whether a control point of the segment is NaN.
    pub open spec fn nan_spec(self) -> bool {
        match self {
            PathSeg::Line(l) => l.nan_spec(),
            PathSeg::Quad(q) => q.nan_spec(),
            PathSeg::Cubic(c) => c.nan_spec(),
        }
    }

    /// Is this segment finite?
    pub fn is_finite(&self) -> (r: bool)
        ensures
            r == self.finite_spec(),
    {
        match self {
            PathSeg::Line(l) => l.is_finite(),
            PathSeg::Quad(q) => q.is_finite(),
            PathSeg::Cubic(c) => c.is_finite(),
        }
    }

    /// Is this segment NaN?
    pub fn is_nan(&self) -> (r: bool)
        ensures
            r == self.nan_spec(),
    {
        match self {
            PathSeg::Line(l) => l.is_nan(),
            PathSeg::Quad(q) => q.is_nan(),
            PathSeg::Cubic(c) => c.is_nan(),
        }
    }

    /// The same segment as a `kurbo` value.
    ///
    /// Relies on `kurbo::PathSeg` and the segment constructors of
    /// `kurbo` being plain constructors.
    #[verifier::external_body]
    pub(crate) fn to_kurbo(&self) -> KPathSeg {
        match self {
            PathSeg::Line(l) => KPathSeg::Line(l.to_kurbo()),
            PathSeg::Quad(q) => KPathSeg::Quad(q.to_kurbo()),
            PathSeg::Cubic(c) => KPathSeg::Cubic(c.to_kurbo()),
        }
    }

    /// Compute intersections against a line.
    ///
    /// Returns a vector of the intersections.  For each intersection,
    /// the `t` value of the segment and line are given.  The test is
    /// inclusive of points near the endpoints of the segment, so the
    /// `t` values may be slightly outside the range 0..1; a caller
    /// scanning contiguous segments is responsible for coalescing hits.
    ///
    /// Relies on `kurbo::PathSeg::intersect_line`, which computes the
    /// intersections from the segment and the line alone; it pushes
    /// at most one hit per root of the distance polynomial, whose
    /// degree is the segment's: one for a line, two for a quadratic,
    /// three for a cubic.
    #[verifier::external_body]
    pub fn intersect_line(&self, line: Line) -> (r: Vec<LineIntersection>)
        ensures
            r@ == seg_line_hits(*self, line),
            r@.len() <= 3,
            self is Line ==> r@.len() <= 1,
            self is Quad ==> r@.len() <= 2,
    {
        self.to_kurbo()
            .intersect_line(line.to_kurbo())
            .into_iter()
            .map(LineIntersection)
            .collect()
    }
}

/// Every segment reversed twice is the segment itself.
pub proof fn lemma_reverse_involution(s: PathSeg)
    ensures
        s.reverse_spec().reverse_spec() == s,
{
}

/// A reversed segment swaps its start and end points.
pub proof fn lemma_reverse_swaps_ends(s: PathSeg)
    ensures
        s.reverse_spec().start_spec() == s.end_spec(),
        s.reverse_spec().end_spec() == s.start_spec(),
{
}

/// A segment's drawing element ends where the segment ends.
pub proof fn lemma_as_path_el_end(s: PathSeg)
    ensures
        s.as_path_el_spec().end_point_spec() == Some(s.end_spec()),
{
}

} // verus!

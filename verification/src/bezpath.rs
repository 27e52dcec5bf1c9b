//! A Bézier path: a sequence of drawing instructions.
//!
//! A path can be read in two ways: as its *elements* (the raw drawing
//! instructions, [`PathEl`]) or as its *segments* (independent lines
//! and curves, [`PathSeg`]), derived from consecutive elements.  The
//! derivation, the per-index segment lookup and the subpath reversal
//! are specified over the element sequence and verified.

use crate::affine::affine_el_image;
use crate::affine::affine_image;
use crate::affine::affine_seg_image;
use crate::affine::Affine;
use crate::cubicbez::CubicBez;
use crate::line::Line;
use crate::pathel::PathEl;
use crate::pathseg::LineIntersection;
use crate::pathseg::PathSeg;
use crate::point::nan_of;
use crate::point::Point;
use crate::quadbez::QuadBez;
use crate::rect::rect_of_points;
use crate::rect::union_pt_of;
use crate::rect::Rect;
use crate::translatescale::ts_el_image;
use crate::translatescale::TranslateScale;
use kurbo::PathEl as KPathEl;
use vstd::prelude::*;

verus! {

/// A Bézier path, stored as its element sequence.
///
/// The path may contain several subpaths, each started by a `MoveTo`.
/// The first element of a non-empty path should be a `MoveTo` for the
/// segment reading to be meaningful; this is not enforced, matching
/// the permissive element model, and the few operations that cannot
/// give the leading element another meaning state so in their
/// `requires`.
#[derive(Clone, Debug)]
pub struct BezPath {
    /// The drawing instructions, in order.
    pub elements: Vec<PathEl>,
}

impl View for BezPath {
    type V = Seq<PathEl>;

    open spec fn view(&self) -> Seq<PathEl> {
        self.elements@
    }
}

/// The point that seeds both the subpath start and the current point
/// when segment iteration begins on the given first element.
pub open spec fn el_init_point(el: PathEl) -> Point {
    match el {
        PathEl::MoveTo(p) => p,
        PathEl::LineTo(p) => p,
        PathEl::QuadTo(_, p2) => p2,
        PathEl::CurveTo(_, _, p3) => p3,
        PathEl::ClosePath => arbitrary(),
    }
}

/// The segments drawn by `els` when iteration starts with the given
/// subpath start and current point.
///
/// A `MoveTo` starts a new subpath and draws nothing; the three
/// drawing elements each yield one segment from the current point; a
/// `ClosePath` yields the segment back to the subpath start, also when
/// that segment is degenerate, and makes the start the current point.
pub open spec fn segments_from(els: Seq<PathEl>, start: Point, last: Point) -> Seq<PathSeg>
    decreases els.len(),
{
    if els.len() == 0 {
        Seq::empty()
    } else {
        let rest = els.skip(1);
        match els[0] {
            PathEl::MoveTo(p) => segments_from(rest, p, p),
            PathEl::LineTo(p) => seq![PathSeg::Line(Line { p0: last, p1: p })]
                + segments_from(rest, start, p),
            PathEl::QuadTo(p1, p2) => seq![
                PathSeg::Quad(QuadBez { p0: last, p1: p1, p2: p2 }),
            ] + segments_from(rest, start, p2),
            PathEl::CurveTo(p1, p2, p3) => seq![
                PathSeg::Cubic(CubicBez { p0: last, p1: p1, p2: p2, p3: p3 }),
            ] + segments_from(rest, start, p3),
            PathEl::ClosePath => seq![PathSeg::Line(Line { p0: last, p1: start })]
                + segments_from(rest, start, start),
        }
    }
}

/// The segments drawn by the element sequence.  Meaningful when the
/// sequence does not begin with a `ClosePath`.
pub open spec fn path_segments(els: Seq<PathEl>) -> Seq<PathSeg> {
    if els.len() == 0 {
        Seq::empty()
    } else {
        segments_from(els, el_init_point(els[0]), el_init_point(els[0]))
    }
}

/// How many elements of the sequence draw a segment: every element
/// but a `MoveTo` does, a `ClosePath` included.
pub open spec fn drawn_count(els: Seq<PathEl>) -> nat
    decreases els.len(),
{
    if els.len() == 0 {
        0
    } else {
        (if els[0] is MoveTo {
            0nat
        } else {
            1nat
        }) + drawn_count(els.skip(1))
    }
}

proof fn lemma_segments_from_count(els: Seq<PathEl>, start: Point, last: Point)
    ensures
        segments_from(els, start, last).len() == drawn_count(els),
    decreases els.len(),
{
    if els.len() > 0 {
        let rest = els.skip(1);
        match els[0] {
            PathEl::MoveTo(p) => lemma_segments_from_count(rest, p, p),
            PathEl::LineTo(p) => lemma_segments_from_count(rest, start, p),
            PathEl::QuadTo(_, p2) => lemma_segments_from_count(rest, start, p2),
            PathEl::CurveTo(_, _, p3) => lemma_segments_from_count(rest, start, p3),
            PathEl::ClosePath => lemma_segments_from_count(rest, start, start),
        }
    }
}

/// Segment iteration yields exactly one segment per element that
/// draws: one per `LineTo`, `QuadTo`, `CurveTo` and `ClosePath`.
pub proof fn lemma_segment_count(els: Seq<PathEl>)
    ensures
        path_segments(els).len() == drawn_count(els),
{
    if els.len() > 0 {
        lemma_segments_from_count(els, el_init_point(els[0]), el_init_point(els[0]));
    }
}

proof fn lemma_segments_from_affine(a: Affine, els: Seq<PathEl>, start: Point, last: Point)
    ensures
        segments_from(
            els.map_values(|el: PathEl| affine_el_image(a, el)),
            affine_image(a, start),
            affine_image(a, last),
        ) == segments_from(els, start, last).map_values(|s: PathSeg| affine_seg_image(a, s)),
    decreases els.len(),
{
    let mapped = els.map_values(|el: PathEl| affine_el_image(a, el));
    if els.len() == 0 {
        assert(segments_from(els, start, last).map_values(
            |s: PathSeg| affine_seg_image(a, s),
        ) =~= Seq::<PathSeg>::empty());
    } else {
        assert(mapped[0] == affine_el_image(a, els[0]));
        assert(mapped.skip(1) =~= els.skip(1).map_values(|el: PathEl| affine_el_image(a, el)));
        match els[0] {
            PathEl::MoveTo(p) => {
                lemma_segments_from_affine(a, els.skip(1), p, p);
            },
            PathEl::LineTo(p) => {
                lemma_segments_from_affine(a, els.skip(1), start, p);
                assert(segments_from(mapped, affine_image(a, start), affine_image(a, last))
                    =~= segments_from(els, start, last).map_values(
                    |s: PathSeg| affine_seg_image(a, s),
                ));
            },
            PathEl::QuadTo(p1, p2) => {
                lemma_segments_from_affine(a, els.skip(1), start, p2);
                assert(segments_from(mapped, affine_image(a, start), affine_image(a, last))
                    =~= segments_from(els, start, last).map_values(
                    |s: PathSeg| affine_seg_image(a, s),
                ));
            },
            PathEl::CurveTo(p1, p2, p3) => {
                lemma_segments_from_affine(a, els.skip(1), start, p3);
                assert(segments_from(mapped, affine_image(a, start), affine_image(a, last))
                    =~= segments_from(els, start, last).map_values(
                    |s: PathSeg| affine_seg_image(a, s),
                ));
            },
            PathEl::ClosePath => {
                lemma_segments_from_affine(a, els.skip(1), start, start);
                assert(segments_from(mapped, affine_image(a, start), affine_image(a, last))
                    =~= segments_from(els, start, last).map_values(
                    |s: PathSeg| affine_seg_image(a, s),
                ));
            },
        }
    }
}

/// An affine transform commutes with segment reading: transforming
/// the elements and then reading the segments yields the transformed
/// segments.
pub proof fn lemma_affine_segments(a: Affine, els: Seq<PathEl>)
    requires
        segmentable(els),
    ensures
        path_segments(els.map_values(|el: PathEl| affine_el_image(a, el))) == path_segments(
            els,
        ).map_values(|s: PathSeg| affine_seg_image(a, s)),
{
    let mapped = els.map_values(|el: PathEl| affine_el_image(a, el));
    if els.len() == 0 {
        assert(path_segments(els).map_values(|s: PathSeg| affine_seg_image(a, s))
            =~= Seq::<PathSeg>::empty());
        assert(mapped =~= Seq::<PathEl>::empty());
    } else {
        assert(mapped[0] == affine_el_image(a, els[0]));
        assert(el_init_point(mapped[0]) == affine_image(a, el_init_point(els[0])));
        lemma_segments_from_affine(a, els, el_init_point(els[0]), el_init_point(els[0]));
    }
}

/// The point of the latest `MoveTo` among the first `ix` elements, if
/// any.
pub open spec fn last_move_before(els: Seq<PathEl>, ix: int) -> Option<Point>
    decreases ix,
{
    if ix <= 0 {
        None
    } else {
        match els[ix - 1] {
            PathEl::MoveTo(p) => Some(p),
            _ => last_move_before(els, ix - 1),
        }
    }
}

/// The segment that ends at element `ix`, if one does.
///
/// No segment ends at a `MoveTo`, at index 0, or after a `ClosePath`;
/// a `ClosePath` element yields the segment back to the latest
/// preceding `MoveTo`, also when that segment is degenerate.
pub open spec fn seg_at(els: Seq<PathEl>, ix: int) -> Option<PathSeg> {
    if ix <= 0 || ix >= els.len() {
        None
    } else {
        match els[ix - 1].end_point_spec() {
            None => None,
            Some(last) => match els[ix] {
                PathEl::LineTo(p) => Some(PathSeg::Line(Line { p0: last, p1: p })),
                PathEl::QuadTo(p1, p2) => Some(
                    PathSeg::Quad(QuadBez { p0: last, p1: p1, p2: p2 }),
                ),
                PathEl::CurveTo(p1, p2, p3) => Some(
                    PathSeg::Cubic(CubicBez { p0: last, p1: p1, p2: p2, p3: p3 }),
                ),
                PathEl::ClosePath => match last_move_before(els, ix) {
                    Some(start) => Some(PathSeg::Line(Line { p0: last, p1: start })),
                    None => None,
                },
                PathEl::MoveTo(_) => None,
            },
        }
    }
}

/// Whether segment iteration is meaningful: the path is empty or does
/// not begin with a `ClosePath`.
pub open spec fn segmentable(els: Seq<PathEl>) -> bool {
    els.len() > 0 ==> !(els[0] is ClosePath)
}

/// The end point of an element, or the fallback for an element that
/// has none.
pub open spec fn el_end_or(el: PathEl, fallback: Point) -> Point {
    match el.end_point_spec() {
        Some(p) => p,
        None => fallback,
    }
}

/// A drawing element with its direction turned around: the element
/// that draws the same curve backwards, given the end point of the
/// reversed element.
pub open spec fn rev_el(el: PathEl, prev_end: Point) -> PathEl {
    match el {
        PathEl::LineTo(_) => PathEl::LineTo(prev_end),
        PathEl::QuadTo(c0, _) => PathEl::QuadTo(c0, prev_end),
        PathEl::CurveTo(c0, c1, _) => PathEl::CurveTo(c1, c0, prev_end),
        _ => el,
    }
}

/// The point where the element before index `j` of a subpath body
/// ends: the subpath start for `j == 0`.
pub open spec fn chunk_prev_end(start_pt: Point, chunk: Seq<PathEl>, j: int) -> Point {
    if j <= 0 {
        start_pt
    } else {
        el_end_or(chunk[j - 1], start_pt)
    }
}

/// The reversal of one subpath body (drawing elements only, no
/// `MoveTo` or `ClosePath`): a `MoveTo` to the old end, then the
/// elements backwards, each drawn towards the end of its predecessor.
pub open spec fn reversed_chunk(start_pt: Point, chunk: Seq<PathEl>) -> Seq<PathEl> {
    seq![PathEl::MoveTo(chunk_prev_end(start_pt, chunk, chunk.len() as int))] + Seq::new(
        chunk.len(),
        |i: int|
            rev_el(
                chunk[chunk.len() - 1 - i],
                chunk_prev_end(start_pt, chunk, chunk.len() - 1 - i),
            ),
    )
}

/// The state of the subpath-reversal scan after the first `n` elements:
/// the output so far, the index where the current subpath body begins,
/// the current subpath's start point, and whether a `MoveTo` is
/// pending for a subpath that so far has no body.
pub open spec fn rev_state(els: Seq<PathEl>, o: Point, n: int) -> (Seq<PathEl>, int, Point, bool)
    decreases n,
{
    if n <= 0 {
        (Seq::empty(), 1, o, false)
    } else {
        let state = rev_state(els, o, n - 1);
        let out = state.0;
        let six = state.1;
        let spt = state.2;
        let pend = state.3;
        let ix = n - 1;
        match els[ix] {
            PathEl::MoveTo(p) => {
                let out1 = if pend {
                    out.push(PathEl::MoveTo(spt))
                } else {
                    out
                };
                let out2 = if six < ix {
                    out1 + reversed_chunk(spt, els.subrange(six, ix))
                } else {
                    out1
                };
                (out2, ix + 1, p, true)
            },
            PathEl::ClosePath => {
                let out1 = if six <= ix {
                    out + reversed_chunk(spt, els.subrange(six, ix))
                } else {
                    out
                };
                (out1.push(PathEl::ClosePath), ix + 1, spt, false)
            },
            _ => (out, six, spt, false),
        }
    }
}

/// The element sequence with the winding direction of every subpath
/// reversed.  `o` is the start point assumed for a leading subpath
/// that no `MoveTo` opened; it does not reach the result on a path
/// that begins with a `MoveTo`.
pub open spec fn reversed_elements(els: Seq<PathEl>, o: Point) -> Seq<PathEl> {
    let state = rev_state(els, o, els.len() as int);
    let out = state.0;
    let six = state.1;
    let spt = state.2;
    let pend = state.3;
    if six < els.len() {
        out + reversed_chunk(spt, els.subrange(six, els.len() as int))
    } else if pend {
        out.push(PathEl::MoveTo(spt))
    } else {
        out
    }
}

/// Whether the element draws a segment: it is a `LineTo`, a `QuadTo`
/// or a `CurveTo`.
pub open spec fn el_draws(el: PathEl) -> bool {
    el is LineTo || el is QuadTo || el is CurveTo
}

/// The segment a drawing element draws from the given current point.
pub open spec fn seg_from(last: Point, el: PathEl) -> PathSeg {
    match el {
        PathEl::LineTo(p) => PathSeg::Line(Line { p0: last, p1: p }),
        PathEl::QuadTo(p1, p2) => PathSeg::Quad(QuadBez { p0: last, p1: p1, p2: p2 }),
        PathEl::CurveTo(p1, p2, p3) => PathSeg::Cubic(
            CubicBez { p0: last, p1: p1, p2: p2, p3: p3 },
        ),
        _ => arbitrary(),
    }
}

/// On a run of drawing elements, segment iteration yields one segment
/// per element, each drawn from the end of its predecessor.
proof fn lemma_segments_of_drawing_run(els: Seq<PathEl>, start: Point, last: Point)
    requires
        forall|i: int| 0 <= i < els.len() ==> el_draws(#[trigger] els[i]),
    ensures
        segments_from(els, start, last).len() == els.len(),
        forall|k: int|
            0 <= k < els.len() ==> segments_from(els, start, last)[k] == seg_from(
                if k == 0 {
                    last
                } else {
                    el_end_or(els[k - 1], last)
                },
                els[k],
            ),
    decreases els.len(),
{
    if els.len() == 0 {
    } else {
        let rest = els.skip(1);
        let new_last = el_end_or(els[0], last);
        assert(forall|i: int| 0 <= i < rest.len() ==> el_draws(#[trigger] rest[i]));
        lemma_segments_of_drawing_run(rest, start, new_last);
        let whole = segments_from(els, start, last);
        let tail = segments_from(rest, start, new_last);
        assert(whole =~= seq![seg_from(last, els[0])] + tail);
        assert forall|k: int| 0 <= k < els.len() implies whole[k] == seg_from(
            if k == 0 {
                last
            } else {
                el_end_or(els[k - 1], last)
            },
            els[k],
        ) by {
            if k > 0 {
                assert(whole[k] == tail[k - 1]);
                assert(rest[k - 1] == els[k]);
                if k == 1 {
                    assert(tail[0] == seg_from(new_last, rest[0]));
                } else {
                    assert(rest[k - 2] == els[k - 1]);
                    assert(el_draws(els[k - 1]));
                    assert(el_end_or(els[k - 1], new_last) == el_end_or(els[k - 1], last));
                }
            }
        }
    }
}

/// On a single open subpath — a `MoveTo` followed by drawing elements
/// only — the two read views of a path agree: the segment that ends at
/// element `k` is the `(k-1)`-th segment of the segment iteration.
pub proof fn lemma_get_seg_matches_segments(els: Seq<PathEl>)
    requires
        els.len() >= 1,
        els[0] is MoveTo,
        forall|i: int| 1 <= i < els.len() ==> el_draws(#[trigger] els[i]),
    ensures
        path_segments(els).len() == els.len() - 1,
        forall|k: int| 1 <= k < els.len() ==> seg_at(els, k) == Some(path_segments(els)[k - 1]),
{
    let p = el_init_point(els[0]);
    let body = els.skip(1);
    assert(forall|i: int| 0 <= i < body.len() ==> el_draws(#[trigger] body[i]));
    lemma_segments_of_drawing_run(body, p, p);
    assert(path_segments(els) == segments_from(body, p, p));
    assert forall|k: int| 1 <= k < els.len() implies seg_at(els, k) == Some(
        path_segments(els)[k - 1],
    ) by {
        assert(body[k - 1] == els[k]);
        if k == 1 {
            assert(els[0].end_point_spec() == Some(p));
            assert(path_segments(els)[0] == seg_from(p, els[1]));
        } else {
            assert(body[k - 2] == els[k - 1]);
            assert(el_draws(els[k - 1]));
            assert(path_segments(els)[k - 1] == seg_from(el_end_or(els[k - 1], p), els[k]));
            assert(els[k - 1].end_point_spec() == Some(el_end_or(els[k - 1], p)));
        }
    }
}

/// On a path that begins with a `MoveTo`, the fallback origin never
/// reaches the scan state: after the first element the states agree.
proof fn lemma_rev_state_ignores_origin(els: Seq<PathEl>, o1: Point, o2: Point, n: int)
    requires
        els.len() >= 1,
        els[0] is MoveTo,
        1 <= n,
    ensures
        rev_state(els, o1, n) == rev_state(els, o2, n),
    decreases n,
{
    if n == 1 {
        reveal_with_fuel(rev_state, 2);
        assert(rev_state(els, o1, 1) == rev_state(els, o2, 1));
    } else {
        lemma_rev_state_ignores_origin(els, o1, o2, n - 1);
    }
}

/// Reversing the subpaths of a path that begins with a `MoveTo` does
/// not depend on the fallback origin.
pub proof fn lemma_reversed_ignores_origin(els: Seq<PathEl>, o1: Point, o2: Point)
    requires
        els.len() >= 1,
        els[0] is MoveTo,
    ensures
        reversed_elements(els, o1) == reversed_elements(els, o2),
{
    lemma_rev_state_ignores_origin(els, o1, o2, els.len() as int);
}

/// The reversal of a subpath body has one element more than the body:
/// the `MoveTo` that opens the reversed subpath.
proof fn lemma_reversed_chunk_len(start_pt: Point, chunk: Seq<PathEl>)
    ensures
        reversed_chunk(start_pt, chunk).len() == chunk.len() + 1,
{
}

/// Whether every closed subpath is followed by an explicit new
/// subpath: after a `ClosePath`, the path either ends or opens the
/// next subpath with a `MoveTo`.  On other paths, drawing continues
/// implicitly from the closed subpath's start, and reversal makes that
/// restart explicit with an extra `MoveTo`.
pub open spec fn closes_then_moves(els: Seq<PathEl>) -> bool {
    forall|i: int|
        0 <= i && i + 1 < els.len() && els[i] is ClosePath ==> (#[trigger] els[i + 1]) is MoveTo
}

/// The size bookkeeping of the reversal scan: every consumed element
/// is either already in the output, or waits in the open subpath,
/// whose reversal will add one more element in place of the `MoveTo`
/// that opened it.
proof fn lemma_rev_state_len(els: Seq<PathEl>, o: Point, n: int)
    requires
        els.len() >= 1,
        els[0] is MoveTo,
        closes_then_moves(els),
        1 <= n <= els.len(),
    ensures
        1 <= rev_state(els, o, n).1 <= n,
        rev_state(els, o, n).3 ==> rev_state(els, o, n).1 == n && els[n - 1] is MoveTo,
        !rev_state(els, o, n).3 && rev_state(els, o, n).1 == n ==> els[n - 1] is ClosePath,
        rev_state(els, o, n).1 < n ==> els[rev_state(els, o, n).1 - 1] is MoveTo,
        rev_state(els, o, n).0.len() + (if rev_state(els, o, n).1 < n || rev_state(
            els,
            o,
            n,
        ).3 {
            n - rev_state(els, o, n).1 + 1
        } else {
            0
        }) == n,
    decreases n,
{
    if n == 1 {
        reveal_with_fuel(rev_state, 2);
    } else {
        lemma_rev_state_len(els, o, n - 1);
        let prev = rev_state(els, o, n - 1);
        let ix = n - 1;
        match els[ix] {
            PathEl::MoveTo(_) => {
                if prev.1 < ix {
                    lemma_reversed_chunk_len(prev.2, els.subrange(prev.1, ix));
                }
            },
            PathEl::ClosePath => {
                if prev.1 <= ix {
                    lemma_reversed_chunk_len(prev.2, els.subrange(prev.1, ix));
                }
            },
            _ => {},
        }
    }
}

/// Reversing the subpaths keeps the number of elements, on a path
/// that begins with a `MoveTo` and opens a new subpath after every
/// `ClosePath`.
pub proof fn lemma_reversed_preserves_len(els: Seq<PathEl>, o: Point)
    requires
        els.len() >= 1,
        els[0] is MoveTo,
        closes_then_moves(els),
    ensures
        reversed_elements(els, o).len() == els.len(),
{
    let n = els.len() as int;
    lemma_rev_state_len(els, o, n);
    let state = rev_state(els, o, n);
    if state.1 < n {
        lemma_reversed_chunk_len(state.2, els.subrange(state.1, n));
    }
}

/// On a path of one subpath — a `MoveTo` and drawing elements — the
/// reversal scan carries an empty output and an open body throughout.
proof fn lemma_rev_state_single(els: Seq<PathEl>, o: Point, n: int)
    requires
        els.len() >= 1,
        els[0] is MoveTo,
        forall|i: int| 1 <= i < n ==> el_draws(#[trigger] els[i]),
        1 <= n <= els.len(),
    ensures
        rev_state(els, o, n) == (Seq::<PathEl>::empty(), 1int, els[0]->MoveTo_0, n == 1),
    decreases n,
{
    if n == 1 {
        reveal_with_fuel(rev_state, 2);
    } else {
        lemma_rev_state_single(els, o, n - 1);
    }
}

/// The reversal of a path of one subpath is the reversal of its body.
pub proof fn lemma_reversed_of_single_subpath(els: Seq<PathEl>, o: Point)
    requires
        els.len() >= 1,
        els[0] is MoveTo,
        forall|i: int| 1 <= i < els.len() ==> el_draws(#[trigger] els[i]),
    ensures
        els.len() == 1 ==> reversed_elements(els, o) == els,
        els.len() > 1 ==> reversed_elements(els, o) == reversed_chunk(
            els[0]->MoveTo_0,
            els.skip(1),
        ),
{
    lemma_rev_state_single(els, o, els.len() as int);
    let p = els[0]->MoveTo_0;
    if els.len() == 1 {
        assert(reversed_elements(els, o) =~= els);
    } else {
        assert(els.subrange(1, els.len() as int) =~= els.skip(1));
        assert(reversed_elements(els, o) =~= reversed_chunk(p, els.skip(1)));
    }
}

/// Turning a drawing element around twice, the second time towards
/// its own old end, restores it.
proof fn lemma_rev_el_involution(el: PathEl, prev: Point, fallback: Point)
    requires
        el_draws(el),
    ensures
        rev_el(rev_el(el, prev), el_end_or(el, fallback)) == el,
{
}

/// Reversing a reversed subpath body restores the subpath, made
/// explicit: the old start becomes the final `MoveTo`.
proof fn lemma_reversed_chunk_involution(p: Point, body: Seq<PathEl>)
    requires
        body.len() >= 1,
        forall|i: int| 0 <= i < body.len() ==> el_draws(#[trigger] body[i]),
    ensures
        reversed_chunk(p, body)[0] == PathEl::MoveTo(
            chunk_prev_end(p, body, body.len() as int),
        ),
        forall|i: int|
            1 <= i < reversed_chunk(p, body).len() ==> el_draws(
                #[trigger] reversed_chunk(p, body)[i],
            ),
        reversed_chunk(
            chunk_prev_end(p, body, body.len() as int),
            reversed_chunk(p, body).skip(1),
        ) == seq![PathEl::MoveTo(p)] + body,
{
    let m = body.len() as int;
    let rc = reversed_chunk(p, body);
    let e = chunk_prev_end(p, body, m);
    let rb = rc.skip(1);
    assert(rb =~= Seq::new(
        body.len(),
        |i: int| rev_el(body[m - 1 - i], chunk_prev_end(p, body, m - 1 - i)),
    ));
    assert forall|i: int| 0 <= i < m implies el_draws(rb[i]) by {
        assert(el_draws(body[m - 1 - i]));
    }
    assert forall|i: int| 1 <= i < rc.len() implies el_draws(rc[i]) by {
        assert(rc[i] == rb[i - 1]);
    }
    // a turned element ends at the point it was turned towards
    assert forall|i: int| 0 <= i < m implies el_end_or(rb[i], e) == chunk_prev_end(
        p,
        body,
        m - 1 - i,
    ) by {
        assert(el_draws(body[m - 1 - i]));
    }
    let out = reversed_chunk(e, rb);
    assert(chunk_prev_end(e, rb, m) == p);
    assert forall|i: int| 0 <= i < m implies out[1 + i] == body[i] by {
        let j = m - 1 - i;
        assert(rb[j] == rev_el(body[i], chunk_prev_end(p, body, i)));
        assert(chunk_prev_end(e, rb, j) == el_end_or(body[i], p));
        lemma_rev_el_involution(body[i], chunk_prev_end(p, body, i), p);
    }
    assert(out =~= seq![PathEl::MoveTo(p)] + body);
}

/// The reversal of a path of one closed subpath — a `MoveTo`, drawing
/// elements and a final `ClosePath` — is the reversal of its body,
/// closed again.
pub proof fn lemma_reversed_of_closed_subpath(els: Seq<PathEl>, o: Point)
    requires
        els.len() >= 2,
        els[0] is MoveTo,
        els.last() is ClosePath,
        forall|i: int| 1 <= i < els.len() - 1 ==> el_draws(#[trigger] els[i]),
    ensures
        reversed_elements(els, o) == reversed_chunk(
            els[0]->MoveTo_0,
            els.subrange(1, els.len() - 1),
        ) + seq![PathEl::ClosePath],
{
    let n = els.len() as int;
    let p = els[0]->MoveTo_0;
    lemma_rev_state_single(els, o, n - 1);
    assert(reversed_elements(els, o) =~= reversed_chunk(p, els.subrange(1, n - 1)) + seq![
        PathEl::ClosePath,
    ]);
}

/// One subpath: a `MoveTo`, drawing elements, and at most a final
/// `ClosePath`.
pub open spec fn one_subpath(els: Seq<PathEl>) -> bool {
    &&& els.len() >= 1
    &&& els[0] is MoveTo
    &&& forall|i: int| 1 <= i < els.len() - 1 ==> el_draws(#[trigger] els[i])
    &&& (els.len() > 1 ==> (el_draws(els.last()) || els.last() is ClosePath))
}

/// The reversal of one subpath: its body turned around, closed again
/// if it was closed.
pub open spec fn rev_one(els: Seq<PathEl>) -> Seq<PathEl> {
    if els.len() <= 1 {
        els
    } else if els.last() is ClosePath {
        reversed_chunk(els[0]->MoveTo_0, els.subrange(1, els.len() - 1)) + seq![
            PathEl::ClosePath,
        ]
    } else {
        reversed_chunk(els[0]->MoveTo_0, els.skip(1))
    }
}

/// The reversal of a path of one subpath is the reversal of that
/// subpath.
proof fn lemma_reversed_of_one_subpath(els: Seq<PathEl>, o: Point)
    requires
        one_subpath(els),
    ensures
        reversed_elements(els, o) == rev_one(els),
{
    if els.len() == 1 {
        lemma_reversed_of_single_subpath(els, o);
    } else if els.last() is ClosePath {
        lemma_reversed_of_closed_subpath(els, o);
    } else {
        lemma_reversed_of_single_subpath(els, o);
    }
}

/// Reversing one subpath keeps its length, its kind, and its shape,
/// and reversing it twice restores it.
proof fn lemma_rev_one_involution(els: Seq<PathEl>)
    requires
        one_subpath(els),
    ensures
        one_subpath(rev_one(els)),
        rev_one(els).len() == els.len(),
        rev_one(els)[0] is MoveTo,
        rev_one(rev_one(els)) == els,
{
    let n = els.len() as int;
    let p = els[0]->MoveTo_0;
    if n == 1 {
    } else if els.last() is ClosePath {
        let body = els.subrange(1, n - 1);
        if body.len() == 0 {
            assert(rev_one(els) =~= seq![PathEl::MoveTo(p), PathEl::ClosePath]);
            assert(rev_one(els) =~= els);
        } else {
            lemma_reversed_chunk_involution(p, body);
            lemma_reversed_chunk_len(p, body);
            let rc = reversed_chunk(p, body);
            let e = chunk_prev_end(p, body, body.len() as int);
            let rv = rev_one(els);
            assert(rv =~= rc + seq![PathEl::ClosePath]);
            assert(rv[0] == PathEl::MoveTo(e));
            assert forall|i: int| 1 <= i < rv.len() - 1 implies el_draws(
                #[trigger] rv[i],
            ) by {
                assert(rv[i] == rc[i]);
            }
            assert(one_subpath(rv));
            assert(rv.subrange(1, rv.len() - 1) =~= rc.skip(1));
            assert(rev_one(rv) =~= (seq![PathEl::MoveTo(p)] + body) + seq![
                PathEl::ClosePath,
            ]);
            assert((seq![PathEl::MoveTo(p)] + body) + seq![PathEl::ClosePath] =~= els);
        }
    } else {
        let body = els.skip(1);
        assert(el_draws(els.last()));
        assert(forall|i: int| 0 <= i < body.len() ==> el_draws(#[trigger] body[i]));
        lemma_reversed_chunk_involution(p, body);
        lemma_reversed_chunk_len(p, body);
        let rc = reversed_chunk(p, body);
        let e = chunk_prev_end(p, body, body.len() as int);
        assert(rc[0] == PathEl::MoveTo(e));
        assert(one_subpath(rc));
        assert(!(rc.last() is ClosePath)) by {
            assert(el_draws(rc[rc.len() - 1]));
        }
        assert(rev_one(rc) == reversed_chunk(e, rc.skip(1)));
        assert(seq![PathEl::MoveTo(p)] + body =~= els);
    }
}

/// The subpath-start index of the reversal scan stays in range.
proof fn lemma_rev_state_six_bounds(els: Seq<PathEl>, o: Point, n: int)
    requires
        0 <= n,
    ensures
        1 <= rev_state(els, o, n).1,
        rev_state(els, o, n).1 <= (if n <= 1 {
            1int
        } else {
            n
        }),
    decreases n,
{
    if n > 0 {
        lemma_rev_state_six_bounds(els, o, n - 1);
    }
}

/// The reversal scan reads only the elements before its cursor.
proof fn lemma_rev_state_prefix(a: Seq<PathEl>, b: Seq<PathEl>, o: Point, n: int)
    requires
        0 <= n <= a.len(),
        n <= b.len(),
        forall|i: int| 0 <= i < n ==> a[i] == b[i],
    ensures
        rev_state(a, o, n) == rev_state(b, o, n),
    decreases n,
{
    if n > 0 {
        lemma_rev_state_prefix(a, b, o, n - 1);
        lemma_rev_state_six_bounds(a, o, n - 1);
        let prev = rev_state(a, o, n - 1);
        let ix = n - 1;
        match a[ix] {
            PathEl::MoveTo(_) => {
                if prev.1 < ix {
                    assert(a.subrange(prev.1, ix) =~= b.subrange(prev.1, ix));
                }
            },
            PathEl::ClosePath => {
                if prev.1 <= ix {
                    assert(a.subrange(prev.1, ix) =~= b.subrange(prev.1, ix));
                }
            },
            _ => {},
        }
    }
}

/// The state of the reversal scan at the end of one subpath: the
/// subpath's reversal is fully emitted, except that an open subpath
/// still waits as the open body (or as a pending `MoveTo`).
proof fn lemma_rev_state_at_subpath_end(sub: Seq<PathEl>, o: Point)
    requires
        one_subpath(sub),
    ensures
        sub.len() > 1 && sub.last() is ClosePath ==> rev_state(sub, o, sub.len() as int)
            == (rev_one(sub), sub.len() as int, sub[0]->MoveTo_0, false),
        !(sub.len() > 1 && sub.last() is ClosePath) ==> rev_state(sub, o, sub.len() as int)
            == (
            Seq::<PathEl>::empty(),
            1int,
            sub[0]->MoveTo_0,
            sub.len() == 1,
        ),
{
    let n = sub.len() as int;
    let p = sub[0]->MoveTo_0;
    if n > 1 && sub.last() is ClosePath {
        lemma_rev_state_single(sub, o, n - 1);
        assert(rev_state(sub, o, n).0 =~= reversed_chunk(p, sub.subrange(1, n - 1)) + seq![
            PathEl::ClosePath,
        ]);
    } else {
        lemma_rev_state_single(sub, o, n);
    }
}

/// The reversal scan over one subpath followed by more subpaths: the
/// subpath's reversal stands first, and the scan continues over the
/// rest exactly as it would alone.
proof fn lemma_rev_state_append(sub: Seq<PathEl>, rest: Seq<PathEl>, o: Point, n: int)
    requires
        one_subpath(sub),
        rest.len() >= 1,
        rest[0] is MoveTo,
        1 <= n <= rest.len(),
    ensures
        rev_state(sub + rest, o, sub.len() + n) == (
            rev_one(sub) + rev_state(rest, o, n).0,
            rev_state(rest, o, n).1 + sub.len(),
            rev_state(rest, o, n).2,
            rev_state(rest, o, n).3,
        ),
    decreases n,
{
    let whole = sub + rest;
    let ls = sub.len() as int;
    let p = sub[0]->MoveTo_0;
    if n == 1 {
        lemma_rev_state_prefix(sub, whole, o, ls);
        lemma_rev_state_at_subpath_end(sub, o);
        assert(whole[ls] == rest[0]);
        let q = rest[0]->MoveTo_0;
        if sub.len() > 1 && sub.last() is ClosePath {
        } else if sub.len() == 1 {
            assert(rev_one(sub) =~= Seq::<PathEl>::empty().push(PathEl::MoveTo(p)));
        } else {
            assert(whole.subrange(1, ls) =~= sub.skip(1));
            assert(rev_one(sub) =~= Seq::<PathEl>::empty() + reversed_chunk(
                p,
                whole.subrange(1, ls),
            ));
        }
        reveal_with_fuel(rev_state, 2);
        assert(rev_state(rest, o, 1) == (Seq::<PathEl>::empty(), 1int, q, true));
        assert(rev_one(sub) + Seq::<PathEl>::empty() =~= rev_one(sub));
    } else {
        lemma_rev_state_append(sub, rest, o, n - 1);
        lemma_rev_state_six_bounds(rest, o, n - 1);
        let rprev = rev_state(rest, o, n - 1);
        let ix = n - 1;
        assert(whole[ls + ix] == rest[ix]);
        match rest[ix] {
            PathEl::MoveTo(_) => {
                if rprev.3 {
                    assert((rev_one(sub) + rprev.0).push(PathEl::MoveTo(rprev.2))
                        =~= rev_one(sub) + rprev.0.push(PathEl::MoveTo(rprev.2)));
                }
                if rprev.1 < ix {
                    assert(whole.subrange(rprev.1 + ls, ix + ls) =~= rest.subrange(
                        rprev.1,
                        ix,
                    ));
                    let flushed = reversed_chunk(rprev.2, rest.subrange(rprev.1, ix));
                    let out1 = if rprev.3 {
                        rprev.0.push(PathEl::MoveTo(rprev.2))
                    } else {
                        rprev.0
                    };
                    assert((rev_one(sub) + out1) + flushed =~= rev_one(sub) + (out1
                        + flushed));
                }
            },
            PathEl::ClosePath => {
                if rprev.1 <= ix {
                    assert(whole.subrange(rprev.1 + ls, ix + ls) =~= rest.subrange(
                        rprev.1,
                        ix,
                    ));
                    let flushed = reversed_chunk(rprev.2, rest.subrange(rprev.1, ix));
                    assert((rev_one(sub) + rprev.0) + flushed =~= rev_one(sub) + (rprev.0
                        + flushed));
                    assert((rev_one(sub) + (rprev.0 + flushed)).push(PathEl::ClosePath)
                        =~= rev_one(sub) + (rprev.0 + flushed).push(PathEl::ClosePath));
                } else {
                    assert((rev_one(sub) + rprev.0).push(PathEl::ClosePath) =~= rev_one(
                        sub,
                    ) + rprev.0.push(PathEl::ClosePath));
                }
            },
            _ => {},
        }
    }
}

/// The reversal of one subpath followed by more subpaths is the
/// subpath's reversal followed by the reversal of the rest.
proof fn lemma_reversed_elements_append(sub: Seq<PathEl>, rest: Seq<PathEl>, o: Point)
    requires
        one_subpath(sub),
        rest.len() >= 1,
        rest[0] is MoveTo,
    ensures
        reversed_elements(sub + rest, o) == rev_one(sub) + reversed_elements(rest, o),
{
    let whole = sub + rest;
    let ls = sub.len() as int;
    let lr = rest.len() as int;
    lemma_rev_state_append(sub, rest, o, lr);
    lemma_rev_state_six_bounds(rest, o, lr);
    let r = rev_state(rest, o, lr);
    if r.1 < lr {
        assert(whole.subrange(r.1 + ls, whole.len() as int) =~= rest.subrange(r.1, lr));
        let flushed = reversed_chunk(r.2, rest.subrange(r.1, lr));
        assert((rev_one(sub) + r.0) + flushed =~= rev_one(sub) + (r.0 + flushed));
    } else if r.3 {
        assert((rev_one(sub) + r.0).push(PathEl::MoveTo(r.2)) =~= rev_one(sub)
            + r.0.push(PathEl::MoveTo(r.2)));
    }
}

/// The index of the first `MoveTo` at or after `i`, or the length when
/// there is none.
pub open spec fn next_move(els: Seq<PathEl>, i: int) -> int
    decreases els.len() - i,
{
    if i < 0 || i >= els.len() {
        els.len() as int
    } else if els[i] is MoveTo {
        i
    } else {
        next_move(els, i + 1)
    }
}

proof fn lemma_next_move(els: Seq<PathEl>, i: int)
    requires
        0 <= i <= els.len(),
    ensures
        i <= next_move(els, i) <= els.len(),
        forall|j: int| i <= j < next_move(els, i) ==> !((#[trigger] els[j]) is MoveTo),
        next_move(els, i) < els.len() ==> els[next_move(els, i)] is MoveTo,
    decreases els.len() - i,
{
    if 0 <= i && i < els.len() && !(els[i] is MoveTo) {
        lemma_next_move(els, i + 1);
    }
}

/// On a well-formed path, the prefix up to the second `MoveTo` is one
/// subpath.
proof fn lemma_leading_subpath(els: Seq<PathEl>)
    requires
        els.len() >= 1,
        els[0] is MoveTo,
        closes_then_moves(els),
    ensures
        1 <= next_move(els, 1) <= els.len(),
        one_subpath(els.take(next_move(els, 1))),
        next_move(els, 1) < els.len() ==> els[next_move(els, 1)] is MoveTo,
{
    lemma_next_move(els, 1);
    let k = next_move(els, 1);
    let sub = els.take(k);
    assert forall|i: int| 1 <= i < sub.len() - 1 implies el_draws(#[trigger] sub[i]) by {
        assert(sub[i] == els[i]);
        assert(!(els[i] is MoveTo));
        if els[i] is ClosePath {
            assert(els[i + 1] is MoveTo);
            assert(i + 1 < k);
        }
    }
    if k > 1 {
        assert(sub.last() == els[k - 1]);
        assert(!(els[k - 1] is MoveTo));
    }
}

/// The reversal of a well-formed, non-empty path is non-empty and
/// begins with a `MoveTo`.
proof fn lemma_reversed_head(els: Seq<PathEl>, o: Point)
    requires
        els.len() >= 1,
        els[0] is MoveTo,
        closes_then_moves(els),
    ensures
        reversed_elements(els, o).len() >= 1,
        reversed_elements(els, o)[0] is MoveTo,
    decreases els.len(),
{
    lemma_leading_subpath(els);
    let k = next_move(els, 1);
    let sub = els.take(k);
    lemma_rev_one_involution(sub);
    if k == els.len() {
        assert(sub =~= els);
        lemma_reversed_of_one_subpath(els, o);
    } else {
        let rest = els.skip(k);
        assert(sub + rest =~= els);
        assert(closes_then_moves(rest)) by {
            assert forall|i: int|
                0 <= i && i + 1 < rest.len() && rest[i] is ClosePath implies (
            #[trigger] rest[i + 1]) is MoveTo by {
                assert(rest[i] == els[k + i]);
                assert(els[k + i + 1] is MoveTo);
            }
        }
        lemma_reversed_elements_append(sub, rest, o);
        lemma_reversed_head(rest, o);
        assert(reversed_elements(els, o)[0] == rev_one(sub)[0]);
    }
}

/// Reversing the subpaths of a well-formed path twice restores it:
/// on a path that begins with a `MoveTo` and opens a new subpath
/// after every `ClosePath`, subpath reversal is an involution.
pub proof fn lemma_reverse_subpaths_involution(els: Seq<PathEl>, o1: Point, o2: Point)
    requires
        els.len() >= 1 ==> els[0] is MoveTo,
        closes_then_moves(els),
    ensures
        reversed_elements(reversed_elements(els, o1), o2) == els,
    decreases els.len(),
{
    if els.len() == 0 {
        assert(reversed_elements(els, o1) =~= Seq::<PathEl>::empty());
        assert(reversed_elements(reversed_elements(els, o1), o2) =~= els);
    } else {
        lemma_leading_subpath(els);
        let k = next_move(els, 1);
        let sub = els.take(k);
        lemma_rev_one_involution(sub);
        if k == els.len() {
            assert(sub =~= els);
            lemma_reversed_of_one_subpath(els, o1);
            lemma_reversed_of_one_subpath(rev_one(els), o2);
        } else {
            let rest = els.skip(k);
            assert(sub + rest =~= els);
            assert(rest[0] is MoveTo);
            assert(closes_then_moves(rest)) by {
                assert forall|i: int|
                    0 <= i && i + 1 < rest.len() && rest[i] is ClosePath implies (
                #[trigger] rest[i + 1]) is MoveTo by {
                    assert(rest[i] == els[k + i]);
                    assert(els[k + i + 1] is MoveTo);
                }
            }
            lemma_reversed_elements_append(sub, rest, o1);
            let rr = reversed_elements(rest, o1);
            lemma_reversed_head(rest, o1);
            lemma_reversed_elements_append(rev_one(sub), rr, o2);
            lemma_reverse_subpaths_involution(rest, o1, o2);
            assert(rev_one(rev_one(sub)) + rest =~= els);
        }
    }
}

/// Appends the reversal of the subpath body `els[from..to]` to `out`.
fn push_reversed_chunk(
    els: &Vec<PathEl>,
    from: usize,
    to: usize,
    start_pt: Point,
    out: &mut Vec<PathEl>,
)
    requires
        from <= to <= els@.len(),
    ensures
        final(out)@ == old(out)@ + reversed_chunk(
            start_pt,
            els@.subrange(from as int, to as int),
        ),
{
    let ghost chunk = els@.subrange(from as int, to as int);
    let chunk_len = to - from;
    let end_pt: Point = if to > from {
        match els[to - 1].end_point() {
            Some(p) => p,
            None => start_pt,
        }
    } else {
        start_pt
    };
    out.push(PathEl::MoveTo(end_pt));
    proof {
        assert(chunk_prev_end(start_pt, chunk, chunk.len() as int) == end_pt);
        assert(out@ =~= old(out)@ + reversed_chunk(start_pt, chunk).take(1));
    }
    let mut k: usize = 0;
    while k < chunk_len
        invariant
            0 <= k <= chunk_len,
            chunk_len == chunk.len(),
            from + chunk_len == to <= els@.len(),
            chunk == els@.subrange(from as int, to as int),
            out@ == old(out)@ + reversed_chunk(start_pt, chunk).take(1 + k as int),
        decreases chunk_len - k,
    {
        let j = to - 1 - k;
        let prev: Point = if j > from {
            match els[j - 1].end_point() {
                Some(p) => p,
                None => start_pt,
            }
        } else {
            start_pt
        };
        let rel: PathEl = match els[j] {
            PathEl::LineTo(_) => PathEl::LineTo(prev),
            PathEl::QuadTo(c0, _) => PathEl::QuadTo(c0, prev),
            PathEl::CurveTo(c0, c1, _) => PathEl::CurveTo(c1, c0, prev),
            other => other,
        };
        out.push(rel);
        proof {
            let ck = chunk.len() - 1 - k;
            assert(chunk[ck] == els@[j as int]);
            assert(chunk_prev_end(start_pt, chunk, ck) == prev);
            assert(rel == rev_el(chunk[ck], chunk_prev_end(start_pt, chunk, ck)));
            assert(reversed_chunk(start_pt, chunk)[1 + k as int] == rel);
            assert(out@ =~= old(out)@ + reversed_chunk(start_pt, chunk).take(
                1 + k as int + 1,
            ));
        }
        k = k + 1;
    }
    proof {
        assert(reversed_chunk(start_pt, chunk).take(1 + chunk.len() as int)
            =~= reversed_chunk(start_pt, chunk));
    }
}

/// Computes the segments of an element list.
fn elements_segments(els: &Vec<PathEl>) -> (r: Vec<PathSeg>)
    requires
        segmentable(els@),
    ensures
        r@ == path_segments(els@),
{
    let mut r: Vec<PathSeg> = Vec::new();
    if els.len() == 0 {
        assert(r@ =~= path_segments(els@));
        return r;
    }
    let first = els[0];
    let init: Point = match first {
        PathEl::MoveTo(p) => p,
        PathEl::LineTo(p) => p,
        PathEl::QuadTo(_, p2) => p2,
        PathEl::CurveTo(_, _, p3) => p3,
        PathEl::ClosePath => unreached(),
    };
    assert(init == el_init_point(els@[0]));
    let mut start: Point = init;
    let mut last: Point = init;
    let mut i: usize = 0;
    proof {
        assert(els@.skip(0) =~= els@);
        assert(r@ + segments_from(els@, init, init) =~= segments_from(els@, init, init));
    }
    while i < els.len()
        invariant
            0 <= i <= els@.len(),
            els@.len() > 0,
            r@ + segments_from(els@.skip(i as int), start, last) == path_segments(els@),
        decreases els@.len() - i,
    {
        proof {
            assert(els@.skip(i as int).len() > 0);
            assert(els@.skip(i as int)[0] == els@[i as int]);
            assert(els@.skip(i as int).skip(1) =~= els@.skip(i as int + 1));
        }
        let ghost pre = r@;
        let ghost tail = els@.skip(i as int);
        match els[i] {
            PathEl::MoveTo(p) => {
                start = p;
                last = p;
            },
            PathEl::LineTo(p) => {
                r.push(PathSeg::Line(Line { p0: last, p1: p }));
                proof {
                    assert(r@ =~= pre + seq![
                        PathSeg::Line(Line { p0: last, p1: p }),
                    ]);
                    assert(r@ + segments_from(els@.skip(i as int + 1), start, p)
                        =~= pre + segments_from(tail, start, last));
                }
                last = p;
            },
            PathEl::QuadTo(p1, p2) => {
                r.push(PathSeg::Quad(QuadBez { p0: last, p1: p1, p2: p2 }));
                proof {
                    assert(r@ =~= pre + seq![
                        PathSeg::Quad(QuadBez { p0: last, p1: p1, p2: p2 }),
                    ]);
                    assert(r@ + segments_from(els@.skip(i as int + 1), start, p2)
                        =~= pre + segments_from(tail, start, last));
                }
                last = p2;
            },
            PathEl::CurveTo(p1, p2, p3) => {
                r.push(PathSeg::Cubic(CubicBez { p0: last, p1: p1, p2: p2, p3: p3 }));
                proof {
                    assert(r@ =~= pre + seq![
                        PathSeg::Cubic(CubicBez { p0: last, p1: p1, p2: p2, p3: p3 }),
                    ]);
                    assert(r@ + segments_from(els@.skip(i as int + 1), start, p3)
                        =~= pre + segments_from(tail, start, last));
                }
                last = p3;
            },
            PathEl::ClosePath => {
                r.push(PathSeg::Line(Line { p0: last, p1: start }));
                proof {
                    assert(r@ =~= pre + seq![
                        PathSeg::Line(Line { p0: last, p1: start }),
                    ]);
                    assert(r@ + segments_from(els@.skip(i as int + 1), start, start)
                        =~= pre + segments_from(tail, start, last));
                }
                last = start;
            },
        }
        i = i + 1;
    }
    proof {
        assert(els@.skip(els@.len() as int) =~= Seq::<PathEl>::empty());
        assert(r@ + Seq::<PathSeg>::empty() =~= r@);
    }
    r
}

/// The points at which straight elements arrive, in order: the
/// destinations of the `MoveTo` and `LineTo` elements.
pub open spec fn line_points(els: Seq<PathEl>) -> Seq<Point>
    decreases els.len(),
{
    if els.len() == 0 {
        Seq::empty()
    } else {
        let rest = line_points(els.skip(1));
        match els[0] {
            PathEl::MoveTo(p) => seq![p] + rest,
            PathEl::LineTo(p) => seq![p] + rest,
            _ => rest,
        }
    }
}

/// The element as a `kurbo` value.
///
/// Relies on the `kurbo::PathEl` constructors being plain
/// constructors.
#[verifier::external_body]
fn el_to_kurbo(el: &PathEl) -> KPathEl {
    match el {
        PathEl::MoveTo(p) => KPathEl::MoveTo(p.0),
        PathEl::LineTo(p) => KPathEl::LineTo(p.0),
        PathEl::QuadTo(p1, p2) => KPathEl::QuadTo(p1.0, p2.0),
        PathEl::CurveTo(p1, p2, p3) => KPathEl::CurveTo(p1.0, p2.0, p3.0),
        PathEl::ClosePath => KPathEl::ClosePath,
    }
}

/// The winding number of a point about the path drawn by an element
/// sequence: a function of the elements and the point alone.
pub uninterp spec fn winding_of(els: Seq<PathEl>, p: Point) -> int;

/// The control points of the elements, on-curve and off-curve, in
/// order.
pub open spec fn control_points(els: Seq<PathEl>) -> Seq<Point>
    decreases els.len(),
{
    if els.len() == 0 {
        Seq::empty()
    } else {
        (match els[0] {
            PathEl::MoveTo(p) => seq![p],
            PathEl::LineTo(p) => seq![p],
            PathEl::QuadTo(p1, p2) => seq![p1, p2],
            PathEl::CurveTo(p1, p2, p3) => seq![p1, p2, p3],
            PathEl::ClosePath => Seq::empty(),
        }) + control_points(els.skip(1))
    }
}

/// The box grown to take one more point in, or started at the point.
pub open spec fn grow_box_of(acc: Option<Rect>, p: Point) -> Rect {
    match acc {
        Some(r) => union_pt_of(r, p),
        None => rect_of_points(p, p),
    }
}

/// The box after folding a point sequence into an accumulator, point
/// by point.
pub open spec fn cbox_of(acc: Option<Rect>, pts: Seq<Point>) -> Option<Rect>
    decreases pts.len(),
{
    if pts.len() == 0 {
        acc
    } else {
        cbox_of(Some(grow_box_of(acc, pts[0])), pts.skip(1))
    }
}

/// Folding any point sequence into a started box yields a box.
proof fn lemma_cbox_of_some(acc: Option<Rect>, pts: Seq<Point>)
    requires
        acc is Some,
    ensures
        cbox_of(acc, pts) is Some,
    decreases pts.len(),
{
    if pts.len() > 0 {
        lemma_cbox_of_some(Some(grow_box_of(acc, pts[0])), pts.skip(1));
    }
}

/// The point of a line at an intersection's line parameter: a
/// function of the line and the intersection alone.
pub uninterp spec fn line_point_at(l: Line, at: LineIntersection) -> Point;

/// The crossing points of a line with each segment in turn: for every
/// segment its intersections with the line, evaluated on the line.
pub open spec fn line_crossings(segs: Seq<PathSeg>, l: Line) -> Seq<Point>
    decreases segs.len(),
{
    if segs.len() == 0 {
        Seq::empty()
    } else {
        crate::pathseg::seg_line_hits(segs[0], l).map_values(
            |at: LineIntersection| line_point_at(l, at),
        ) + line_crossings(segs.skip(1), l)
    }
}

/// The point of a segment at an intersection's line parameter: a
/// function of the segment and the intersection alone.
pub uninterp spec fn seg_point_at(s: PathSeg, at: LineIntersection) -> Point;

/// The point of the line at an intersection's line parameter.
///
/// Relies on `kurbo::Line`'s `ParamCurve::eval` at the intersection's
/// `line_t` field, which depends on the line and the parameter alone.
#[verifier::external_body]
fn line_eval_at(line: &Line, at: &LineIntersection) -> (r: Point)
    ensures
        r == line_point_at(*line, *at),
{
    Point(kurbo::ParamCurve::eval(&line.to_kurbo(), at.0.line_t))
}

/// The point of the segment at an intersection's line parameter.
///
/// Relies on `kurbo::PathSeg`'s `ParamCurve::eval` at the
/// intersection's `line_t` field, which depends on the segment and
/// the parameter alone.
#[verifier::external_body]
fn seg_eval_at(seg: &PathSeg, at: &LineIntersection) -> (r: Point)
    ensures
        r == seg_point_at(*seg, *at),
{
    Point(kurbo::ParamCurve::eval(&seg.to_kurbo(), at.0.line_t))
}

/// Copies an element list.
fn copy_elements(els: &Vec<PathEl>) -> (r: Vec<PathEl>)
    ensures
        r@ == els@,
{
    let mut r: Vec<PathEl> = Vec::new();
    let mut i: usize = 0;
    while i < els.len()
        invariant
            0 <= i <= els@.len(),
            r@ == els@.take(i as int),
        decreases els@.len() - i,
    {
        r.push(els[i]);
        proof {
            assert(r@ =~= els@.take(i as int + 1));
        }
        i = i + 1;
    }
    proof {
        assert(els@.take(els@.len() as int) =~= els@);
    }
    r
}

/// A restartable cursor over the segments of a path, fixed at the
/// moment of its creation.
pub struct SegmentIterator {
    /// The segments being iterated.
    pub segs: Vec<PathSeg>,
    /// The position of the next segment to hand out.
    pub index: usize,
}

impl SegmentIterator {
    /// The next segment, advancing the cursor, or `None` at the end.
    pub fn next(&mut self) -> (r: Option<PathSeg>)
        ensures
            final(self).segs@ == old(self).segs@,
            old(self).index < old(self).segs@.len() ==> {
                &&& r == Some(old(self).segs@[old(self).index as int])
                &&& final(self).index == old(self).index + 1
            },
            old(self).index >= old(self).segs@.len() ==> {
                &&& r is None
                &&& final(self).index == old(self).index
            },
    {
        if self.index < self.segs.len() {
            let r = self.segs[self.index];
            self.index = self.index + 1;
            Some(r)
        } else {
            None
        }
    }

    /// How many segments the path has in all.
    pub fn len(&self) -> (r: usize)
        ensures
            r == self.segs@.len(),
    {
        self.segs.len()
    }

    /// The segment at the given position.
    pub fn get(&self, ix: usize) -> (r: PathSeg)
        requires
            ix < self.segs@.len(),
        ensures
            r == self.segs@[ix as int],
    {
        self.segs[ix]
    }
}

/// A restartable cursor over the elements of a path, fixed at the
/// moment of its creation.
pub struct ElementIterator {
    /// The elements being iterated.
    pub els: Vec<PathEl>,
    /// The position of the next element to hand out.
    pub index: usize,
}

impl ElementIterator {
    /// The next element, advancing the cursor, or `None` at the end.
    pub fn next(&mut self) -> (r: Option<PathEl>)
        ensures
            final(self).els@ == old(self).els@,
            old(self).index < old(self).els@.len() ==> {
                &&& r == Some(old(self).els@[old(self).index as int])
                &&& final(self).index == old(self).index + 1
            },
            old(self).index >= old(self).els@.len() ==> {
                &&& r is None
                &&& final(self).index == old(self).index
            },
    {
        if self.index < self.els.len() {
            let r = self.els[self.index];
            self.index = self.index + 1;
            Some(r)
        } else {
            None
        }
    }

    /// How many elements the path has.
    pub fn len(&self) -> (r: usize)
        ensures
            r == self.els@.len(),
    {
        self.els.len()
    }
}

impl BezPath {
    /// Create a new, empty path.
    pub fn new() -> (r: BezPath)
        ensures
            r@ == Seq::<PathEl>::empty(),
    {
        BezPath { elements: Vec::new() }
    }

    /// A path made of the given elements.
    pub fn from_vec(v: Vec<PathEl>) -> (r: BezPath)
        ensures
            r@ == v@,
    {
        BezPath { elements: v }
    }

    /// Removes the last [`PathEl`] from the path and returns it, or
    /// `None` if the path is empty.
    pub fn pop(&mut self) -> (r: Option<PathEl>)
        ensures
            old(self)@.len() == 0 ==> {
                &&& r is None
                &&& final(self)@ == old(self)@
            },
            old(self)@.len() > 0 ==> {
                &&& r == Some(old(self)@.last())
                &&& final(self)@ == old(self)@.drop_last()
            },
    {
        self.elements.pop()
    }

    /// Push a generic path element onto the path.
    pub fn push(&mut self, el: PathEl)
        ensures
            final(self)@ == old(self)@.push(el),
    {
        self.elements.push(el);
    }

    /// Push a "move to" element onto the path.
    pub fn move_to(&mut self, p: Point)
        ensures
            final(self)@ == old(self)@.push(PathEl::MoveTo(p)),
    {
        self.elements.push(PathEl::MoveTo(p));
    }

    /// Push a "line to" element onto the path.
    pub fn line_to(&mut self, p: Point)
        ensures
            final(self)@ == old(self)@.push(PathEl::LineTo(p)),
    {
        self.elements.push(PathEl::LineTo(p));
    }

    /// Push a "quad to" element onto the path.
    pub fn quad_to(&mut self, p1: Point, p2: Point)
        ensures
            final(self)@ == old(self)@.push(PathEl::QuadTo(p1, p2)),
    {
        self.elements.push(PathEl::QuadTo(p1, p2));
    }

    /// Push a "curve to" element onto the path.
    pub fn curve_to(&mut self, p1: Point, p2: Point, p3: Point)
        ensures
            final(self)@ == old(self)@.push(PathEl::CurveTo(p1, p2, p3)),
    {
        self.elements.push(PathEl::CurveTo(p1, p2, p3));
    }

    /// Push a "close path" element onto the path.
    pub fn close_path(&mut self)
        ensures
            final(self)@ == old(self)@.push(PathEl::ClosePath),
    {
        self.elements.push(PathEl::ClosePath);
    }

    /// Shorten the path, keeping the first `len` elements.
    pub fn truncate(&mut self, len: usize)
        ensures
            len < old(self)@.len() ==> final(self)@ == old(self)@.take(len as int),
            len >= old(self)@.len() ==> final(self)@ == old(self)@,
    {
        self.elements.truncate(len);
        proof {
            if len >= old(self)@.len() {
                assert(self@ =~= old(self)@);
            }
        }
    }

    /// Returns `true` if the path contains no segments: every element
    /// is a `MoveTo` or a `ClosePath`.
    pub fn is_empty(&self) -> (r: bool)
        ensures
            r == forall|i: int|
                0 <= i < self@.len() ==> (self@[i] is MoveTo || self@[i] is ClosePath),
    {
        let mut i: usize = 0;
        while i < self.elements.len()
            invariant
                0 <= i <= self@.len(),
                forall|j: int| 0 <= j < i ==> (self@[j] is MoveTo || self@[j] is ClosePath),
            decreases self@.len() - i,
        {
            match self.elements[i] {
                PathEl::MoveTo(_) => {},
                PathEl::ClosePath => {},
                _ => {
                    return false;
                },
            }
            i = i + 1;
        }
        true
    }

    /// Get the segment that ends at the given element index.
    ///
    /// No segment ends at the first element (which is presumed to be a
    /// `MoveTo`), so the lookup is in effect 1-indexed: `get_seg(0)`
    /// always returns `None`.
    pub fn get_seg(&self, ix: usize) -> (r: Option<PathSeg>)
        ensures
            r == seg_at(self@, ix as int),
    {
        if ix == 0 || ix >= self.elements.len() {
            return None;
        }
        let last: Point = match self.elements[ix - 1] {
            PathEl::MoveTo(p) => p,
            PathEl::LineTo(p) => p,
            PathEl::QuadTo(_, p2) => p2,
            PathEl::CurveTo(_, _, p3) => p3,
            PathEl::ClosePath => {
                return None;
            },
        };
        match self.elements[ix] {
            PathEl::LineTo(p) => Some(PathSeg::Line(Line { p0: last, p1: p })),
            PathEl::QuadTo(p1, p2) => Some(PathSeg::Quad(QuadBez { p0: last, p1: p1, p2: p2 })),
            PathEl::CurveTo(p1, p2, p3) => Some(
                PathSeg::Cubic(CubicBez { p0: last, p1: p1, p2: p2, p3: p3 }),
            ),
            PathEl::MoveTo(_) => None,
            PathEl::ClosePath => {
                let mut j: usize = ix;
                while j > 0
                    invariant
                        0 < ix < self@.len(),
                        0 <= j <= ix,
                        self@[ix as int - 1].end_point_spec() == Some(last),
                        self@[ix as int] is ClosePath,
                        last_move_before(self@, ix as int) == last_move_before(
                            self@,
                            j as int,
                        ),
                    decreases j,
                {
                    if let PathEl::MoveTo(start) = self.elements[j - 1] {
                        proof {
                            assert(last_move_before(self@, j as int) == Some(start));
                        }
                        return Some(PathSeg::Line(Line { p0: last, p1: start }));
                    }
                    j = j - 1;
                }
                None
            },
        }
    }

    /// Returns a new path with the winding direction of all subpaths
    /// reversed.
    ///
    /// Each subpath is traced backwards: its elements are emitted in
    /// the opposite order with their control points turned around, so
    /// the drawn curve is the same and the winding sign flips.
    pub fn reverse_subpaths(&self) -> (r: BezPath)
        ensures
            exists|o: Point| r@ == reversed_elements(self@, o),
            self@.len() >= 1 && self@[0] is MoveTo ==> forall|o: Point|
                r@ == reversed_elements(self@, o),
            self@.len() >= 1 && self@[0] is MoveTo && closes_then_moves(self@)
                ==> r@.len() == self@.len(),
    {
        let o = Point::origin();
        let els = &self.elements;
        let mut reversed: Vec<PathEl> = Vec::new();
        let mut start_ix: usize = 1;
        let mut start_pt: Point = o;
        let mut pending_move = false;
        let mut ix: usize = 0;
        while ix < els.len()
            invariant
                0 <= ix <= els@.len(),
                els@ == self@,
                start_ix <= ix + 1,
                (reversed@, start_ix as int, start_pt, pending_move) == rev_state(
                    els@,
                    o,
                    ix as int,
                ),
            decreases els@.len() - ix,
        {
            match els[ix] {
                PathEl::MoveTo(p) => {
                    if pending_move {
                        reversed.push(PathEl::MoveTo(start_pt));
                    }
                    if start_ix < ix {
                        push_reversed_chunk(els, start_ix, ix, start_pt, &mut reversed);
                    }
                    pending_move = true;
                    start_pt = p;
                    start_ix = ix + 1;
                },
                PathEl::ClosePath => {
                    if start_ix <= ix {
                        push_reversed_chunk(els, start_ix, ix, start_pt, &mut reversed);
                    }
                    reversed.push(PathEl::ClosePath);
                    start_ix = ix + 1;
                    pending_move = false;
                },
                _ => {
                    pending_move = false;
                },
            }
            ix = ix + 1;
        }
        if start_ix < els.len() {
            push_reversed_chunk(els, start_ix, els.len(), start_pt, &mut reversed);
        } else if pending_move {
            reversed.push(PathEl::MoveTo(start_pt));
        }
        let r = BezPath { elements: reversed };
        proof {
            assert(r@ == reversed_elements(self@, o));
            if self@.len() >= 1 && self@[0] is MoveTo {
                assert forall|o2: Point| r@ == reversed_elements(self@, o2) by {
                    lemma_reversed_ignores_origin(self@, o, o2);
                }
                if closes_then_moves(self@) {
                    lemma_reversed_preserves_len(self@, o);
                }
            }
        }
        r
    }

    /// Apply an affine transform to the path: every control point is
    /// rewritten to its image, and every element keeps its kind.
    pub fn apply_affine(&mut self, affine: &Affine)
        ensures
            final(self)@.len() == old(self)@.len(),
            forall|i: int|
                0 <= i < old(self)@.len() ==> final(self)@[i] == affine_el_image(
                    *affine,
                    old(self)@[i],
                ),
    {
        let mut out: Vec<PathEl> = Vec::new();
        let mut i: usize = 0;
        while i < self.elements.len()
            invariant
                0 <= i <= self@.len(),
                self@ == old(self)@,
                out@.len() == i,
                forall|j: int|
                    0 <= j < i ==> out@[j] == affine_el_image(*affine, old(self)@[j]),
            decreases self@.len() - i,
        {
            out.push(affine.mul_pathel(self.elements[i]));
            i = i + 1;
        }
        self.elements = out;
    }

    /// The winding number of a point about the path.
    ///
    /// Only meaningful on closed paths; its sign agrees with the sign
    /// of the signed area.
    ///
    /// Relies on kurbo's `Shape` implementation for `&[kurbo::PathEl]`,
    /// which counts ray crossings segment by segment.  Its segment
    /// iterator refuses a path whose first element is a `ClosePath`,
    /// and its crossing solver asserts, in builds with debug
    /// assertions, that the query height lies in the segment's range,
    /// which a NaN coordinate of the query point defeats; the
    /// `requires` leaves both inputs out.  The winding number depends
    /// on the elements and the point alone.
    #[verifier::external_body]
    pub fn winding(&self, pt: Point) -> (r: i32)
        requires
            segmentable(self@),
            !nan_of(pt),
        ensures
            r as int == winding_of(self@, pt),
    {
        let els: Vec<KPathEl> = self.elements.iter().map(el_to_kurbo).collect();
        kurbo::Shape::winding(&els.as_slice(), pt.0)
    }

    /// Whether the point lies inside the path: its winding number is
    /// not zero.  Only meaningful on closed paths.
    pub fn contains(&self, pt: Point) -> (r: bool)
        requires
            segmentable(self@),
            !nan_of(pt),
        ensures
            r == (winding_of(self@, pt) != 0),
    {
        self.winding(pt) != 0
    }

    /// The smallest rectangle that encloses the path.
    ///
    /// Relies on kurbo's `Shape` implementation for `&[kurbo::PathEl]`,
    /// whose segment iterator refuses only a path whose first element
    /// is a `ClosePath`; the `requires` excludes that path.
    #[verifier::external_body]
    pub fn bounding_box(&self) -> Rect
        requires
            segmentable(self@),
    {
        let els: Vec<KPathEl> = self.elements.iter().map(el_to_kurbo).collect();
        Rect(kurbo::Shape::bounding_box(&els.as_slice()))
    }

    /// A rectangle that conservatively encloses the path: the fold of
    /// the raw control points into a growing box, cheap but not tight
    /// for curves.  On a path without control points the box is all
    /// zero.
    pub fn control_box(&self) -> (r: Rect)
        ensures
            control_points(self@).len() > 0 ==> Some(r) == cbox_of(
                None::<Rect>,
                control_points(self@),
            ),
    {
        let ghost total = cbox_of(None::<Rect>, control_points(self@));
        let mut cbox: Option<Rect> = None;
        let mut i: usize = 0;
        proof {
            assert(self@.skip(0) =~= self@);
        }
        while i < self.elements.len()
            invariant
                0 <= i <= self@.len(),
                total == cbox_of(None::<Rect>, control_points(self@)),
                cbox_of(cbox, control_points(self@.skip(i as int))) == total,
            decreases self@.len() - i,
        {
            proof {
                assert(self@.skip(i as int)[0] == self@[i as int]);
                assert(self@.skip(i as int).skip(1) =~= self@.skip(i as int + 1));
            }
            let ghost rest = control_points(self@.skip(i as int + 1));
            let el = self.elements[i];
            match el {
                PathEl::MoveTo(p) => {
                    let ghost acc0 = cbox;
                    cbox = Some(Self::grow_box(cbox, p));
                    proof {
                        assert((seq![p] + rest)[0] == p);
                        assert((seq![p] + rest).skip(1) =~= rest);
                        assert(control_points(self@.skip(i as int)) == seq![p] + rest);
                        assert(cbox_of(acc0, seq![p] + rest) == cbox_of(cbox, rest));
                    }
                },
                PathEl::LineTo(p) => {
                    let ghost acc0 = cbox;
                    cbox = Some(Self::grow_box(cbox, p));
                    proof {
                        assert((seq![p] + rest)[0] == p);
                        assert((seq![p] + rest).skip(1) =~= rest);
                        assert(control_points(self@.skip(i as int)) == seq![p] + rest);
                        assert(cbox_of(acc0, seq![p] + rest) == cbox_of(cbox, rest));
                    }
                },
                PathEl::QuadTo(p1, p2) => {
                    let ghost acc0 = cbox;
                    cbox = Some(Self::grow_box(cbox, p1));
                    let ghost acc1 = cbox;
                    cbox = Some(Self::grow_box(cbox, p2));
                    proof {
                        assert((seq![p1, p2] + rest)[0] == p1);
                        assert((seq![p1, p2] + rest).skip(1) =~= seq![p2] + rest);
                        assert((seq![p2] + rest)[0] == p2);
                        assert((seq![p2] + rest).skip(1) =~= rest);
                        assert(control_points(self@.skip(i as int)) == seq![p1, p2] + rest);
                        assert(cbox_of(acc0, seq![p1, p2] + rest) == cbox_of(
                            acc1,
                            seq![p2] + rest,
                        ));
                        assert(cbox_of(acc1, seq![p2] + rest) == cbox_of(cbox, rest));
                    }
                },
                PathEl::CurveTo(p1, p2, p3) => {
                    let ghost acc0 = cbox;
                    cbox = Some(Self::grow_box(cbox, p1));
                    let ghost acc1 = cbox;
                    cbox = Some(Self::grow_box(cbox, p2));
                    let ghost acc2 = cbox;
                    cbox = Some(Self::grow_box(cbox, p3));
                    proof {
                        assert((seq![p1, p2, p3] + rest)[0] == p1);
                        assert((seq![p1, p2, p3] + rest).skip(1) =~= seq![p2, p3] + rest);
                        assert((seq![p2, p3] + rest)[0] == p2);
                        assert((seq![p2, p3] + rest).skip(1) =~= seq![p3] + rest);
                        assert((seq![p3] + rest)[0] == p3);
                        assert((seq![p3] + rest).skip(1) =~= rest);
                        assert(control_points(self@.skip(i as int)) == seq![p1, p2, p3]
                            + rest);
                        assert(cbox_of(acc0, seq![p1, p2, p3] + rest) == cbox_of(
                            acc1,
                            seq![p2, p3] + rest,
                        ));
                        assert(cbox_of(acc1, seq![p2, p3] + rest) == cbox_of(
                            acc2,
                            seq![p3] + rest,
                        ));
                        assert(cbox_of(acc2, seq![p3] + rest) == cbox_of(cbox, rest));
                    }
                },
                PathEl::ClosePath => {
                    proof {
                        assert(control_points(self@.skip(i as int)) =~= rest);
                    }
                },
            }
            i = i + 1;
        }
        proof {
            assert(self@.skip(self@.len() as int) =~= Seq::<PathEl>::empty());
        }
        match cbox {
            Some(r) => r,
            None => {
                proof {
                    let cps = control_points(self@);
                    if cps.len() > 0 {
                        lemma_cbox_of_some(
                            Some(grow_box_of(None::<Rect>, cps[0])),
                            cps.skip(1),
                        );
                        assert(false);
                    }
                }
                Rect::zero()
            },
        }
    }

    /// The box grown to take one more point in, or started at the
    /// point.
    fn grow_box(cbox: Option<Rect>, p: Point) -> (r: Rect)
        ensures
            r == grow_box_of(cbox, p),
    {
        match cbox {
            Some(r) => r.union_pt(p),
            None => Rect::from_points(p, p),
        }
    }

    /// Convert the path to an SVG path string representation.
    ///
    /// Relies on `kurbo::BezPath::to_svg`.  The path is rebuilt with
    /// `kurbo::BezPath::from_vec`, which asserts, in builds with
    /// debug assertions, that a non-empty path begins with a
    /// `MoveTo`; the `requires` leaves other paths out.
    #[verifier::external_body]
    pub fn to_svg(&self) -> String
        requires
            self@.len() > 0 ==> self@[0] is MoveTo,
    {
        let els: Vec<KPathEl> = self.elements.iter().map(el_to_kurbo).collect();
        kurbo::BezPath::from_vec(els).to_svg()
    }

    /// Is every element of this path finite?
    pub fn is_finite(&self) -> (r: bool)
        ensures
            r == forall|i: int| 0 <= i < self@.len() ==> (#[trigger] self@[i]).finite_spec(),
    {
        let mut i: usize = 0;
        while i < self.elements.len()
            invariant
                0 <= i <= self@.len(),
                forall|j: int| 0 <= j < i ==> (#[trigger] self@[j]).finite_spec(),
            decreases self@.len() - i,
        {
            if !self.elements[i].is_finite() {
                proof {
                    assert(!self@[i as int].finite_spec());
                }
                return false;
            }
            i = i + 1;
        }
        true
    }

    /// Is any element of this path NaN?
    pub fn is_nan(&self) -> (r: bool)
        ensures
            r == exists|i: int| 0 <= i < self@.len() && (#[trigger] self@[i]).nan_spec(),
    {
        let mut i: usize = 0;
        while i < self.elements.len()
            invariant
                0 <= i <= self@.len(),
                forall|j: int| 0 <= j < i ==> !(#[trigger] self@[j]).nan_spec(),
            decreases self@.len() - i,
        {
            if self.elements[i].is_nan() {
                proof {
                    assert(self@[i as int].nan_spec());
                }
                return true;
            }
            i = i + 1;
        }
        false
    }

    /// Computes the intersections of the path with a line, as the
    /// points of the line at each crossing, segment by segment.
    ///
    /// Each segment reports at most three crossings.  Crossings at
    /// shared segment endpoints are intentionally inclusive and may be
    /// reported by both neighbours; the caller de-duplicates.
    pub fn intersections(&self, line: &Line) -> (r: Vec<Point>)
        requires
            segmentable(self@),
        ensures
            r@ == line_crossings(path_segments(self@), *line),
    {
        let segs = elements_segments(&self.elements);
        let mut out: Vec<Point> = Vec::new();
        let mut i: usize = 0;
        proof {
            assert(segs@.skip(0) =~= segs@);
            assert(out@ + line_crossings(segs@, *line) =~= line_crossings(segs@, *line));
        }
        while i < segs.len()
            invariant
                0 <= i <= segs@.len(),
                segs@ == path_segments(self@),
                out@ + line_crossings(segs@.skip(i as int), *line) == line_crossings(
                    segs@,
                    *line,
                ),
            decreases segs@.len() - i,
        {
            let ghost pre = out@;
            let hits = segs[i].intersect_line(*line);
            let ghost mapped = hits@.map_values(
                |at: LineIntersection| line_point_at(*line, at),
            );
            proof {
                assert(segs@.skip(i as int)[0] == segs@[i as int]);
                assert(segs@.skip(i as int).skip(1) =~= segs@.skip(i as int + 1));
                assert(line_crossings(segs@.skip(i as int), *line) == mapped
                    + line_crossings(segs@.skip(i as int + 1), *line));
                assert(mapped.take(0) =~= Seq::<Point>::empty());
                assert(pre + mapped.take(0) =~= pre);
            }
            let mut k: usize = 0;
            while k < hits.len()
                invariant
                    0 <= k <= hits@.len(),
                    mapped == hits@.map_values(
                        |at: LineIntersection| line_point_at(*line, at),
                    ),
                    out@ == pre + mapped.take(k as int),
                decreases hits@.len() - k,
            {
                out.push(line_eval_at(line, &hits[k]));
                proof {
                    assert(mapped[k as int] == line_point_at(*line, hits@[k as int]));
                    assert(out@ =~= pre + mapped.take(k as int + 1));
                }
                k = k + 1;
            }
            proof {
                assert(mapped.take(hits@.len() as int) =~= mapped);
                assert(out@ + line_crossings(segs@.skip(i as int + 1), *line) =~= pre + (
                mapped + line_crossings(segs@.skip(i as int + 1), *line)));
            }
            i = i + 1;
        }
        proof {
            assert(segs@.skip(segs@.len() as int) =~= Seq::<PathSeg>::empty());
            assert(out@ + line_crossings(Seq::<PathSeg>::empty(), *line) =~= out@);
        }
        out
    }

    /// The destinations of the straight elements of the path, in
    /// order.  On a flattened path (`MoveTo` and `LineTo` only) this
    /// is the polyline the path draws.
    pub fn line_points(&self) -> (r: Vec<Point>)
        ensures
            r@ == line_points(self@),
    {
        let els = &self.elements;
        let mut out: Vec<Point> = Vec::new();
        let mut i: usize = 0;
        proof {
            assert(els@.skip(0) =~= els@);
            assert(out@ + line_points(els@) =~= line_points(els@));
        }
        while i < els.len()
            invariant
                0 <= i <= els@.len(),
                els@ == self@,
                out@ + line_points(els@.skip(i as int)) == line_points(els@),
            decreases els@.len() - i,
        {
            proof {
                assert(els@.skip(i as int)[0] == els@[i as int]);
                assert(els@.skip(i as int).skip(1) =~= els@.skip(i as int + 1));
            }
            let ghost pre = out@;
            match els[i] {
                PathEl::MoveTo(p) => {
                    out.push(p);
                    proof {
                        assert(out@ =~= pre + seq![p]);
                        assert(out@ + line_points(els@.skip(i as int + 1)) =~= pre
                            + line_points(els@.skip(i as int)));
                    }
                },
                PathEl::LineTo(p) => {
                    out.push(p);
                    proof {
                        assert(out@ =~= pre + seq![p]);
                        assert(out@ + line_points(els@.skip(i as int + 1)) =~= pre
                            + line_points(els@.skip(i as int)));
                    }
                },
                _ => {},
            }
            i = i + 1;
        }
        proof {
            assert(els@.skip(els@.len() as int) =~= Seq::<PathEl>::empty());
            assert(out@ + Seq::<Point>::empty() =~= out@);
        }
        out
    }

    /// A cursor over the segments of the path, fixed at this moment.
    pub fn segments(&self) -> (r: SegmentIterator)
        requires
            segmentable(self@),
        ensures
            r.segs@ == path_segments(self@),
            r.index == 0,
    {
        SegmentIterator { segs: elements_segments(&self.elements), index: 0 }
    }

    /// A cursor over the elements of the path, fixed at this moment.
    pub fn elements(&self) -> (r: ElementIterator)
        ensures
            r.els@ == self@,
            r.index == 0,
    {
        ElementIterator { els: copy_elements(&self.elements), index: 0 }
    }
}

/// The edge of a closed polygon leaving point `i`: to the next point,
/// or back to the first from the last.
pub open spec fn polygon_edge(pts: Seq<Point>, i: int) -> Line {
    Line {
        p0: pts[i],
        p1: pts[if i + 1 < pts.len() {
            i + 1
        } else {
            0int
        }],
    }
}

/// The crossings of one polygon edge, as a segment, with every edge
/// of a polygon from edge `j` on, evaluated on the segment.
pub open spec fn edge_crossings(s: PathSeg, pts2: Seq<Point>, j: int) -> Seq<Point>
    decreases pts2.len() - j,
{
    if j < 0 || j >= pts2.len() {
        Seq::empty()
    } else {
        crate::pathseg::seg_line_hits(s, polygon_edge(pts2, j)).map_values(
            |at: LineIntersection| seg_point_at(s, at),
        ) + edge_crossings(s, pts2, j + 1)
    }
}

/// All crossings between the edges of two closed polygons, from the
/// first polygon's edge `i` on.
pub open spec fn polygon_crossings(pts1: Seq<Point>, pts2: Seq<Point>, i: int) -> Seq<Point>
    decreases pts1.len() - i,
{
    if i < 0 || i >= pts1.len() {
        Seq::empty()
    } else {
        edge_crossings(PathSeg::Line(polygon_edge(pts1, i)), pts2, 0) + polygon_crossings(
            pts1,
            pts2,
            i + 1,
        )
    }
}

/// Every crossing between the edges of two closed polylines.
///
/// Each point list is read as a closed polygon: its edges run from
/// each point to the next, and from the last point back to the first.
/// Every pair of one edge from each polygon is tested for a line
/// crossing, and the reported points are evaluated on the first
/// polygon's edge.  Crossings at shared edge endpoints are
/// intentionally inclusive and may be reported by both neighbouring
/// edges; the caller de-duplicates.
pub fn polyline_crossings(pts1: &Vec<Point>, pts2: &Vec<Point>) -> (r: Vec<Point>)
    ensures
        r@ == polygon_crossings(pts1@, pts2@, 0),
{
    let mut out: Vec<Point> = Vec::new();
    let n1 = pts1.len();
    let n2 = pts2.len();
    let mut i: usize = 0;
    proof {
        assert(out@ + polygon_crossings(pts1@, pts2@, 0) =~= polygon_crossings(
            pts1@,
            pts2@,
            0,
        ));
    }
    while i < n1
        invariant
            0 <= i <= n1 == pts1@.len(),
            n2 == pts2@.len(),
            out@ + polygon_crossings(pts1@, pts2@, i as int) == polygon_crossings(
                pts1@,
                pts2@,
                0,
            ),
        decreases n1 - i,
    {
        let ghost row_pre = out@;
        let la1 = pts1[i];
        let la2 = pts1[if i + 1 < n1 {
            i + 1
        } else {
            0
        }];
        let seg1 = PathSeg::Line(Line { p0: la1, p1: la2 });
        proof {
            assert(seg1 == PathSeg::Line(polygon_edge(pts1@, i as int)));
            assert(row_pre + (edge_crossings(seg1, pts2@, 0) + polygon_crossings(
                pts1@,
                pts2@,
                i as int + 1,
            )) =~= (row_pre + edge_crossings(seg1, pts2@, 0)) + polygon_crossings(
                pts1@,
                pts2@,
                i as int + 1,
            ));
            assert(row_pre + edge_crossings(seg1, pts2@, 0).take(0) =~= row_pre);
        }
        let mut j: usize = 0;
        proof {
            assert(out@ + edge_crossings(seg1, pts2@, 0) + polygon_crossings(
                pts1@,
                pts2@,
                i as int + 1,
            ) =~= out@ + (edge_crossings(seg1, pts2@, 0) + polygon_crossings(
                pts1@,
                pts2@,
                i as int + 1,
            )));
        }
        while j < n2
            invariant
                0 <= j <= n2 == pts2@.len(),
                out@ + edge_crossings(seg1, pts2@, j as int) + polygon_crossings(
                    pts1@,
                    pts2@,
                    i as int + 1,
                ) == polygon_crossings(pts1@, pts2@, 0),
            decreases n2 - j,
        {
            let ghost pre = out@;
            let lb1 = pts2[j];
            let lb2 = pts2[if j + 1 < n2 {
                j + 1
            } else {
                0
            }];
            let hits = seg1.intersect_line(Line { p0: lb1, p1: lb2 });
            let ghost mapped = hits@.map_values(
                |at: LineIntersection| seg_point_at(seg1, at),
            );
            proof {
                assert(Line { p0: lb1, p1: lb2 } == polygon_edge(pts2@, j as int));
                assert(edge_crossings(seg1, pts2@, j as int) == mapped + edge_crossings(
                    seg1,
                    pts2@,
                    j as int + 1,
                ));
                assert(mapped.take(0) =~= Seq::<Point>::empty());
                assert(pre + mapped.take(0) =~= pre);
            }
            let mut k: usize = 0;
            while k < hits.len()
                invariant
                    0 <= k <= hits@.len(),
                    mapped == hits@.map_values(
                        |at: LineIntersection| seg_point_at(seg1, at),
                    ),
                    out@ == pre + mapped.take(k as int),
                decreases hits@.len() - k,
            {
                out.push(seg_eval_at(&seg1, &hits[k]));
                proof {
                    assert(mapped[k as int] == seg_point_at(seg1, hits@[k as int]));
                    assert(out@ =~= pre + mapped.take(k as int + 1));
                }
                k = k + 1;
            }
            proof {
                assert(mapped.take(hits@.len() as int) =~= mapped);
                assert(out@ + edge_crossings(seg1, pts2@, j as int + 1) =~= pre + (mapped
                    + edge_crossings(seg1, pts2@, j as int + 1)));
                assert(pre + (mapped + edge_crossings(seg1, pts2@, j as int + 1))
                    =~= pre + edge_crossings(seg1, pts2@, j as int));
            }
            j = j + 1;
        }
        proof {
            assert(edge_crossings(seg1, pts2@, n2 as int) =~= Seq::<Point>::empty());
            assert(out@ + Seq::<Point>::empty() =~= out@);
            assert(out@ + polygon_crossings(pts1@, pts2@, i as int + 1) =~= (out@
                + edge_crossings(seg1, pts2@, n2 as int)) + polygon_crossings(
                pts1@,
                pts2@,
                i as int + 1,
            ));
        }
        i = i + 1;
    }
    proof {
        assert(polygon_crossings(pts1@, pts2@, n1 as int) =~= Seq::<Point>::empty());
        assert(out@ + Seq::<Point>::empty() =~= out@);
    }
    out
}

impl Affine {
    /// The image of a whole path under the transform: every control
    /// point is rewritten to its image, and every element keeps its
    /// kind.
    pub fn mul_bezpath(&self, rhs: &BezPath) -> (r: BezPath)
        ensures
            r@.len() == rhs@.len(),
            forall|i: int|
                0 <= i < rhs@.len() ==> r@[i] == affine_el_image(*self, rhs@[i]),
    {
        let mut out: Vec<PathEl> = Vec::new();
        let mut i: usize = 0;
        while i < rhs.elements.len()
            invariant
                0 <= i <= rhs@.len(),
                out@.len() == i,
                forall|j: int| 0 <= j < i ==> out@[j] == affine_el_image(*self, rhs@[j]),
            decreases rhs@.len() - i,
        {
            out.push(self.mul_pathel(rhs.elements[i]));
            i = i + 1;
        }
        BezPath { elements: out }
    }
}

impl TranslateScale {
    /// The image of a whole path under the transform: every control
    /// point is rewritten to its image, and every element keeps its
    /// kind.
    pub fn mul_bezpath(&self, rhs: &BezPath) -> (r: BezPath)
        ensures
            r@.len() == rhs@.len(),
            forall|i: int| 0 <= i < rhs@.len() ==> r@[i] == ts_el_image(*self, rhs@[i]),
    {
        let mut out: Vec<PathEl> = Vec::new();
        let mut i: usize = 0;
        while i < rhs.elements.len()
            invariant
                0 <= i <= rhs@.len(),
                out@.len() == i,
                forall|j: int| 0 <= j < i ==> out@[j] == ts_el_image(*self, rhs@[j]),
            decreases rhs@.len() - i,
        {
            out.push(self.mul_pathel(rhs.elements[i]));
            i = i + 1;
        }
        BezPath { elements: out }
    }
}

} // verus!

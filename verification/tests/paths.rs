use kurbopy::{Affine, BezPath, Line, PathEl, PathSeg, Point};

fn pt(x: f64, y: f64) -> Point {
    Point(kurbo::Point::new(x, y))
}

fn assert_pt(p: &Point, x: f64, y: f64) {
    assert!((p.0.x - x).abs() < 1e-12, "x: {} vs {}", p.0.x, x);
    assert!((p.0.y - y).abs() < 1e-12, "y: {} vs {}", p.0.y, y);
}

fn square_ccw() -> BezPath {
    let mut path = BezPath::new();
    path.move_to(pt(0.0, 0.0));
    path.line_to(pt(10.0, 0.0));
    path.line_to(pt(10.0, 10.0));
    path.line_to(pt(0.0, 10.0));
    path.close_path();
    path
}

#[test]
fn test_mutators_and_elements() {
    let mut path = BezPath::new();
    path.move_to(pt(1.0, 2.0));
    path.quad_to(pt(3.0, 4.0), pt(5.0, 6.0));
    path.curve_to(pt(7.0, 8.0), pt(9.0, 10.0), pt(11.0, 12.0));
    path.close_path();
    let mut it = path.elements();
    assert_eq!(it.len(), 4);
    match it.next() {
        Some(PathEl::MoveTo(p)) => assert_pt(&p, 1.0, 2.0),
        _ => panic!("expected MoveTo"),
    }
    match it.next() {
        Some(PathEl::QuadTo(p1, p2)) => {
            assert_pt(&p1, 3.0, 4.0);
            assert_pt(&p2, 5.0, 6.0);
        }
        _ => panic!("expected QuadTo"),
    }
    match it.next() {
        Some(PathEl::CurveTo(p1, _p2, p3)) => {
            assert_pt(&p1, 7.0, 8.0);
            assert_pt(&p3, 11.0, 12.0);
        }
        _ => panic!("expected CurveTo"),
    }
    assert!(matches!(it.next(), Some(PathEl::ClosePath)));
    assert!(matches!(it.next(), None));

    match path.pop() {
        Some(PathEl::ClosePath) => {}
        _ => panic!("expected to pop the ClosePath"),
    }
    path.truncate(1);
    assert_eq!(path.elements().len(), 1);
    assert!(path.pop().is_some());
    assert!(path.pop().is_none());
}

#[test]
fn test_is_empty() {
    let mut path = BezPath::new();
    assert!(path.is_empty());
    path.move_to(pt(0.0, 0.0));
    assert!(path.is_empty());
    path.close_path();
    assert!(path.is_empty());
    path.line_to(pt(1.0, 0.0));
    assert!(!path.is_empty());
}

#[test]
fn test_segments_synthesize_closing_line() {
    let path = square_ccw();
    let mut it = path.segments();
    assert_eq!(it.len(), 4);
    for expect in [
        ((0.0, 0.0), (10.0, 0.0)),
        ((10.0, 0.0), (10.0, 10.0)),
        ((10.0, 10.0), (0.0, 10.0)),
        ((0.0, 10.0), (0.0, 0.0)),
    ] {
        match it.next() {
            Some(PathSeg::Line(l)) => {
                assert_pt(&l.p0, expect.0 .0, expect.0 .1);
                assert_pt(&l.p1, expect.1 .0, expect.1 .1);
            }
            other => panic!("expected a line segment, got {:?}", other),
        }
    }
    assert!(it.next().is_none());
}

#[test]
fn test_segment_iterator_get() {
    let path = square_ccw();
    let it = path.segments();
    match it.get(3) {
        PathSeg::Line(l) => {
            assert_pt(&l.p0, 0.0, 10.0);
            assert_pt(&l.p1, 0.0, 0.0);
        }
        other => panic!("expected the closing line, got {:?}", other),
    }
}

#[test]
fn test_get_seg_is_one_indexed() {
    let path = square_ccw();
    assert!(path.get_seg(0).is_none());
    match path.get_seg(1) {
        Some(PathSeg::Line(l)) => {
            assert_pt(&l.p0, 0.0, 0.0);
            assert_pt(&l.p1, 10.0, 0.0);
        }
        other => panic!("expected the first edge, got {:?}", other),
    }
    match path.get_seg(4) {
        Some(PathSeg::Line(l)) => {
            assert_pt(&l.p0, 0.0, 10.0);
            assert_pt(&l.p1, 0.0, 0.0);
        }
        other => panic!("expected the closing edge, got {:?}", other),
    }
    assert!(path.get_seg(5).is_none());
}

fn to_kurbo_path(path: &BezPath) -> kurbo::BezPath {
    let mut it = path.elements();
    let mut els: Vec<kurbo::PathEl> = Vec::new();
    while let Some(el) = it.next() {
        els.push(match el {
            PathEl::MoveTo(p) => kurbo::PathEl::MoveTo(p.0),
            PathEl::LineTo(p) => kurbo::PathEl::LineTo(p.0),
            PathEl::QuadTo(p1, p2) => kurbo::PathEl::QuadTo(p1.0, p2.0),
            PathEl::CurveTo(p1, p2, p3) => kurbo::PathEl::CurveTo(p1.0, p2.0, p3.0),
            PathEl::ClosePath => kurbo::PathEl::ClosePath,
        });
    }
    kurbo::BezPath::from_vec(els)
}

fn assert_same_as_kurbo(path: &BezPath, reversed: &BezPath) {
    let expect = to_kurbo_path(path).reverse_subpaths();
    let got = to_kurbo_path(reversed);
    assert_eq!(expect.elements().len(), got.elements().len());
    for (a, b) in expect.elements().iter().zip(got.elements().iter()) {
        assert_eq!(format!("{:?}", a), format!("{:?}", b));
    }
}

#[test]
fn test_reverse_subpaths_closed_triangle() {
    let mut path = BezPath::new();
    path.move_to(pt(0.0, 0.0));
    path.line_to(pt(1.0, 1.0));
    path.line_to(pt(1.0, 0.0));
    path.close_path();
    let reversed = path.reverse_subpaths();
    let mut it = reversed.elements();
    match it.next() {
        Some(PathEl::MoveTo(p)) => assert_pt(&p, 1.0, 0.0),
        other => panic!("expected MoveTo, got {:?}", other),
    }
    match it.next() {
        Some(PathEl::LineTo(p)) => assert_pt(&p, 1.0, 1.0),
        other => panic!("expected LineTo, got {:?}", other),
    }
    match it.next() {
        Some(PathEl::LineTo(p)) => assert_pt(&p, 0.0, 0.0),
        other => panic!("expected LineTo, got {:?}", other),
    }
    assert!(matches!(it.next(), Some(PathEl::ClosePath)));
    assert!(it.next().is_none());
    assert_same_as_kurbo(&path, &reversed);
}

#[test]
fn test_reverse_subpaths_open_and_curved() {
    let mut path = BezPath::new();
    path.move_to(pt(0.0, 0.0));
    path.quad_to(pt(1.0, 2.0), pt(2.0, 0.0));
    path.curve_to(pt(3.0, 1.0), pt(4.0, -1.0), pt(5.0, 0.0));
    let reversed = path.reverse_subpaths();
    assert_same_as_kurbo(&path, &reversed);
}

#[test]
fn test_reverse_subpaths_two_subpaths() {
    let mut path = BezPath::new();
    path.move_to(pt(0.0, 0.0));
    path.line_to(pt(1.0, 0.0));
    path.close_path();
    path.move_to(pt(5.0, 5.0));
    path.line_to(pt(6.0, 5.0));
    path.line_to(pt(6.0, 6.0));
    let reversed = path.reverse_subpaths();
    assert_same_as_kurbo(&path, &reversed);
}

#[test]
fn test_reverse_subpaths_draw_after_close() {
    // drawing continues implicitly after the close; the reversal makes
    // the restart explicit, exactly as kurbo does
    let mut path = BezPath::new();
    path.move_to(pt(0.0, 0.0));
    path.line_to(pt(1.0, 0.0));
    path.close_path();
    path.line_to(pt(2.0, 2.0));
    let reversed = path.reverse_subpaths();
    assert_same_as_kurbo(&path, &reversed);
    assert_eq!(reversed.elements().len(), 5);
}

#[test]
fn test_reverse_subpaths_twice_restores() {
    let path = square_ccw();
    let twice = path.reverse_subpaths().reverse_subpaths();
    let mut a = path.elements();
    let mut b = twice.elements();
    assert_eq!(a.len(), b.len());
    loop {
        match (a.next(), b.next()) {
            (None, None) => break,
            (x, y) => assert_eq!(format!("{:?}", x), format!("{:?}", y)),
        }
    }
}

#[test]
fn test_winding_and_area_signs() {
    let ccw = square_ccw();
    let inside = pt(5.0, 5.0);
    assert_eq!(ccw.winding(inside), 1);
    assert!(ccw.contains(inside));
    assert!(!ccw.contains(pt(20.0, 5.0)));
    let area_ccw = kurbo::Shape::area(&to_kurbo_path(&ccw));
    assert!((area_ccw - 100.0).abs() < 1e-12);

    let cw = ccw.reverse_subpaths();
    assert_eq!(cw.winding(inside), -1);
    assert!(cw.contains(inside));
    let area_cw = kurbo::Shape::area(&to_kurbo_path(&cw));
    assert!((area_cw + 100.0).abs() < 1e-12);
}

#[test]
fn test_bounding_and_control_box() {
    let path = square_ccw();
    let bb = path.bounding_box();
    assert!((bb.0.x0 - 0.0).abs() < 1e-12);
    assert!((bb.0.y1 - 10.0).abs() < 1e-12);
    let cb = path.control_box();
    assert!((cb.0.x0 - 0.0).abs() < 1e-12);
    assert!((cb.0.x1 - 10.0).abs() < 1e-12);

    let mut curved = BezPath::new();
    curved.move_to(pt(0.0, 0.0));
    curved.quad_to(pt(1.0, 2.0), pt(2.0, 0.0));
    let cb = curved.control_box();
    assert!((cb.0.y1 - 2.0).abs() < 1e-12);
    let bb = curved.bounding_box();
    assert!((bb.0.y1 - 1.0).abs() < 1e-12);
}

#[test]
fn test_to_svg_matches_kurbo() {
    let path = square_ccw();
    assert_eq!(path.to_svg(), to_kurbo_path(&path).to_svg());
}

#[test]
fn test_apply_affine_translates_every_point() {
    let mut path = square_ccw();
    let a = Affine(kurbo::Affine::translate(kurbo::Vec2::new(3.0, -2.0)));
    path.apply_affine(&a);
    let mut it = path.elements();
    match it.next() {
        Some(PathEl::MoveTo(p)) => assert_pt(&p, 3.0, -2.0),
        other => panic!("expected MoveTo, got {:?}", other),
    }
    match it.next() {
        Some(PathEl::LineTo(p)) => assert_pt(&p, 13.0, -2.0),
        other => panic!("expected LineTo, got {:?}", other),
    }
}

#[test]
fn test_intersections_crossing_lines() {
    let mut path = BezPath::new();
    path.move_to(pt(0.0, 0.0));
    path.line_to(pt(2.0, 2.0));
    let line = Line { p0: pt(0.0, 2.0), p1: pt(2.0, 0.0) };
    let hits = path.intersections(&line);
    assert_eq!(hits.len(), 1);
    assert_pt(&hits[0], 1.0, 1.0);
}

#[test]
fn test_intersections_square_through_line() {
    let path = square_ccw();
    let line = Line { p0: pt(-1.0, 5.0), p1: pt(11.0, 5.0) };
    let hits = path.intersections(&line);
    assert_eq!(hits.len(), 2);
    for p in &hits {
        assert!((p.0.y - 5.0).abs() < 1e-12);
        assert!((p.0.x - 0.0).abs() < 1e-12 || (p.0.x - 10.0).abs() < 1e-12);
    }
}

#[test]
fn test_line_points_collects_polyline() {
    let mut path = BezPath::new();
    path.move_to(pt(0.0, 0.0));
    path.line_to(pt(1.0, 0.0));
    path.quad_to(pt(2.0, 1.0), pt(3.0, 0.0));
    path.line_to(pt(4.0, 0.0));
    path.close_path();
    let points = path.line_points();
    assert_eq!(points.len(), 3);
    assert_pt(&points[0], 0.0, 0.0);
    assert_pt(&points[1], 1.0, 0.0);
    assert_pt(&points[2], 4.0, 0.0);
}

#[test]
fn test_polyline_crossings() {
    let pts1 = vec![pt(0.0, 0.0), pt(2.0, 2.0)];
    let pts2 = vec![pt(0.0, 2.0), pt(2.0, 0.0)];
    let hits = kurbopy::bezpath::polyline_crossings(&pts1, &pts2);
    assert!(!hits.is_empty());
    for p in &hits {
        assert_pt(p, 1.0, 1.0);
    }
}

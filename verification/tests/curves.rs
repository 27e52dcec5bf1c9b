use kurbopy::{CubicBez, Line, PathEl, PathSeg, Point, QuadBez, QuadSpline, SegDeriv};
use std::cell::Cell;

fn pt(x: f64, y: f64) -> Point {
    Point(kurbo::Point::new(x, y))
}

fn assert_pt(p: &Point, x: f64, y: f64) {
    assert!((p.0.x - x).abs() < 1e-9, "x: {} vs {}", p.0.x, x);
    assert!((p.0.y - y).abs() < 1e-9, "y: {} vs {}", p.0.y, y);
}

fn test_cubic() -> CubicBez {
    CubicBez::new(pt(0.0, 0.0), pt(0.0, 1.0), pt(1.0, 1.0), pt(1.0, 0.0))
}

fn to_kurbo_cubic(c: &CubicBez) -> kurbo::CubicBez {
    kurbo::CubicBez::new(c.p0.0, c.p1.0, c.p2.0, c.p3.0)
}

#[test]
fn test_solve_quadratic_residuals() {
    for (c0, c1, c2) in [
        (-6.0, 1.0, 1.0),
        (2.0, -3.0, 1.0),
        (0.0, 0.0, 1.0),
        (-4.0, 0.0, 1.0),
        (1.0, 2.0, 0.0),
    ] {
        for t in kurbo::common::solve_quadratic(c0, c1, c2) {
            let residual = c0 + c1 * t + c2 * t * t;
            assert!(residual.abs() < 1e-9, "root {} residual {}", t, residual);
        }
    }
}

#[test]
fn test_solve_quadratic_degenerate() {
    let roots = kurbo::common::solve_quadratic(0.0, 0.0, 0.0);
    assert_eq!(roots.len(), 1);
    assert_eq!(roots[0], 0.0);
}

#[test]
fn test_solve_cubic_residuals() {
    for (c0, c1, c2, c3) in [
        (-6.0, 11.0, -6.0, 1.0),
        (1.0, 0.0, 0.0, 1.0),
        (2.0, -3.0, 1.0, 0.0),
        (0.5, 1.5, -2.5, 1.0),
    ] {
        let roots = kurbo::common::solve_cubic(c0, c1, c2, c3);
        assert!(!roots.is_empty());
        for t in roots {
            let residual = c0 + c1 * t + c2 * t * t + c3 * t * t * t;
            assert!(residual.abs() < 1e-7, "root {} residual {}", t, residual);
        }
    }
}

#[test]
fn test_solve_quartic_residuals() {
    // (x-1)(x-2)(x-3)(x-4) = x^4 - 10x^3 + 35x^2 - 50x + 24
    let roots = kurbo::common::solve_quartic(24.0, -50.0, 35.0, -10.0, 1.0);
    assert_eq!(roots.len(), 4);
    for t in roots {
        let residual = 24.0 - 50.0 * t + 35.0 * t * t - 10.0 * t * t * t + t * t * t * t;
        assert!(residual.abs() < 1e-6, "root {} residual {}", t, residual);
    }
}

#[test]
fn test_factor_quartic_recomposes() {
    // x^4 - 10x^3 + 35x^2 - 50x + 24 = (x-1)(x-2)(x-3)(x-4)
    let (a, b, c, d) = (-10.0, 35.0, -50.0, 24.0);
    let factors =
        kurbo::common::factor_quartic_inner(a, b, c, d, false).expect("factorization succeeds");
    assert_eq!(factors.len(), 2);
    let (p1, q1) = factors[0];
    let (p2, q2) = factors[1];
    assert!((p1 + p2 - a).abs() < 1e-6);
    assert!((q1 + q2 + p1 * p2 - b).abs() < 1e-6);
    assert!((p1 * q2 + p2 * q1 - c).abs() < 1e-6);
    assert!((q1 * q2 - d).abs() < 1e-6);
}

#[test]
fn test_solve_itp_convergence_and_bound() {
    let evals = Cell::new(0usize);
    let f = |x: f64| {
        evals.set(evals.get() + 1);
        x * x - 2.0
    };
    let a = 1.0;
    let b = 2.0;
    let epsilon = 1e-9;
    let t = kurbo::common::solve_itp(f, a, b, epsilon, 0, 0.2 / (b - a), a * a - 2.0, b * b - 2.0);
    assert!((t - std::f64::consts::SQRT_2).abs() <= epsilon);
    let bisection_bound = ((b - a) / epsilon).log2().ceil() as usize + 1;
    assert!(
        evals.get() <= bisection_bound,
        "{} evaluations exceeds the bisection bound {}",
        evals.get(),
        bisection_bound
    );
}

#[test]
fn test_arclen_converges_across_halved_tolerances() {
    let c = to_kurbo_cubic(&test_cubic());
    let mut tolerance = 1e-6;
    let mut prev = kurbo::ParamCurveArclen::arclen(&c, tolerance);
    for _ in 0..4 {
        tolerance *= 0.5;
        let next = kurbo::ParamCurveArclen::arclen(&c, tolerance);
        assert!((prev - next).abs() < tolerance);
        prev = next;
    }
    assert!(prev > 1.5 && prev < 2.5);
}

#[test]
fn test_inv_arclen_round_trip() {
    let c = to_kurbo_cubic(&test_cubic());
    for t in [0.1, 0.3, 0.5, 0.8, 1.0] {
        let partial = kurbo::ParamCurveArclen::arclen(
            &kurbo::ParamCurve::subsegment(&c, 0.0..t),
            1e-9,
        );
        let back = kurbo::ParamCurveArclen::inv_arclen(&c, partial, 1e-9);
        assert!((back - t).abs() < 1e-6, "t {} came back as {}", t, back);
    }
}

#[test]
fn test_flatten_deviation_within_tolerance() {
    let tolerance = 0.1;
    let c = to_kurbo_cubic(&test_cubic());
    let mut kels: Vec<kurbo::PathEl> = vec![kurbo::PathEl::MoveTo(c.p0)];
    kels.push(kurbo::PathEl::CurveTo(c.p1, c.p2, c.p3));
    let mut flat: Vec<kurbo::PathEl> = Vec::new();
    kurbo::flatten(kels, tolerance, |el| flat.push(el));

    // read the polyline back through the library
    let mut path = kurbopy::BezPath::new();
    for el in &flat {
        match el {
            kurbo::PathEl::MoveTo(p) => path.move_to(Point(*p)),
            kurbo::PathEl::LineTo(p) => path.line_to(Point(*p)),
            _ => panic!("flatten must produce only MoveTo and LineTo"),
        }
    }
    let polyline = path.line_points();
    assert!(polyline.len() >= 2);

    // sample the curve densely and check the deviation bound
    for i in 0..=200 {
        let t = i as f64 / 200.0;
        let on_curve = kurbo::ParamCurve::eval(&c, t);
        let mut best = f64::MAX;
        for w in polyline.windows(2) {
            let seg = kurbo::Line::new(w[0].0, w[1].0);
            let near = kurbo::ParamCurveNearest::nearest(&seg, on_curve, 1e-9);
            best = best.min(near.distance_sq.sqrt());
        }
        assert!(best <= tolerance + 1e-9, "deviation {} at t {}", best, t);
    }
}

#[test]
fn test_quadspline_to_quads() {
    let spline = QuadSpline::new(vec![
        pt(0.0, 0.0),
        pt(2.0, 2.0),
        pt(4.0, 0.0),
        pt(6.0, 2.0),
    ]);
    assert_eq!(spline.points().len(), 4);
    let quads = spline.to_quads();
    assert_eq!(quads.len(), 2);
    let expect: Vec<kurbo::QuadBez> = kurbo::QuadSpline::new(vec![
        kurbo::Point::new(0.0, 0.0),
        kurbo::Point::new(2.0, 2.0),
        kurbo::Point::new(4.0, 0.0),
        kurbo::Point::new(6.0, 2.0),
    ])
    .to_quads()
    .collect();
    for (q, e) in quads.iter().zip(expect.iter()) {
        assert_pt(&q.p0, e.p0.x, e.p0.y);
        assert_pt(&q.p1, e.p1.x, e.p1.y);
        assert_pt(&q.p2, e.p2.x, e.p2.y);
    }

    assert_eq!(QuadSpline::new(vec![pt(0.0, 0.0), pt(1.0, 1.0)]).to_quads().len(), 0);
}

#[test]
fn test_pathseg_reverse_and_casts() {
    let l = Line::new(pt(0.0, 0.0), pt(1.0, 2.0));
    let seg = PathSeg::Line(l);
    let rev = seg.reverse();
    match rev {
        PathSeg::Line(r) => {
            assert_pt(&r.p0, 1.0, 2.0);
            assert_pt(&r.p1, 0.0, 0.0);
        }
        other => panic!("expected a line, got {:?}", other),
    }
    let back = rev.reverse();
    match back {
        PathSeg::Line(r) => assert_pt(&r.p0, 0.0, 0.0),
        other => panic!("expected a line, got {:?}", other),
    }
    assert!(seg.as_line().is_some());
    assert!(seg.as_quad().is_none());
    assert!(seg.as_cubic().is_none());
    let q = PathSeg::Quad(QuadBez::new(pt(0.0, 0.0), pt(1.0, 1.0), pt(2.0, 0.0)));
    assert!(q.as_quad().is_some());
    match q.reverse() {
        PathSeg::Quad(r) => assert_pt(&r.p0, 2.0, 0.0),
        other => panic!("expected a quad, got {:?}", other),
    }
}

#[test]
fn test_pathseg_as_path_el_and_ends() {
    let c = test_cubic();
    let seg = PathSeg::Cubic(c);
    assert_pt(&seg.start(), 0.0, 0.0);
    assert_pt(&seg.end(), 1.0, 0.0);
    match seg.as_path_el() {
        PathEl::CurveTo(p1, p2, p3) => {
            assert_pt(&p1, 0.0, 1.0);
            assert_pt(&p2, 1.0, 1.0);
            assert_pt(&p3, 1.0, 0.0);
        }
        other => panic!("expected CurveTo, got {:?}", other),
    }
}

#[test]
fn test_pathseg_to_cubic() {
    let l = PathSeg::Line(Line::new(pt(0.0, 0.0), pt(3.0, 3.0)));
    let c = l.to_cubic();
    assert_pt(&c.p0, 0.0, 0.0);
    assert_pt(&c.p1, 0.0, 0.0);
    assert_pt(&c.p2, 3.0, 3.0);
    assert_pt(&c.p3, 3.0, 3.0);

    let q = QuadBez::new(pt(0.0, 0.0), pt(1.0, 1.0), pt(2.0, 0.0));
    let raised = PathSeg::Quad(q).to_cubic();
    let expect = kurbo::QuadBez::new(
        kurbo::Point::new(0.0, 0.0),
        kurbo::Point::new(1.0, 1.0),
        kurbo::Point::new(2.0, 0.0),
    )
    .raise();
    assert_pt(&raised.p1, expect.p1.x, expect.p1.y);
    assert_pt(&raised.p2, expect.p2.x, expect.p2.y);
    // degree elevation keeps the end points exactly
    assert_eq!(raised.p0.0.x, q.p0.0.x);
    assert_eq!(raised.p0.0.y, q.p0.0.y);
    assert_eq!(raised.p3.0.x, q.p2.0.x);
    assert_eq!(raised.p3.0.y, q.p2.0.y);
}

#[test]
fn test_derivatives() {
    let c = test_cubic();
    let d = c.deriv();
    let expect = kurbo::ParamCurveDeriv::deriv(&to_kurbo_cubic(&c));
    assert_pt(&d.p0, expect.p0.x, expect.p0.y);
    assert_pt(&d.p1, expect.p1.x, expect.p1.y);
    assert_pt(&d.p2, expect.p2.x, expect.p2.y);

    let q = QuadBez::new(pt(0.0, 0.0), pt(1.0, 1.0), pt(2.0, 0.0));
    let dq = q.deriv();
    assert_pt(&dq.p0, 2.0, 2.0);
    assert_pt(&dq.p1, 2.0, -2.0);

    match PathSeg::Cubic(c).deriv() {
        SegDeriv::Quad(qd) => assert_pt(&qd.p0, d.p0.0.x, d.p0.0.y),
        other => panic!("expected a quadratic derivative, got {:?}", other),
    }
    match PathSeg::Line(Line::new(pt(0.0, 0.0), pt(1.0, 0.0))).deriv() {
        SegDeriv::Const(_) => {}
        other => panic!("expected a constant derivative, got {:?}", other),
    }

    let ld = Line::new(pt(1.0, 2.0), pt(4.0, 6.0)).deriv();
    let at = kurbo::ParamCurve::eval(&ld.0, 0.5);
    assert!((at.x - 3.0).abs() < 1e-12);
    assert!((at.y - 4.0).abs() < 1e-12);
}

#[test]
fn test_intersect_line_inclusive() {
    let seg = PathSeg::Line(Line::new(pt(0.0, 0.0), pt(2.0, 2.0)));
    let hits = seg.intersect_line(Line::new(pt(0.0, 2.0), pt(2.0, 0.0)));
    assert_eq!(hits.len(), 1);
    assert!((hits[0].0.line_t - 0.5).abs() < 1e-12);
    assert!((hits[0].0.segment_t - 0.5).abs() < 1e-12);

    let parallel = seg.intersect_line(Line::new(pt(0.0, 1.0), pt(2.0, 3.0)));
    assert_eq!(parallel.len(), 0);
}

#[test]
fn test_cubics_to_quadratic_splines() {
    let q = kurbo::QuadBez::new(
        kurbo::Point::new(0.0, 0.0),
        kurbo::Point::new(1.0, 1.0),
        kurbo::Point::new(2.0, 0.0),
    );
    let c = q.raise();
    let splines = kurbo::cubics_to_quadratic_splines(&[c], 1e-3).expect("a spline fits");
    assert_eq!(splines.len(), 1);

    // a genuinely cubic curve admits no quadratic spline at an
    // impossible accuracy
    let hard = kurbo::CubicBez::new(
        kurbo::Point::new(0.0, 0.0),
        kurbo::Point::new(0.0, 1.0),
        kurbo::Point::new(1.0, -1.0),
        kurbo::Point::new(1.0, 0.0),
    );
    assert!(kurbo::cubics_to_quadratic_splines(&[hard], 1e-14).is_none());
}

use kurbopy::{Affine, Insets, Line, Point, Rect, Size, TranslateScale, Vec2};

fn pt(x: f64, y: f64) -> Point {
    Point(kurbo::Point::new(x, y))
}

fn assert_pt(p: &Point, x: f64, y: f64) {
    assert!((p.0.x - x).abs() < 1e-9, "x: {} vs {}", p.0.x, x);
    assert!((p.0.y - y).abs() < 1e-9, "y: {} vs {}", p.0.y, y);
}

#[test]
fn test_kurbo_docs() {
    let rect = kurbo::Rect::new(0., 0., 5., 11.);
    let insets = kurbo::Insets::uniform_xy(1., 7.);

    let inset_rect = rect + insets;
    println!("{:?}", inset_rect);
    let insets2 = inset_rect - rect;
    println!("{:?}", insets2);

    assert_eq!(insets2.x0, insets.x0);
    assert_eq!(insets2.y1, insets.y1);
    assert_eq!(insets2.x_value(), insets.x_value());
    assert_eq!(insets2.y_value(), insets.y_value());
}

#[test]
fn test_rect_inset_round_trip() {
    let rect = Rect(kurbo::Rect::new(0.0, 0.0, 10.0, 10.0));
    let insets = Insets(kurbo::Insets::uniform_xy(3.0, 0.0));
    let inset_rect = rect.inset(insets);
    assert_eq!(inset_rect.0.width(), 16.0);
    assert_eq!(inset_rect.0.x0, -3.0);
    let insets2 = inset_rect.sub_rect(rect);
    assert_eq!(insets2.0.x0, insets.0.x0);
    assert_eq!(insets2.0.y0, insets.0.y0);
    assert_eq!(insets2.0.x1, insets.0.x1);
    assert_eq!(insets2.0.y1, insets.0.y1);
}

#[test]
fn test_rect_queries() {
    let rect = Rect(kurbo::Rect::new(1.0, 2.0, 5.0, 8.0));
    assert_pt(&rect.center(), 3.0, 5.0);
    assert_pt(&rect.origin(), 1.0, 2.0);
    assert_eq!(rect.size().0.width, 4.0);
    assert!(rect.contains(pt(3.0, 5.0)));
    assert!(!rect.contains(pt(0.0, 0.0)));
    assert_eq!(rect.winding(pt(3.0, 5.0)), 1);
    assert_eq!(rect.winding(pt(0.0, 0.0)), 0);
    let r2 = rect.union(Rect(kurbo::Rect::new(-1.0, 3.0, 2.0, 4.0)));
    assert_eq!(r2.0.x0, -1.0);
    assert_eq!(r2.0.x1, 5.0);
    let r3 = rect.intersect(Rect(kurbo::Rect::new(3.0, 3.0, 9.0, 9.0)));
    assert_eq!(r3.0.x0, 3.0);
    assert_eq!(r3.0.x1, 5.0);
    let flipped = Rect(kurbo::Rect::new(5.0, 8.0, 1.0, 2.0));
    let abs = flipped.abs();
    assert_eq!(abs.0.x0, 1.0);
    assert_eq!(abs.0.y0, 2.0);
}

#[test]
fn test_affine_composition_law() {
    let a = Affine(kurbo::Affine::rotate(0.7));
    let b = Affine(kurbo::Affine::new([2.0, 0.5, -0.5, 1.5, 3.0, -4.0]));
    let p = pt(3.0, 4.0);
    let lhs = a.mul_affine(b).mul_point(p);
    let rhs = a.mul_point(b.mul_point(p));
    assert!((lhs.0.x - rhs.0.x).abs() < 1e-9);
    assert!((lhs.0.y - rhs.0.y).abs() < 1e-9);

    let id = Affine::identity();
    let q = id.mul_point(p);
    assert_eq!(q.0.x, 3.0);
    assert_eq!(q.0.y, 4.0);
}

#[test]
fn test_affine_inverse_and_translation() {
    let a = Affine(kurbo::Affine::new([2.0, 0.0, 0.0, 4.0, 1.0, 1.0]));
    let inv = a.inverse();
    let p = pt(5.0, -3.0);
    let back = inv.mul_point(a.mul_point(p));
    assert!((back.0.x - 5.0).abs() < 1e-12);
    assert!((back.0.y + 3.0).abs() < 1e-12);
    assert!(a.is_finite());

    let singular = Affine(kurbo::Affine::new([0.0, 0.0, 0.0, 0.0, 1.0, 1.0]));
    let bad = singular.inverse();
    assert!(!bad.is_finite());

    let t = a.translation();
    assert_eq!(t.0.x, 1.0);
    assert_eq!(t.0.y, 1.0);
}

#[test]
fn test_affine_line_and_curve_images() {
    let a = Affine(kurbo::Affine::translate(kurbo::Vec2::new(1.0, 2.0)));
    let l = Line { p0: pt(0.0, 0.0), p1: pt(1.0, 0.0) };
    let li = a.mul_line(l);
    assert_pt(&li.p0, 1.0, 2.0);
    assert_pt(&li.p1, 2.0, 2.0);
}

#[test]
fn test_point_rounding() {
    let a = pt(3.3, 3.6);
    let b = pt(3.0, -3.1);
    assert_pt(&a.round(), 3.0, 4.0);
    assert_pt(&b.round(), 3.0, -3.0);
    assert_pt(&a.ceil(), 4.0, 4.0);
    assert_pt(&b.ceil(), 3.0, -3.0);
    assert_pt(&a.floor(), 3.0, 3.0);
    assert_pt(&b.floor(), 3.0, -4.0);
    assert_pt(&a.expand(), 4.0, 4.0);
    assert_pt(&b.expand(), 3.0, -4.0);
    assert_pt(&a.trunc(), 3.0, 3.0);
    assert_pt(&b.trunc(), 3.0, -3.0);
}

#[test]
fn test_point_arithmetic() {
    let p = pt(1.0, 2.0);
    let v = Vec2(kurbo::Vec2::new(3.0, 4.0));
    assert_pt(&p.add_vec2(v), 4.0, 6.0);
    assert_pt(&p.sub_vec2(v), -2.0, -2.0);
    let mut q = p;
    q.iadd(v);
    assert_pt(&q, 4.0, 6.0);
    q.isub(v);
    assert_pt(&q, 1.0, 2.0);
    let m = p.midpoint(pt(3.0, 6.0));
    assert_pt(&m, 2.0, 4.0);
    assert!(p.is_finite());
    assert!(!p.is_nan());
    assert!(pt(f64::NAN, 0.0).is_nan());
    assert!(!pt(f64::INFINITY, 0.0).is_finite());
}

#[test]
fn test_vec2_ops() {
    let v = Vec2(kurbo::Vec2::new(3.0, 4.0));
    let w = Vec2(kurbo::Vec2::new(1.0, -1.0));
    let s = v.add_vec2(w);
    assert_eq!(s.0.x, 4.0);
    assert_eq!(s.0.y, 3.0);
    let d = v.sub_vec2(w);
    assert_eq!(d.0.x, 2.0);
    let n = v.normalize();
    assert!((n.0.hypot() - 1.0).abs() < 1e-12);
    let z = Vec2::zero();
    assert_eq!(z.0.x, 0.0);
    assert_pt(&v.to_point(), 3.0, 4.0);
    let neg = v.neg();
    assert_eq!(neg.0.x, -3.0);
}

#[test]
fn test_size_ops() {
    let s = Size(kurbo::Size::new(4.0, 6.0));
    assert!(!s.is_empty());
    assert!(Size::zero().is_empty());
    let r = s.to_rect();
    assert_eq!(r.0.x1, 4.0);
    assert_eq!(r.0.y1, 6.0);
    let c = s.clamp(
        Size(kurbo::Size::new(5.0, 0.0)),
        Size(kurbo::Size::new(10.0, 5.0)),
    );
    assert_eq!(c.0.width, 5.0);
    assert_eq!(c.0.height, 5.0);
}

#[test]
fn test_insets_ops() {
    let i = Insets(kurbo::Insets::new(-1.0, 2.0, 3.0, 4.0));
    assert!(!i.are_nonnegative());
    let n = i.nonnegative();
    assert!(n.are_nonnegative());
    assert_eq!(n.0.x0, 0.0);
    assert_eq!(n.0.y0, 2.0);
}

#[test]
fn test_line_crossing_point() {
    let l1 = Line { p0: pt(0.0, 0.0), p1: pt(2.0, 2.0) };
    let l2 = Line { p0: pt(0.0, 2.0), p1: pt(2.0, 0.0) };
    let cross = l1.crossing_point(&l2).expect("the lines cross");
    assert_pt(&cross, 1.0, 1.0);

    let parallel = Line { p0: pt(0.0, 1.0), p1: pt(2.0, 3.0) };
    assert!(l1.crossing_point(&parallel).is_none());
}

#[test]
fn test_line_accessors() {
    let mut l = Line::new(pt(1.0, 2.0), pt(3.0, 4.0));
    assert_pt(&l.get_p0(), 1.0, 2.0);
    assert_pt(&l.get_p1(), 3.0, 4.0);
    assert_pt(&l.start(), 1.0, 2.0);
    assert_pt(&l.end(), 3.0, 4.0);
    l.set_p0(pt(0.0, 0.0));
    assert_pt(&l.p0, 0.0, 0.0);
    let moved = l.add_vec2(Vec2(kurbo::Vec2::new(1.0, 1.0)));
    assert_pt(&moved.p0, 1.0, 1.0);
    assert_pt(&moved.p1, 4.0, 5.0);
}

#[test]
fn test_translate_scale() {
    let ts = TranslateScale(kurbo::TranslateScale::new(kurbo::Vec2::new(1.0, 2.0), 3.0));
    let p = ts.mul_point(pt(1.0, 1.0));
    assert_pt(&p, 4.0, 5.0);
    let inv = ts.inverse();
    let back = inv.mul_point(p);
    assert_pt(&back, 1.0, 1.0);
    let r = ts.mul_rect(Rect(kurbo::Rect::new(0.0, 0.0, 1.0, 1.0)));
    assert_eq!(r.0.x0, 1.0);
    assert_eq!(r.0.x1, 4.0);
    let composed = ts.mul_ts(TranslateScale(kurbo::TranslateScale::scale(2.0)));
    let q = composed.mul_point(pt(1.0, 0.0));
    let q2 = ts.mul_point(TranslateScale(kurbo::TranslateScale::scale(2.0)).mul_point(pt(1.0, 0.0)));
    assert_pt(&q, q2.0.x, q2.0.y);
}

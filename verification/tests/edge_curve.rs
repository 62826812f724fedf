use gpuiflow::curve::{edge_curve, CURVE_STEPS};
use gpuiflow::geometry::Point;

#[test]
fn curve_has_twenty_pieces_between_its_ends() {
    let source = Point::new(-30, 12);
    let target = Point::new(471, -90);
    let points = edge_curve(source, target);
    assert_eq!(CURVE_STEPS, 20);
    assert_eq!(points.len(), 21);
    assert_eq!(points[0], source);
    assert_eq!(points[20], target);
}

#[test]
fn curve_points_are_the_rounded_bezier_points() {
    let points = edge_curve(Point::new(0, 0), Point::new(100, 200));
    assert_eq!(points[1], Point::new(1, 14));
    assert_eq!(points[5], Point::new(16, 59));
    assert_eq!(points[10], Point::new(50, 100));
    assert_eq!(points[15], Point::new(84, 141));
    assert_eq!(points[19], Point::new(99, 186));
}

#[test]
fn curve_matches_the_cubic_formula() {
    let (sx, sy, tx, ty) = (37.0f64, -120.0f64, -415.0f64, 260.0f64);
    let points = edge_curve(Point::new(37, -120), Point::new(-415, 260));
    let half = (ty - sy) / 2.0;
    for (i, p) in points.iter().enumerate() {
        let t = i as f64 / 20.0;
        let u = 1.0 - t;
        let x = u.powi(3) * sx + 3.0 * u.powi(2) * t * sx + 3.0 * u * t.powi(2) * tx + t.powi(3) * tx;
        let y = u.powi(3) * sy
            + 3.0 * u.powi(2) * t * (sy + half)
            + 3.0 * u * t.powi(2) * (ty - half)
            + t.powi(3) * ty;
        assert!((p.x as f64 - x).abs() <= 0.5 + 1e-9);
        assert!((p.y as f64 - y).abs() <= 0.5 + 1e-9);
    }
}

#[test]
fn curve_of_a_point_is_that_point() {
    let p = Point::new(5, 5);
    assert!(edge_curve(p, p).iter().all(|q| *q == p));
}

#[test]
fn curve_between_far_points_stays_in_range() {
    let points = edge_curve(Point::new(i64::MIN, i64::MAX), Point::new(i64::MAX, i64::MIN));
    assert_eq!(points[0], Point::new(i64::MIN, i64::MAX));
    assert_eq!(points[20], Point::new(i64::MAX, i64::MIN));
    assert_eq!(points[10], Point::new(0, 0));
}

use nurbs_kernel::{generate_nurbs_curve_points, Binary64, ControlPoint, NurbsCurve};

fn b64(v: f64) -> Binary64 {
    Binary64::from_bits(v.to_bits())
}

fn val(b: Binary64) -> f64 {
    f64::from_bits(b.to_bits())
}

fn point(x: f64, y: f64, weight: f64) -> ControlPoint {
    ControlPoint::new(b64(x), b64(y), b64(weight))
}

#[test]
fn test_control_point_creation() {
    let point = ControlPoint::new(b64(1.0), b64(2.0), b64(3.0));
    assert_eq!(val(point.x()), 1.0);
    assert_eq!(val(point.y()), 2.0);
    assert_eq!(val(point.weight()), 3.0);
}

#[test]
fn test_control_point_setters() {
    let mut point = ControlPoint::new(b64(1.0), b64(2.0), b64(3.0));
    point.set_x(b64(4.0));
    point.set_y(b64(5.0));
    point.set_weight(b64(6.0));
    assert_eq!(val(point.x()), 4.0);
    assert_eq!(val(point.y()), 5.0);
    assert_eq!(val(point.weight()), 6.0);
}

#[test]
fn test_nurbs_curve_creation() {
    let curve = NurbsCurve::new(3);
    assert_eq!(curve.get_degree(), 3);
    assert_eq!(curve.num_control_points(), 0);
}

#[test]
fn test_add_control_point() {
    let mut curve = NurbsCurve::new(3);
    let point = ControlPoint::new(b64(1.0), b64(2.0), b64(3.0));
    curve.add_control_point(point);
    assert_eq!(curve.num_control_points(), 1);

    let retrieved_point = curve.get_control_point(0).unwrap();
    assert_eq!(val(retrieved_point.x()), 1.0);
    assert_eq!(val(retrieved_point.y()), 2.0);
    assert_eq!(val(retrieved_point.weight()), 3.0);
}

#[test]
fn test_update_control_point() {
    let mut curve = NurbsCurve::new(3);
    curve.add_control_point(ControlPoint::new(b64(1.0), b64(2.0), b64(3.0)));

    let success = curve.update_control_point(0, b64(4.0), b64(5.0), b64(6.0));
    assert!(success);

    let point = curve.get_control_point(0).unwrap();
    assert_eq!(val(point.x()), 4.0);
    assert_eq!(val(point.y()), 5.0);
    assert_eq!(val(point.weight()), 6.0);

    // Test updating non-existent point
    let failure = curve.update_control_point(1, b64(7.0), b64(8.0), b64(9.0));
    assert!(!failure);
}

#[test]
fn test_evaluate_simple_curve() {
    let mut curve = NurbsCurve::new(1); // Linear curve
    curve.add_control_point(ControlPoint::new(b64(0.0), b64(0.0), b64(1.0)));
    curve.add_control_point(ControlPoint::new(b64(10.0), b64(10.0), b64(1.0)));

    // Evaluate at u=0.0 (should be first control point)
    let point_start = curve.evaluate(b64(0.0)).unwrap();
    assert_eq!(val(point_start.x()), 0.0);
    assert_eq!(val(point_start.y()), 0.0);

    // Evaluate at u=1.0 (should be last control point)
    let point_end = curve.evaluate(b64(1.0)).unwrap();
    assert_eq!(val(point_end.x()), 10.0);
    assert_eq!(val(point_end.y()), 10.0);

    // Evaluate at u=0.5 (should be midpoint for linear curve)
    let point_mid = curve.evaluate(b64(0.5)).unwrap();
    assert_eq!(val(point_mid.x()), 5.0);
    assert_eq!(val(point_mid.y()), 5.0);
}

#[test]
fn test_generate_points() {
    let mut curve = NurbsCurve::new(1); // Linear curve
    curve.add_control_point(ControlPoint::new(b64(0.0), b64(0.0), b64(1.0)));
    curve.add_control_point(ControlPoint::new(b64(10.0), b64(10.0), b64(1.0)));

    let points = curve.generate_points(3);
    assert_eq!(points.len(), 3);

    // First point should be at u=0.0
    assert_eq!(val(points[0].x()), 0.0);
    assert_eq!(val(points[0].y()), 0.0);

    // Last point should be at u=1.0
    assert_eq!(val(points[2].x()), 10.0);
    assert_eq!(val(points[2].y()), 10.0);
}

#[test]
fn test_weighted_control_points() {
    let mut curve = NurbsCurve::new(1); // Linear curve
    curve.add_control_point(ControlPoint::new(b64(0.0), b64(0.0), b64(1.0)));
    curve.add_control_point(ControlPoint::new(b64(10.0), b64(10.0), b64(2.0))); // Higher weight pulls curve toward this point

    // At u=0.5, point should be closer to the second control point due to higher weight
    let point = curve.evaluate(b64(0.5)).unwrap();
    assert!(val(point.x()) > 5.0); // Should be pulled toward second point (x > 5.0)
    assert!(val(point.y()) > 5.0); // Should be pulled toward second point (y > 5.0)
}

#[test]
fn test_helper_function() {
    let control_points_x = vec![b64(0.0), b64(10.0)];
    let control_points_y = vec![b64(0.0), b64(10.0)];
    let weights = vec![b64(1.0), b64(1.0)];

    let result = generate_nurbs_curve_points(
        &control_points_x,
        &control_points_y,
        &weights,
        1, // Linear curve
        3, // 3 points
    );

    assert_eq!(result.len(), 6); // 3 points * 2 coordinates

    // First point (x,y) = (0,0)
    assert_eq!(val(result[0]), 0.0);
    assert_eq!(val(result[1]), 0.0);

    // Last point (x,y) = (10,10)
    assert_eq!(val(result[4]), 10.0);
    assert_eq!(val(result[5]), 10.0);
}

#[test]
fn new_curve_has_no_knots_and_no_points() {
    let curve = NurbsCurve::new(2);
    assert!(curve.knots().is_empty());
    assert!(curve.get_control_point(0).is_none());
    assert!(curve.evaluate(b64(0.5)).is_none());
    assert!(curve.find_span(b64(0.5)).is_none());
    assert!(curve.generate_points(5).is_empty());
}

#[test]
fn append_rebuilds_the_knots() {
    let mut curve = NurbsCurve::new(2);
    for k in 0..6usize {
        curve.add_control_point(point(k as f64, 0.0, 1.0));
        let n = k;
        let expected = n + n.min(2) + 2;
        assert_eq!(curve.knots().len(), expected);
    }
    let knots: Vec<f64> = curve.knots().iter().map(|k| val(*k)).collect();
    assert_eq!(knots, vec![0.0, 0.0, 0.0, 0.25, 0.5, 0.75, 1.0, 1.0, 1.0]);
}

#[test]
fn update_leaves_the_knots_alone() {
    let mut curve = NurbsCurve::new(1);
    curve.add_control_point(point(0.0, 0.0, 1.0));
    curve.add_control_point(point(10.0, 10.0, 1.0));
    curve.add_control_point(point(20.0, 0.0, 1.0));
    let before: Vec<u64> = curve.knots().iter().map(|k| k.to_bits()).collect();

    assert!(curve.update_control_point(1, b64(-3.0), b64(7.5), b64(2.0)));
    let after: Vec<u64> = curve.knots().iter().map(|k| k.to_bits()).collect();
    assert_eq!(before, after);
    let changed = curve.get_control_point(1).unwrap();
    assert_eq!(val(changed.x()), -3.0);
    assert_eq!(val(changed.y()), 7.5);
    assert_eq!(val(changed.weight()), 2.0);
    assert_eq!(curve.num_control_points(), 3);
    assert_eq!(curve.get_degree(), 1);
}

#[test]
fn update_out_of_range_changes_nothing() {
    let mut curve = NurbsCurve::new(1);
    curve.add_control_point(point(1.0, 2.0, 3.0));
    curve.add_control_point(point(4.0, 5.0, 6.0));
    let knots_before: Vec<u64> = curve.knots().iter().map(|k| k.to_bits()).collect();

    assert!(!curve.update_control_point(2, b64(9.0), b64(9.0), b64(9.0)));
    assert!(!curve.update_control_point(usize::MAX, b64(9.0), b64(9.0), b64(9.0)));

    assert_eq!(curve.num_control_points(), 2);
    let first = curve.get_control_point(0).unwrap();
    let second = curve.get_control_point(1).unwrap();
    assert_eq!((val(first.x()), val(first.y()), val(first.weight())), (1.0, 2.0, 3.0));
    assert_eq!((val(second.x()), val(second.y()), val(second.weight())), (4.0, 5.0, 6.0));
    let knots_after: Vec<u64> = curve.knots().iter().map(|k| k.to_bits()).collect();
    assert_eq!(knots_before, knots_after);
    assert!(curve.get_control_point(2).is_none());
}

#[test]
fn supplied_knots_stay_until_the_next_append() {
    let mut curve = NurbsCurve::new(1);
    curve.add_control_point(point(0.0, 0.0, 1.0));
    curve.add_control_point(point(10.0, 10.0, 1.0));
    curve.set_knots(vec![b64(0.0), b64(0.0), b64(2.0), b64(2.0)]);
    let knots: Vec<f64> = curve.knots().iter().map(|k| val(*k)).collect();
    assert_eq!(knots, vec![0.0, 0.0, 2.0, 2.0]);

    assert!(curve.update_control_point(0, b64(1.0), b64(1.0), b64(1.0)));
    let knots: Vec<f64> = curve.knots().iter().map(|k| val(*k)).collect();
    assert_eq!(knots, vec![0.0, 0.0, 2.0, 2.0]);

    // With the last knots at two, one half is a quarter of the way.
    let quarter = curve.evaluate(b64(0.5)).unwrap();
    assert_eq!(val(quarter.x()), 1.0 + 0.25 * 9.0);

    curve.add_control_point(point(20.0, 0.0, 1.0));
    let knots: Vec<f64> = curve.knots().iter().map(|k| val(*k)).collect();
    assert_eq!(knots, vec![0.0, 0.0, 0.5, 1.0, 1.0]);
}

#[test]
fn degree_is_capped_for_the_knots_only() {
    let mut curve = NurbsCurve::new(5);
    curve.add_control_point(point(0.0, 0.0, 1.0));
    curve.add_control_point(point(1.0, 1.0, 1.0));
    assert_eq!(curve.get_degree(), 5);
    let knots: Vec<f64> = curve.knots().iter().map(|k| val(*k)).collect();
    assert_eq!(knots, vec![0.0, 0.0, 1.0, 1.0]);
    // Four knots do not suffice for degree five.
    assert!(curve.find_span(b64(0.5)).is_none());
    assert!(curve.evaluate(b64(0.5)).is_none());
    assert!(curve.generate_points(4).is_empty());
}

#[test]
fn rebuilding_the_knots_of_an_empty_curve_gives_zero_and_one() {
    let mut curve = NurbsCurve::new(3);
    assert!(curve.knots().is_empty());
    curve.update_knots();
    let knots: Vec<f64> = curve.knots().iter().map(|k| val(*k)).collect();
    assert_eq!(knots, vec![0.0, 1.0]);
    assert_eq!(curve.num_control_points(), 0);
    // Still nothing to evaluate or to sample.
    assert!(curve.evaluate(b64(0.5)).is_none());
    assert!(curve.generate_points(3).is_empty());
}

#[test]
fn rebuilding_the_knots_discards_supplied_ones() {
    let mut curve = NurbsCurve::new(1);
    curve.add_control_point(point(0.0, 0.0, 1.0));
    curve.add_control_point(point(10.0, 10.0, 1.0));
    curve.set_knots(vec![b64(5.0)]);
    curve.update_knots();
    let knots: Vec<f64> = curve.knots().iter().map(|k| val(*k)).collect();
    assert_eq!(knots, vec![0.0, 0.0, 1.0, 1.0]);
}

#[test]
fn the_origin_has_weight_one() {
    let origin = ControlPoint::origin();
    assert_eq!((val(origin.x()), val(origin.y()), val(origin.weight())), (0.0, 0.0, 1.0));
}

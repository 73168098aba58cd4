use nurbs_kernel::knots::clamped_knot_vector;
use nurbs_kernel::span::{find_span, MAX_PROBES};
use nurbs_kernel::{Binary64, ControlPoint, NurbsCurve};

fn b64(v: f64) -> Binary64 {
    Binary64::from_bits(v.to_bits())
}

fn knots_of(values: &[f64]) -> Vec<Binary64> {
    values.iter().map(|v| b64(*v)).collect()
}

#[test]
fn probe_ceiling_is_one_hundred() {
    assert_eq!(MAX_PROBES, 100);
}

#[test]
fn nothing_is_located_without_control_points_or_knots() {
    let knots = knots_of(&[0.0, 0.0, 1.0, 1.0]);
    assert_eq!(find_span(&knots, 0, 1, b64(0.5)), None);
    assert_eq!(find_span(&Vec::new(), 2, 1, b64(0.5)), None);
    assert_eq!(find_span(&knots_of(&[0.0]), 1, 0, b64(0.5)), None);
}

#[test]
fn nothing_is_located_with_too_few_knots() {
    let knots = knots_of(&[0.0, 0.0, 1.0, 1.0]);
    // As many control points as knots.
    assert_eq!(find_span(&knots, 4, 1, b64(0.5)), None);
    assert_eq!(find_span(&knots, 5, 1, b64(0.5)), None);
    // The degree reaches the number of knots.
    assert_eq!(find_span(&knots, 2, 4, b64(0.5)), None);
    assert_eq!(find_span(&knots, 2, usize::MAX, b64(0.5)), None);
    // One less of each is enough: the parameter has not passed the knot
    // at the degree.
    assert_eq!(find_span(&knots, 3, 3, b64(0.5)), Some(3));
}

#[test]
fn ends_of_the_curve() {
    let knots = clamped_knot_vector(5, 2);
    assert_eq!(find_span(&knots, 5, 2, b64(0.0)), Some(2));
    assert_eq!(find_span(&knots, 5, 2, b64(1.0)), Some(4));
    assert_eq!(find_span(&knots, 5, 2, b64(-0.0)), Some(2));
}

#[test]
fn parameters_outside_the_unit_interval_are_clamped() {
    let knots = clamped_knot_vector(5, 2);
    assert_eq!(find_span(&knots, 5, 2, b64(-3.0)), Some(2));
    assert_eq!(find_span(&knots, 5, 2, b64(f64::NEG_INFINITY)), Some(2));
    assert_eq!(find_span(&knots, 5, 2, b64(1.0000000000000002)), Some(4));
    assert_eq!(find_span(&knots, 5, 2, b64(7.0)), Some(4));
    assert_eq!(find_span(&knots, 5, 2, b64(f64::INFINITY)), Some(4));
    assert_eq!(find_span(&knots, 5, 2, b64(f64::NAN)), Some(2));
}

#[test]
fn inner_spans_are_half_open() {
    // Knots 0 0 0 1/3 2/3 1 1 1.
    let knots = clamped_knot_vector(5, 2);
    assert_eq!(find_span(&knots, 5, 2, b64(0.1)), Some(2));
    assert_eq!(find_span(&knots, 5, 2, b64(0.33)), Some(2));
    assert_eq!(find_span(&knots, 5, 2, b64(1.0 / 3.0)), Some(3));
    assert_eq!(find_span(&knots, 5, 2, b64(0.5)), Some(3));
    assert_eq!(find_span(&knots, 5, 2, b64(2.0 / 3.0)), Some(4));
    assert_eq!(find_span(&knots, 5, 2, b64(0.99)), Some(4));
}

#[test]
fn every_parameter_lies_in_its_span() {
    for count in 1..24usize {
        for degree in 0..count.min(6) {
            let knots = clamped_knot_vector(count, degree);
            let values: Vec<f64> = knots.iter().map(|k| f64::from_bits(k.to_bits())).collect();
            for step in 0..=200 {
                let u = step as f64 / 200.0;
                let span = find_span(&knots, count, degree, b64(u)).unwrap();
                assert!(degree <= span && span < count);
                if u >= values[count] {
                    assert_eq!(span, count - 1);
                } else if u <= values[degree] {
                    assert_eq!(span, degree);
                } else {
                    assert!(values[span] <= u && u < values[span + 1]);
                }
            }
        }
    }
}

#[test]
fn long_knot_vectors_are_searched_within_the_ceiling() {
    let count = 100_000usize;
    let knots = clamped_knot_vector(count, 3);
    let values: Vec<f64> = knots.iter().map(|k| f64::from_bits(k.to_bits())).collect();
    for u in [1e-9, 0.123456789, 0.5, 0.75, 0.999999999] {
        let span = find_span(&knots, count, 3, b64(u)).unwrap();
        assert!(values[span] <= u && u < values[span + 1]);
    }
}

#[test]
fn knots_out_of_order_still_bracket_the_parameter() {
    let values = [0.0, 0.0, 0.9, 0.1, 0.8, 1.0, 1.0];
    let knots = knots_of(&values);
    assert_eq!(find_span(&knots, 5, 1, b64(0.5)), Some(3));
    for step in 1..100 {
        let u = step as f64 / 100.0;
        let span = find_span(&knots, 5, 1, b64(u)).unwrap();
        assert!(1 <= span && span < 5);
        assert!(values[span] <= u && u < values[span + 1], "{u}: {span}");
    }
}

#[test]
fn a_search_that_cannot_settle_falls_back_to_the_degree() {
    // Two control points and degree five, with knots from outside: the
    // search runs downwards from the degree and gets stuck between a knot
    // that says "left" and itself, until its probes are used up.
    let knots = knots_of(&[0.0, 0.0, 0.9, 0.9, 0.9, 0.1, 0.95, 1.0]);
    assert_eq!(find_span(&knots, 2, 5, b64(0.5)), Some(5));
}

#[test]
fn a_nan_knot_never_leaves_the_knot_vector() {
    // One control point and degree one: both ends of the search are the
    // last knot, and no knot follows it.
    let knots = knots_of(&[0.0, f64::NAN]);
    assert_eq!(find_span(&knots, 1, 1, b64(0.5)), Some(1));
    // With a knot behind it the search ends on the degree as well.
    let knots = knots_of(&[0.0, f64::NAN, 1.0]);
    assert_eq!(find_span(&knots, 1, 1, b64(0.5)), Some(1));
    let knots = knots_of(&[0.0, f64::NAN, 0.25]);
    assert_eq!(find_span(&knots, 1, 1, b64(0.5)), Some(1));
}

#[test]
fn nan_knots_inside_the_search() {
    let knots = knots_of(&[0.0, 0.0, f64::NAN, f64::NAN, 1.0, 1.0]);
    // Nothing compares with a NaN, so the first probe counts as a hit.
    assert_eq!(find_span(&knots, 4, 1, b64(0.5)), Some(2));
}

#[test]
fn degree_above_the_control_points() {
    // More knots than the curve needs, set from outside.
    let knots = knots_of(&[0.0, 0.1, 0.2, 0.3, 0.4, 0.5, 0.6, 0.7]);
    // The knot behind the last control point is reached.
    assert_eq!(find_span(&knots, 2, 5, b64(0.55)), Some(1));
    assert_eq!(find_span(&knots, 2, 5, b64(0.2)), Some(1));
    // The knot at the degree is not passed.
    assert_eq!(find_span(&knots, 2, 5, b64(0.15)), Some(5));
}

#[test]
fn the_curve_locates_spans_on_its_own_knots() {
    let mut curve = NurbsCurve::new(2);
    assert_eq!(curve.find_span(b64(0.5)), None);
    for k in 0..5 {
        curve.add_control_point(ControlPoint::new(b64(k as f64), b64(0.0), b64(1.0)));
    }
    assert_eq!(curve.find_span(b64(0.0)), Some(2));
    assert_eq!(curve.find_span(b64(0.5)), Some(3));
    assert_eq!(curve.find_span(b64(1.0)), Some(4));
    assert_eq!(curve.find_span(b64(2.0)), Some(4));
}

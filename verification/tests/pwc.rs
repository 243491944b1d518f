use curve_tracer::pwc::PieceWiseConstantFunction;
use curve_tracer::Real;

fn r(x: f64) -> Real {
    Real::from_bits(x.to_bits())
}

fn points(ps: &[(f64, f64)]) -> Vec<(Real, Real)> {
    ps.iter().map(|&(x, y)| (r(x), r(y))).collect()
}

#[test]
fn values_not_in_domain_are_skipped() {
    let pts = points(&[(-1.0, 12.0), (2.0, 23.0)]);
    let h = PieceWiseConstantFunction::from_points(r(0.0), r(1.0), 1, 1, &pts);
    assert_eq!(h.iter(), vec![]);
}

#[test]
fn left_end_is_inclusive() {
    let pts = points(&[(0.0, 12.0)]);
    let h = PieceWiseConstantFunction::from_points(r(0.0), r(1.0), 1, 1, &pts);
    assert_eq!(h.iter(), vec![(r(0.5), r(12.0))]);
}

#[test]
fn right_end_is_exclusive() {
    let pts = points(&[(1.0, 23.0)]);
    let h = PieceWiseConstantFunction::from_points(r(0.0), r(1.0), 1, 1, &pts);
    assert_eq!(h.iter(), vec![]);
}

#[test]
fn bucket_value_is_average() {
    let pts = points(&[(0.2, 12.0), (0.0, 23.0)]);
    let h = PieceWiseConstantFunction::from_points(r(0.0), r(1.0), 1, 1, &pts);
    assert_eq!(h.iter(), vec![(r(0.5), r(17.5))]);
}

#[test]
fn resampling_is_deterministic() {
    let pts = points(&[(0.1, 3.0), (0.7, -2.5), (0.3, 8.25), (0.3, 1.0), (4.9, 0.125)]);
    let a = PieceWiseConstantFunction::from_points(r(0.0), r(5.0), 50, 1, &pts);
    let b = PieceWiseConstantFunction::from_points(r(0.0), r(5.0), 50, 1, &pts);
    assert_eq!(a.iter(), b.iter());
}

#[test]
fn underpopulated_bucket_is_omitted_not_zeroed() {
    // One sample in the first bucket, three in the second; the floor of
    // two keeps the first bucket out entirely.
    let pts = points(&[(0.1, 7.0), (0.6, 1.0), (0.7, 2.0), (0.8, 3.0)]);
    let h = PieceWiseConstantFunction::from_points(r(0.0), r(1.0), 2, 2, &pts);
    assert_eq!(h.iter(), vec![(r(0.75), r(2.0))]);
}

#[test]
fn sample_at_domain_maximum_never_lands_in_a_bucket() {
    let pts = points(&[(5.0, 1.0), (4.999, 2.0)]);
    let h = PieceWiseConstantFunction::from_points(r(0.0), r(5.0), 5, 1, &pts);
    let out = h.iter();
    assert_eq!(out.len(), 1);
    assert_eq!(out[0].1, r(2.0));
}

#[test]
fn buckets_come_in_ascending_order() {
    let pts = points(&[(4.5, 9.0), (0.5, 1.0), (2.5, 4.0)]);
    let h = PieceWiseConstantFunction::from_points(r(0.0), r(5.0), 5, 1, &pts);
    let out = h.iter();
    assert_eq!(out.len(), 3);
    assert!(f64::from_bits(out[0].0.to_bits()) < f64::from_bits(out[1].0.to_bits()));
    assert!(f64::from_bits(out[1].0.to_bits()) < f64::from_bits(out[2].0.to_bits()));
}

#[test]
fn bucket_midpoints_match_double_arithmetic() {
    let pts = points(&[(0.5, 1.0), (1.5, 2.0), (2.5, 3.0)]);
    let h = PieceWiseConstantFunction::from_points(r(0.0), r(3.0), 3, 1, &pts);
    let out = h.iter();
    for (k, (x, _)) in out.iter().enumerate() {
        let expected = 0.0 + (3.0 - 0.0) * ((k as f64 + 0.5) / 3.0);
        assert_eq!(x.to_bits(), expected.to_bits());
    }
}

use curve_tracer::util::Engineering;
use curve_tracer::Real;

fn r(x: f64) -> Real {
    Real::from_bits(x.to_bits())
}

fn back(x: Real) -> f64 {
    f64::from_bits(x.to_bits())
}

const SAMPLES: [f64; 14] = [
    0.0,
    -0.0,
    1.0,
    -1.0,
    0.05,
    1.0e-5,
    -3.25e-7,
    123456.789,
    -9.875e12,
    5.0e-324,
    2.2250738585072014e-308,
    1.7976931348623157e308,
    f64::INFINITY,
    f64::NEG_INFINITY,
];

#[test]
fn sum_matches_double_addition() {
    for &a in &SAMPLES {
        for &b in &SAMPLES {
            let got = r(a).add(r(b));
            let want = a + b;
            if want.is_nan() {
                assert!(back(got).is_nan(), "{a} + {b}");
            } else {
                assert_eq!(got.to_bits(), want.to_bits(), "{a} + {b}");
            }
        }
    }
}

#[test]
fn difference_matches_double_subtraction() {
    for &a in &SAMPLES {
        for &b in &SAMPLES {
            let got = r(a).sub(r(b));
            let want = a - b;
            if want.is_nan() {
                assert!(back(got).is_nan(), "{a} - {b}");
            } else {
                assert_eq!(got.to_bits(), want.to_bits(), "{a} - {b}");
            }
        }
    }
}

#[test]
fn product_matches_double_multiplication() {
    for &a in &SAMPLES {
        for &b in &SAMPLES {
            let got = r(a).mul(r(b));
            let want = a * b;
            if want.is_nan() {
                assert!(back(got).is_nan(), "{a} * {b}");
            } else {
                assert_eq!(got.to_bits(), want.to_bits(), "{a} * {b}");
            }
        }
    }
}

#[test]
fn quotient_matches_double_division() {
    for &a in &SAMPLES {
        for &b in &SAMPLES {
            let got = r(a).div(r(b));
            let want = a / b;
            if want.is_nan() {
                assert!(back(got).is_nan(), "{a} / {b}");
            } else {
                assert_eq!(got.to_bits(), want.to_bits(), "{a} / {b}");
            }
        }
    }
}

#[test]
fn exponential_and_logarithms_match_std() {
    for &a in &SAMPLES {
        assert_eq!(r(a).exp().to_bits(), a.exp().to_bits(), "exp {a}");
        let l = a.ln();
        let got = r(a).ln();
        if l.is_nan() {
            assert!(back(got).is_nan(), "ln {a}");
        } else {
            assert_eq!(got.to_bits(), l.to_bits(), "ln {a}");
        }
        let l10 = a.log10();
        let got10 = r(a).log10();
        if l10.is_nan() {
            assert!(back(got10).is_nan(), "log10 {a}");
        } else {
            assert_eq!(got10.to_bits(), l10.to_bits(), "log10 {a}");
        }
    }
}

#[test]
fn square_root_and_floor_match_std() {
    for &a in &SAMPLES {
        let s = a.sqrt();
        let got = r(a).sqrt();
        if s.is_nan() {
            assert!(back(got).is_nan(), "sqrt {a}");
        } else {
            assert_eq!(got.to_bits(), s.to_bits(), "sqrt {a}");
        }
        assert_eq!(r(a).floor().to_bits(), a.floor().to_bits(), "floor {a}");
    }
}

#[test]
fn nan_operands_give_nan_results() {
    let n = r(f64::NAN);
    assert!(back(n.add(r(1.0))).is_nan());
    assert!(back(r(1.0).sub(n)).is_nan());
    assert!(back(n.exp()).is_nan());
    assert!(back(n.sqrt()).is_nan());
}

#[test]
fn integer_conversion_is_exact_and_rounds_beyond_the_mantissa() {
    assert_eq!(back(Real::of_u64(0)), 0.0);
    assert_eq!(back(Real::of_u64(5000)), 5000.0);
    assert_eq!(back(Real::of_u64(1 << 53)), (1u64 << 53) as f64);
    let big = u64::MAX;
    assert_eq!(back(Real::of_u64(big)), big as f64);
}

#[test]
fn comparisons_follow_ieee_order() {
    for &a in &SAMPLES {
        for &b in &SAMPLES {
            assert_eq!(r(a).lt(r(b)), a < b, "{a} < {b}");
            assert_eq!(r(a).le(r(b)), a <= b, "{a} <= {b}");
            assert_eq!(r(a).gt(r(b)), a > b, "{a} > {b}");
            assert_eq!(r(a).ge(r(b)), a >= b, "{a} >= {b}");
            assert_eq!(r(a).feq(r(b)), a == b, "{a} == {b}");
        }
    }
    let n = r(f64::NAN);
    assert!(!n.lt(r(0.0)) && !n.gt(r(0.0)) && !n.feq(n));
}

#[test]
fn zeros_compare_equal_but_keep_their_encodings() {
    assert!(r(0.0).feq(r(-0.0)));
    assert!(!r(0.0).lt(r(-0.0)));
    assert_ne!(r(-0.0).to_bits(), r(0.0).to_bits());
}

#[test]
fn max_and_min_ignore_nan_like_std() {
    for &a in &SAMPLES {
        for &b in &SAMPLES {
            assert_eq!(back(r(a).max(r(b))), a.max(b), "max {a} {b}");
            assert_eq!(back(r(a).min(r(b))), a.min(b), "min {a} {b}");
        }
        assert_eq!(back(r(a).max(r(f64::NAN))), a, "max {a} NaN");
        assert_eq!(back(r(f64::NAN).max(r(a))), a, "max NaN {a}");
    }
}

#[test]
fn negation_and_absolute_value_flip_the_sign_bit() {
    for &a in &SAMPLES {
        assert_eq!(r(a).neg().to_bits(), (-a).to_bits(), "neg {a}");
        assert_eq!(r(a).abs().to_bits(), a.abs().to_bits(), "abs {a}");
    }
}

#[test]
fn powers_of_ten_match_std() {
    for e in [-300, -16, -7, -3, 0, 3, 16, 300] {
        assert_eq!(back(Real::powi10(e)), 10.0f64.powi(e), "10^{e}");
    }
}

#[test]
fn renderings_match_std() {
    for &a in &SAMPLES {
        assert_eq!(r(a).format(), format!("{}", a), "format {a}");
        assert_eq!(r(a).format3(), format!("{:.3}", a), "format3 {a}");
    }
}

#[test]
fn integer_renderings_match_std() {
    for e in [0, 1, -1, 9, 10, -37, 300, -300, i32::MAX, i32::MIN] {
        assert_eq!(curve_tracer::scalar::format_i32(e), format!("{}", e), "{e}");
    }
}

#[test]
fn named_constants_encode_their_values() {
    assert_eq!(curve_tracer::scalar::ZERO_BITS, 0.0f64.to_bits());
    assert_eq!(curve_tracer::scalar::HALF_BITS, 0.5f64.to_bits());
    assert_eq!(curve_tracer::scalar::ONE_BITS, 1.0f64.to_bits());
    assert_eq!(curve_tracer::scalar::MAX_BITS, f64::MAX.to_bits());
    assert_eq!(curve_tracer::scalar::NAN_BITS, f64::NAN.to_bits());
    assert_eq!(curve_tracer::diode::OFFSET_WINDOW_BITS, 0.05f64.to_bits());
    assert_eq!(curve_tracer::diode::LOG_CLAMP_BITS, 0.00001f64.to_bits());
    assert_eq!(
        curve_tracer::diode::SATURATION_FLOOR_BITS,
        0.000_000_000_000_000_1f64.to_bits()
    );
    assert_eq!(curve_tracer::diode::THERMAL_FLOOR_BITS, 0.000_000_1f64.to_bits());
    assert_eq!(curve_tracer::diode::DOMAIN_MAX_BITS, 5.0f64.to_bits());
    assert_eq!(curve_tracer::diode::NEG_MAX_BITS, (-f64::MAX).to_bits());
    assert_eq!(curve_tracer::aoi::SLACK_BITS, 0.1f64.to_bits());
    assert_eq!(curve_tracer::aoi::TWO_BITS, 2.0f64.to_bits());
    assert_eq!(curve_tracer::aoi::NEG_ONE_BITS, (-1.0f64).to_bits());
    assert_eq!(curve_tracer::aoi::DEFAULT_MAX_I_BITS, 0.005f64.to_bits());
    assert_eq!(curve_tracer::dut::MIN_BIAS_CURRENT_BITS, 0.000_010f64.to_bits());
    assert_eq!(curve_tracer::dut::MAX_BIAS_CURRENT_BITS, 0.000_050f64.to_bits());
    assert_eq!(curve_tracer::dut::MICRO_SCALE_BITS, 1_000_000.0f64.to_bits());
    assert_eq!(curve_tracer::util::THREE_BITS, 3.0f64.to_bits());
    assert_eq!(curve_tracer::util::HUNDRED_BITS, 100.0f64.to_bits());
    assert_eq!(curve_tracer::util::NEG_HUNDRED_BITS, (-100.0f64).to_bits());
}

#[test]
fn gauss_newton_defaults_encode_their_values() {
    let p = curve_tracer::curvefit::GaussNewtonParams::default();
    assert_eq!(p.min_iterations, 5);
    assert_eq!(p.max_iterations, 500);
    assert_eq!(p.max_absolute_change.to_bits(), 0.000_000_000_000_000_1f64.to_bits());
    assert_eq!(p.max_total_error.to_bits(), 0.000_000_000_000_1f64.to_bits());
    assert_eq!(p.max_error_improvement.to_bits(), 0.000_001f64.to_bits());
    assert_eq!(p.min_shift_cut.to_bits(), 0.000_000_000_001f64.to_bits());
    assert_eq!(p.shift_cut_refining_step.to_bits(), 0.2f64.to_bits());
    assert_eq!(p.shift_cut_speed_up.to_bits(), 2.0f64.to_bits());
    assert!(p.damping_scaled_stopping);
}

#[test]
fn engineering_notation_groups_by_thousands() {
    assert_eq!(Engineering(r(0.0)).format(), "0");
    assert_eq!(Engineering(r(1.0)).format(), "1.000");
    assert_eq!(Engineering(r(0.00123)).format(), "1.230m");
    assert_eq!(Engineering(r(-0.00123)).format(), "-1.230m");
    assert_eq!(Engineering(r(2.5e-8)).format(), "25.000n");
    assert_eq!(Engineering(r(4.7e3)).format(), "4.700k");
    assert_eq!(Engineering(r(3.0e6)).format(), "3.000M");
    assert_eq!(Engineering(r(5.0e-6)).format(), "5.000\u{b5}");
}

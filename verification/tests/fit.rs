use curve_tracer::backend::RawTrace;
use curve_tracer::curvefit::{gauss_newton, linear_regression, DiffFn, GaussNewtonParams};
use curve_tracer::diode::{current_offset, diode_model, log_linear_simplified_shockley,
    CurrentOffsetModel, IVModel, ShockleyModel};
use curve_tracer::Real;

fn r(x: f64) -> Real {
    Real::from_bits(x.to_bits())
}

fn back(x: Real) -> f64 {
    f64::from_bits(x.to_bits())
}

fn raw(points: &[(f64, f64)]) -> RawTrace {
    let voltage: Vec<Real> = points.iter().map(|&(v, _)| r(v)).collect();
    let current: Vec<Real> = points.iter().map(|&(_, i)| r(i)).collect();
    RawTrace::new(current, voltage)
}

fn shockley_current(offset: f64, is: f64, n_vt: f64, v: f64) -> f64 {
    offset + is * ((v / n_vt).exp() - 1.0)
}

fn synthetic(offset: f64, is: f64, n_vt: f64, n: usize, vmax: f64) -> Vec<(f64, f64)> {
    (0..n)
        .map(|k| {
            let v = vmax * (k as f64) / (n as f64);
            (v, shockley_current(offset, is, n_vt, v))
        })
        .collect()
}

fn rel_err(got: f64, want: f64) -> f64 {
    ((got - want) / want).abs()
}

#[test]
fn fitting_synthetic_data_recovers_the_parameters() {
    let offset = -0.000_103_5;
    let is = 0.000_000_013_4;
    let n_vt = 0.053_6;
    // One sample exactly at each bucket midpoint, so the resampled trace
    // reproduces the model's own values.
    let pts: Vec<(f64, f64)> = (0..800)
        .map(|k| {
            let v = 0.0 + (5.0 - 0.0) * ((k as f64 + 0.5) / 5000.0);
            (v, shockley_current(offset, is, n_vt, v))
        })
        .collect();
    let trace = raw(&pts);
    let model = diode_model(&trace).expect("synthetic data must fit");
    let e0 = rel_err(back(model.current_offset()), offset);
    let e1 = rel_err(back(model.is()), is);
    let e2 = rel_err(back(model.n_vt()), n_vt);
    assert!(e0 < 1.0e-6, "offset err {e0:e}, is err {e1:e}, n_vt err {e2:e}");
    assert!(e1 < 1.0e-6, "offset err {e0:e}, is err {e1:e}, n_vt err {e2:e}");
    assert!(e2 < 1.0e-6, "offset err {e0:e}, is err {e1:e}, n_vt err {e2:e}");
}

#[test]
fn an_empty_trace_yields_no_fit() {
    let trace = raw(&[]);
    assert!(diode_model(&trace).is_none());
}

#[test]
fn a_trace_entirely_outside_the_domain_yields_no_fit() {
    let trace = raw(&[(-1.0, 0.5), (-0.25, 0.125), (6.0, 0.75), (5.0, 0.5)]);
    assert!(diode_model(&trace).is_none());
}

#[test]
fn sanitize_clamps_the_scale_parameters_to_positive_floors() {
    let mut m = ShockleyModel::new(r(0.5), r(-2.0), r(0.0));
    m.sanitize_params();
    assert_eq!(back(m.current_offset()), 0.5);
    assert_eq!(back(m.is()), 1.0e-16);
    assert_eq!(back(m.n_vt()), 1.0e-7);
    assert!(back(m.is()) > 0.0 && back(m.n_vt()) > 0.0);

    let mut ok = ShockleyModel::new(r(0.0), r(3.0e-8), r(0.05));
    ok.sanitize_params();
    assert_eq!(back(ok.is()), 3.0e-8);
    assert_eq!(back(ok.n_vt()), 0.05);
}

#[test]
fn current_offset_needs_at_least_a_hundred_window_samples() {
    // 100 samples inside [0, 0.05) with current 2.0 each.
    let mut pts: Vec<(Real, Real)> = Vec::new();
    for k in 0..100 {
        pts.push((r(0.0004 * k as f64), r(2.0)));
    }
    let co = current_offset(&pts);
    assert_eq!(back(co.current_offset), 2.0);

    // 99 samples are not enough: the offset stays zero.
    pts.pop();
    let co = current_offset(&pts);
    assert_eq!(back(co.current_offset), 0.0);

    // Samples at or above the window's edge are not counted.
    let outside: Vec<(Real, Real)> = (0..200).map(|_| (r(0.05), r(2.0))).collect();
    assert_eq!(back(current_offset(&outside).current_offset), 0.0);
}

#[test]
fn linear_regression_matches_a_direct_svd_solve() {
    let xs_f: Vec<f64> = (0..40).map(|k| 0.1 * k as f64).collect();
    let ys_f: Vec<f64> = xs_f.iter().map(|x| 3.0 * x + 0.75).collect();
    let xs: Vec<Real> = xs_f.iter().map(|&x| r(x)).collect();
    let ys: Vec<Real> = ys_f.iter().map(|&y| r(y)).collect();
    let (b0, b1) = linear_regression(&xs, &ys).expect("regression must solve");

    // The same solve, written directly against nalgebra.
    let x_t = nalgebra::DMatrix::from_fn(xs_f.len(), 2, |i, j| if j == 0 { xs_f[i] } else { 1.0 });
    let y = nalgebra::DVector::from_fn(ys_f.len(), |i, _| ys_f[i]);
    let svd = nalgebra::linalg::SVD::try_new(x_t, true, true, f64::EPSILON, 1000).unwrap();
    let u = svd.u.unwrap();
    let s = svd.singular_values;
    let v_t = svd.v_t.unwrap();
    let alpha = u.transpose() * y;
    let sinv = alpha.zip_map(&s, |a, si| a / si);
    let betas = (v_t.transpose() * sinv).transpose();

    assert_eq!(back(b0).to_bits(), betas[(0, 0)].to_bits());
    assert_eq!(back(b1).to_bits(), betas[(0, 1)].to_bits());
    assert!(rel_err(back(b0), 3.0) < 1.0e-10);
    assert!(rel_err(back(b1), 0.75) < 1.0e-10);
}

#[test]
fn linear_regression_rejects_empty_and_non_finite_input() {
    assert!(linear_regression(&Vec::new(), &Vec::new()).is_none());
    let xs = vec![r(0.0), r(1.0)];
    let ys = vec![r(0.5), r(f64::INFINITY)];
    assert!(linear_regression(&xs, &ys).is_none());
}

#[test]
fn the_seed_alone_lands_near_the_true_parameters() {
    let offset = 0.0;
    let is = 2.0e-8;
    let n_vt = 0.055;
    let pts: Vec<(Real, Real)> = synthetic(offset, is, n_vt, 500, 0.8)
        .into_iter()
        .map(|(v, i)| (r(v), r(i)))
        .filter(|(_, i)| f64::from_bits(i.to_bits()) > 0.000_02)
        .collect();
    let co = current_offset(&pts);
    let seed = log_linear_simplified_shockley(&pts, co).expect("seed must fit");
    assert!(rel_err(back(seed.n_vt), n_vt) < 0.05);
}

#[test]
fn the_model_evaluates_its_own_law() {
    let m = ShockleyModel::new(r(-1.0e-4), r(2.0e-8), r(0.055));
    for v in [0.0, 0.1, 0.45, 0.7] {
        let want = shockley_current(-1.0e-4, 2.0e-8, 0.055, v);
        assert_eq!(back(m.evaluate(r(v))).to_bits(), want.to_bits());
    }
    assert_eq!(back(m.min_v()), 0.0);
    let want_max: f64 = 0.055 * ((2.0e-8f64 + 1.0 - (-1.0e-4)) / 2.0e-8).ln();
    assert_eq!(back(m.max_v()).to_bits(), want_max.to_bits());
}

#[test]
fn the_gradient_matches_the_partial_derivatives() {
    let (p0, p1, p2) = (-1.0e-4, 2.0e-8, 0.055);
    let m = ShockleyModel::new(r(p0), r(p1), r(p2));
    for v in [0.05, 0.3, 0.62] {
        let g = m.grad(r(v));
        let e = (v / p2).exp();
        assert_eq!(back(g[0]), 1.0);
        assert_eq!(back(g[1]).to_bits(), (e - 1.0).to_bits());
        assert_eq!(back(g[2]).to_bits(), (-p1 * v * e / (p2 * p2)).to_bits());
        assert_eq!(back(m.deriv(r(v))).to_bits(), (p1 * e / p2).to_bits());
    }
}

#[test]
fn the_report_names_every_parameter_with_its_unit() {
    let m = ShockleyModel::new(r(-1.0e-4), r(2.0e-8), r(0.055));
    let report = m.report();
    let lines: Vec<&str> = report.lines().collect();
    assert_eq!(lines.len(), 3);
    assert!(lines[0].starts_with("I<sub>OS</sub>\t") && lines[0].ends_with("A"));
    assert!(lines[1].starts_with("I<sub>S</sub>\t") && lines[1].ends_with("A"));
    assert!(lines[2].starts_with("n\u{22c5}V<sub>T</sub>\t") && lines[2].ends_with("V"));
    assert!(lines[1].contains("20.000n"));
    assert!(lines[2].contains("55.000m"));
}

#[test]
fn the_refiner_converges_with_unscaled_stopping_thresholds_too() {
    let offset = -0.000_1;
    let is = 2.0e-8;
    let n_vt = 0.055;
    let pts = synthetic(offset, is, n_vt, 500, 0.8);
    let xs: Vec<Real> = pts.iter().map(|&(v, _)| r(v)).collect();
    let ys: Vec<Real> = pts.iter().map(|&(_, i)| r(i)).collect();
    let mut model = ShockleyModel::new(r(0.0), r(1.0e-8), r(0.05));
    let mut params = GaussNewtonParams::default();
    params.damping_scaled_stopping = false;
    let _trace = gauss_newton(&xs, &ys, &mut model, params);
    assert!(rel_err(back(model.is()), is) < 1.0e-3);
    assert!(rel_err(back(model.n_vt()), n_vt) < 1.0e-3);
}

#[test]
fn the_seed_report_opens_with_the_offset_line() {
    let seed = curve_tracer::diode::LogLinearShockleyModel {
        current_offset: CurrentOffsetModel { current_offset: r(0.0) },
        is: r(2.0e-8),
        n_vt: r(0.055),
    };
    let report = seed.report();
    let lines: Vec<&str> = report.lines().collect();
    assert_eq!(lines.len(), 3);
    assert_eq!(lines[0], "I<sub>OS</sub>\t0A");
    assert!(lines[1].contains("20.000n"));
    assert!(lines[2].contains("55.000m"));
}

#[test]
fn repeated_fits_are_bit_identical() {
    let pts = synthetic(-0.000_1, 2.0e-8, 0.055, 1200, 0.8);
    let t1 = raw(&pts);
    let t2 = raw(&pts);
    let m1 = diode_model(&t1).expect("must fit");
    let m2 = diode_model(&t2).expect("must fit");
    assert_eq!(m1.current_offset().to_bits(), m2.current_offset().to_bits());
    assert_eq!(m1.is().to_bits(), m2.is().to_bits());
    assert_eq!(m1.n_vt().to_bits(), m2.n_vt().to_bits());
    assert!(diode_model(&raw(&[])).is_none() && diode_model(&raw(&[])).is_none());
}

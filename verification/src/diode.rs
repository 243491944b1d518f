//! The Shockley-style diode model family and the trace-to-model pipeline:
//! estimate a current offset over the small-voltage window, seed the two
//! remaining parameters by a log-linear least squares, then refine all
//! three by damped Gauss-Newton.

use vstd::prelude::*;
use vstd::string::StringExecFns;

use crate::backend::RawTrace;
use crate::curvefit::{
    err_spec, gauss_newton, linear_regression, spec_linear_regression, DiffFn, GaussNewtonParams,
    GnTrace,
};
use crate::pwc::{spec_edge, spec_output, sum_seq, ys_in, PieceWiseConstantFunction};
use crate::scalar::{
    is_nan_b, is_pos_b, key_b, mag_b, max_spec, of_u64_bits, sign_b, spec_add, spec_div, spec_exp,
    spec_ln, spec_mul, spec_sub, Real, MAX_BITS, ONE_BITS, SIGN_MASK, ZERO_BITS,
};

verus! {

/// Encoding of the small-voltage window's upper edge, 0.05 V.
pub const OFFSET_WINDOW_BITS: u64 = 0x3FA9_9999_9999_999A;

/// Encoding of the positive floor 1e-5 that keeps the logarithm defined.
pub const LOG_CLAMP_BITS: u64 = 0x3EE4_F8B5_88E3_68F1;

/// Encoding of the saturation-current floor 1e-16.
pub const SATURATION_FLOOR_BITS: u64 = 0x3C9C_D2B2_97D8_89BC;

/// Encoding of the thermal-scale floor 1e-7.
pub const THERMAL_FLOOR_BITS: u64 = 0x3E7A_D7F2_9ABC_AF48;

/// Encoding of the 5 V upper edge of the diode's fitted domain.
pub const DOMAIN_MAX_BITS: u64 = 0x4014_0000_0000_0000;

/// Encoding of the largest negative finite double.
pub const NEG_MAX_BITS: u64 = 0xFFEF_FFFF_FFFF_FFFF;

/// A model polymorphic over current-voltage evaluation: its valid voltage
/// span and its current at a voltage.
pub trait IVModel {
    /// The lower edge of the model's valid voltage span.
    spec fn min_v_spec(&self) -> Real;

    /// The upper edge of the model's valid voltage span.
    spec fn max_v_spec(&self) -> Real;

    /// The modeled current at voltage `v`.
    spec fn evaluate_spec(&self, v: Real) -> Real;

    /// The lower edge of the valid span.
    fn min_v(&self) -> (r: Real)
        ensures
            r == self.min_v_spec(),
    ;

    /// The upper edge of the valid span.
    fn max_v(&self) -> (r: Real)
        ensures
            r == self.max_v_spec(),
    ;

    /// The modeled current at voltage `v`.
    fn evaluate(&self, v: Real) -> (r: Real)
        ensures
            r == self.evaluate_spec(v),
    ;
}

/// A constant-current model: the measurement chain's current offset.
#[derive(Clone, Copy, PartialEq, Eq, Structural, Debug)]
pub struct CurrentOffsetModel {
    pub current_offset: Real,
}

impl IVModel for CurrentOffsetModel {
    open spec fn min_v_spec(&self) -> Real {
        Real { bits: NEG_MAX_BITS }
    }

    open spec fn max_v_spec(&self) -> Real {
        Real { bits: MAX_BITS }
    }

    open spec fn evaluate_spec(&self, v: Real) -> Real {
        self.current_offset
    }

    fn min_v(&self) -> (r: Real) {
        Real::from_bits(NEG_MAX_BITS)
    }

    fn max_v(&self) -> (r: Real) {
        Real::from_bits(MAX_BITS)
    }

    fn evaluate(&self, v: Real) -> (r: Real) {
        self.current_offset
    }
}

/// The current offset as a function of the samples: the mean current over
/// the window 0 <= v < 0.05 when at least 100 samples fall there, else
/// zero.
pub open spec fn spec_current_offset(trace: Seq<(Real, Real)>) -> Real {
    let window = ys_in(
        trace,
        (Real { bits: ZERO_BITS }),
        (Real { bits: OFFSET_WINDOW_BITS }),
    );
    if window.len() >= 100 {
        spec_div(sum_seq(window), (Real { bits: of_u64_bits(window.len() as u64) }))
    } else {
        (Real { bits: ZERO_BITS })
    }
}

/// Estimates the current offset of a trace: the mean current over the
/// fixed small-voltage window [0, 0.05), but only when at least 100
/// samples fall in the window; otherwise zero.
pub fn current_offset(trace: &Vec<(Real, Real)>) -> (r: CurrentOffsetModel)
    ensures
        r.current_offset == spec_current_offset(trace@),
{
    let lo = Real::zero();
    let hi = Real::from_bits(OFFSET_WINDOW_BITS);
    let mut i_sum = Real::zero();
    let mut samples: usize = 0;
    let mut j: usize = 0;
    while j < trace.len()
        invariant
            j <= trace@.len(),
            lo.bits == ZERO_BITS,
            hi.bits == OFFSET_WINDOW_BITS,
            samples == ys_in(trace@.take(j as int), lo, hi).len(),
            samples <= j,
            i_sum == sum_seq(ys_in(trace@.take(j as int), lo, hi)),
        decreases trace@.len() - j,
    {
        let (v, i) = trace[j];
        proof {
            assert(trace@.take(j + 1).drop_last() =~= trace@.take(j as int));
            assert(trace@.take(j + 1).last() == trace@[j as int]);
        }
        if lo.le(v) && v.lt(hi) {
            proof {
                let prev = ys_in(trace@.take(j as int), lo, hi);
                assert(prev.push(i).drop_last() =~= prev);
            }
            i_sum = i_sum.add(i);
            samples = samples + 1;
        }
        j = j + 1;
    }
    proof {
        assert(trace@.take(trace@.len() as int) =~= trace@);
    }
    CurrentOffsetModel {
        current_offset: if samples >= 100 {
            i_sum.div(Real::of_u64(samples as u64))
        } else {
            Real::zero()
        },
    }
}

/// The log-linearized seed: a current offset plus `is * exp(v / n_vt)`.
#[derive(Clone, Copy, PartialEq, Eq, Structural, Debug)]
pub struct LogLinearShockleyModel {
    pub current_offset: CurrentOffsetModel,
    pub is: Real,
    pub n_vt: Real,
}

impl IVModel for LogLinearShockleyModel {
    open spec fn min_v_spec(&self) -> Real {
        Real { bits: ZERO_BITS }
    }

    open spec fn max_v_spec(&self) -> Real {
        spec_mul(
            self.n_vt,
            spec_ln(
                spec_div(
                    spec_sub((Real { bits: ONE_BITS }), self.current_offset.current_offset),
                    self.is,
                ),
            ),
        )
    }

    open spec fn evaluate_spec(&self, v: Real) -> Real {
        spec_add(self.current_offset.current_offset, spec_mul(self.is, spec_exp(spec_div(v, self.n_vt))))
    }

    fn min_v(&self) -> (r: Real) {
        Real::zero()
    }

    fn max_v(&self) -> (r: Real) {
        self.n_vt.mul(Real::one().sub(self.current_offset.current_offset).div(self.is).ln())
    }

    fn evaluate(&self, v: Real) -> (r: Real) {
        self.current_offset.current_offset.add(self.is.mul(v.div(self.n_vt).exp()))
    }
}

/// The voltages of a sample sequence, in order.
pub open spec fn vs_of(trace: Seq<(Real, Real)>) -> Seq<Real> {
    Seq::new(trace.len(), |i: int| trace[i].0)
}

/// The regressands of the seed: each current less the offset, clamped to
/// the positive floor, under the natural logarithm.
pub open spec fn ln_ys_of(trace: Seq<(Real, Real)>, co: Real) -> Seq<Real> {
    Seq::new(
        trace.len(),
        |i: int|
            spec_ln(
                (Real { bits: max_spec(spec_sub(trace[i].1, co).bits, LOG_CLAMP_BITS) }),
            ),
    )
}

/// The seed as a function of the samples and the offset: the log-linear
/// regression's coefficients mapped to the model's scale parameters, or
/// nothing when the regression signals no fit.
pub open spec fn spec_log_linear(
    trace: Seq<(Real, Real)>,
    co: CurrentOffsetModel,
) -> Option<LogLinearShockleyModel> {
    match spec_linear_regression(vs_of(trace), ln_ys_of(trace, co.current_offset)) {
        Some(betas) => Some(
            LogLinearShockleyModel {
                current_offset: co,
                is: spec_exp(betas.1),
                n_vt: spec_div((Real { bits: ONE_BITS }), betas.0),
            },
        ),
        None => None,
    }
}

/// Seeds the exponential model by ordinary least squares of
/// `ln(max(i - offset, 1e-5))` against `[v, 1]`: the slope's reciprocal
/// becomes the thermal scale and the intercept's exponential the
/// saturation current. Signals no fit exactly when the regression does:
/// empty input, a non-finite operand, or a non-converging SVD.
pub fn log_linear_simplified_shockley(
    trace: &Vec<(Real, Real)>,
    current_offset: CurrentOffsetModel,
) -> (r: Option<LogLinearShockleyModel>)
    ensures
        r == spec_log_linear(trace@, current_offset),
{
    let clamp = Real::from_bits(LOG_CLAMP_BITS);
    let mut xs: Vec<Real> = Vec::new();
    let mut ys: Vec<Real> = Vec::new();
    let mut j: usize = 0;
    while j < trace.len()
        invariant
            j <= trace@.len(),
            clamp.bits == LOG_CLAMP_BITS,
            xs@.len() == j,
            ys@.len() == j,
            forall|k: int| 0 <= k < j ==> xs@[k] == (vs_of(trace@)[k]),
            forall|k: int|
                0 <= k < j ==> ys@[k] == (ln_ys_of(trace@, current_offset.current_offset)[k]),
        decreases trace@.len() - j,
    {
        let (v, i) = trace[j];
        xs.push(v);
        ys.push(i.sub(current_offset.current_offset).max(clamp).ln());
        j = j + 1;
    }
    proof {
        assert(xs@ =~= vs_of(trace@));
        assert(ys@ =~= ln_ys_of(trace@, current_offset.current_offset));
    }
    match linear_regression(&xs, &ys) {
        Some((b0, b1)) => Some(
            LogLinearShockleyModel {
                current_offset,
                is: b1.exp(),
                n_vt: Real::one().div(b0),
            },
        ),
        None => None,
    }
}

/// The three-parameter Shockley-style model:
/// `i(v) = offset + saturation * (exp(v / scale) - 1)`, with the
/// parameters held in the order (offset, saturation, scale).
#[derive(Clone, Copy, PartialEq, Eq, Structural, Debug)]
pub struct ShockleyModel {
    pub p0: Real,
    pub p1: Real,
    pub p2: Real,
}

impl ShockleyModel {
    /// Packs the three parameters.
    pub fn new(current_offset: Real, is: Real, n_vt: Real) -> (r: ShockleyModel)
        ensures
            r.p0 == current_offset,
            r.p1 == is,
            r.p2 == n_vt,
    {
        ShockleyModel { p0: current_offset, p1: is, p2: n_vt }
    }

    /// The fitted current offset.
    pub fn current_offset(&self) -> (r: Real)
        ensures
            r == self.p0,
    {
        self.p0
    }

    /// The fitted saturation current.
    pub fn is(&self) -> (r: Real)
        ensures
            r == self.p1,
    {
        self.p1
    }

    /// The fitted thermal-voltage scale.
    pub fn n_vt(&self) -> (r: Real)
        ensures
            r == self.p2,
    {
        self.p2
    }

    /// The derivative of the modeled current with respect to the voltage.
    pub fn deriv(&self, x: Real) -> (r: Real)
        ensures
            r == (spec_div(
                spec_mul(self.p1, spec_exp(spec_div(x, self.p2))),
                self.p2,
            )),
    {
        self.p1.mul(x.div(self.p2).exp()).div(self.p2)
    }
}

impl IVModel for ShockleyModel {
    open spec fn min_v_spec(&self) -> Real {
        Real { bits: ZERO_BITS }
    }

    open spec fn max_v_spec(&self) -> Real {
        spec_mul(
            self.p2,
            spec_ln(
                spec_div(
                    spec_sub(spec_add(self.p1, (Real { bits: ONE_BITS })), self.p0),
                    self.p1,
                ),
            ),
        )
    }

    open spec fn evaluate_spec(&self, v: Real) -> Real {
        Self::value_spec(self.params_spec(), v)
    }

    fn min_v(&self) -> (r: Real) {
        Real::zero()
    }

    fn max_v(&self) -> (r: Real) {
        self.p2.mul(self.p1.add(Real::one()).sub(self.p0).div(self.p1).ln())
    }

    fn evaluate(&self, v: Real) -> (r: Real) {
        self.value(v)
    }
}

impl DiffFn for ShockleyModel {
    open spec fn dim() -> nat {
        3
    }

    open spec fn params_spec(&self) -> Seq<Real> {
        seq![self.p0, self.p1, self.p2]
    }

    open spec fn value_spec(p: Seq<Real>, x: Real) -> Real {
        spec_add(
            p[0],
            spec_mul(p[1], spec_sub(spec_exp(spec_div(x, p[2])), (Real { bits: ONE_BITS }))),
        )
    }

    open spec fn grad_spec(p: Seq<Real>, x: Real) -> Seq<Real> {
        let e = spec_exp(spec_div(x, p[2]));
        seq![
            (Real { bits: ONE_BITS }),
            spec_sub(e, (Real { bits: ONE_BITS })),
            spec_div(
                spec_mul(spec_mul((Real { bits: p[1].bits ^ SIGN_MASK }), x), e),
                spec_mul(p[2], p[2]),
            ),
        ]
    }

    open spec fn sanitize_spec(p: Seq<Real>) -> Seq<Real> {
        Seq::new(
            p.len(),
            |i: int|
                if i == 1 {
                    (Real { bits: max_spec(p[1].bits, SATURATION_FLOOR_BITS) })
                } else if i == 2 {
                    (Real { bits: max_spec(p[2].bits, THERMAL_FLOOR_BITS) })
                } else {
                    p[i]
                },
        )
    }

    proof fn lemma_dims(&self, p: Seq<Real>, x: Real) {
    }

    fn params(&self) -> (r: Vec<Real>) {
        let mut out: Vec<Real> = Vec::new();
        out.push(self.p0);
        out.push(self.p1);
        out.push(self.p2);
        proof {
            assert(out@ =~= self.params_spec());
        }
        out
    }

    fn set_params(&mut self, p: Vec<Real>) {
        self.p0 = p[0];
        self.p1 = p[1];
        self.p2 = p[2];
        proof {
            assert(self.params_spec() =~= p@);
        }
    }

    fn sanitize_params(&mut self) {
        self.p1 = self.p1.max(Real::from_bits(SATURATION_FLOOR_BITS));
        self.p2 = self.p2.max(Real::from_bits(THERMAL_FLOOR_BITS));
        proof {
            assert(self.params_spec() =~= Self::sanitize_spec(old(self).params_spec()));
        }
    }

    fn value(&self, x: Real) -> (r: Real) {
        self.p0.add(self.p1.mul(x.div(self.p2).exp().sub(Real::one())))
    }

    fn grad(&self, x: Real) -> (r: Vec<Real>) {
        let e = x.div(self.p2).exp();
        let g2 = self.p1.neg().mul(x).mul(e).div(self.p2.mul(self.p2));
        let mut out: Vec<Real> = Vec::new();
        out.push(Real::one());
        out.push(e.sub(Real::one()));
        out.push(g2);
        proof {
            assert(out@ =~= Self::grad_spec(self.params_spec(), x));
        }
        out
    }
}

/// Refines the seed by damped Gauss-Newton against the resampled trace,
/// returning the refined model together with the ghost trace of the run.
/// The refinement has no failure mode: the model always comes back in the
/// latest accepted state.
pub fn shockley(trace: &Vec<(Real, Real)>, simplified_shockley: LogLinearShockleyModel) -> (r: (
    ShockleyModel,
    Ghost<GnTrace>,
))
    ensures
        (crate::curvefit::gn_run_ok::<ShockleyModel>(
            r.1@,
            seed_params(simplified_shockley),
            vs_of(trace@),
            currents_of(trace@),
            r.0.params_spec(),
        )),
        trace@.len() > 0 ==> (crate::curvefit::gn_post::<ShockleyModel>(
            seed_params(simplified_shockley),
            vs_of(trace@),
            currents_of(trace@),
            (crate::curvefit::spec_default_params()),
            r.0.params_spec(),
            r.1@,
        )),
        trace@.len() == 0 ==> r.0.params_spec() == seed_params(simplified_shockley) && r.1@
            == (crate::curvefit::gn_init(seed_params(simplified_shockley)).trace),
        trace@.len() > 0 && r.1@.errors.len() == 0 ==> (crate::curvefit::gn_stalled::<
            ShockleyModel,
        >(seed_params(simplified_shockley), vs_of(trace@), currents_of(trace@))),
{
    let mut xs: Vec<Real> = Vec::new();
    let mut ys: Vec<Real> = Vec::new();
    let mut j: usize = 0;
    while j < trace.len()
        invariant
            j <= trace@.len(),
            xs@.len() == j,
            ys@.len() == j,
            forall|k: int| 0 <= k < j ==> xs@[k] == (vs_of(trace@)[k]),
            forall|k: int| 0 <= k < j ==> ys@[k] == (currents_of(trace@)[k]),
        decreases trace@.len() - j,
    {
        let (v, i) = trace[j];
        xs.push(v);
        ys.push(i);
        j = j + 1;
    }
    proof {
        assert(xs@ =~= vs_of(trace@));
        assert(ys@ =~= currents_of(trace@));
    }
    let mut model = ShockleyModel::new(
        simplified_shockley.current_offset.current_offset,
        simplified_shockley.is,
        simplified_shockley.n_vt,
    );
    let trace_g = gauss_newton(&xs, &ys, &mut model, GaussNewtonParams::default());
    (model, trace_g)
}

/// The parameter vector a seed hands to the refiner, in the model
/// family's order: offset, saturation current, thermal scale.
pub open spec fn seed_params(seed: LogLinearShockleyModel) -> Seq<Real> {
    seq![seed.current_offset.current_offset, seed.is, seed.n_vt]
}

/// The currents of a sample sequence, in order.
pub open spec fn currents_of(trace: Seq<(Real, Real)>) -> Seq<Real> {
    Seq::new(trace.len(), |i: int| trace[i].1)
}

/// The resampled trace the diode pipeline fits against: 5000 buckets over
/// [0 V, 5 V) with a population floor of one.
pub open spec fn spec_diode_resample(trace: Seq<(Real, Real)>) -> Seq<(Real, Real)> {
    spec_output(trace, (Real { bits: ZERO_BITS }), (Real { bits: DOMAIN_MAX_BITS }), 5000, 1)
}

/// The seed the diode pipeline computes from a raw trace, or nothing when
/// the seed stage signals no fit.
pub open spec fn spec_diode_seed(trace: Seq<(Real, Real)>) -> Option<LogLinearShockleyModel> {
    let pts = spec_diode_resample(trace);
    spec_log_linear(pts, (CurrentOffsetModel { current_offset: spec_current_offset(pts) }))
}

/// True when `m` is exactly what the damped Gauss-Newton refiner leaves
/// behind after running under the default bundle from the seed the
/// pipeline computes for the trace, measured against the resampled
/// points — one determined model per trace.
pub open spec fn spec_refined_from_seed(trace: Seq<(Real, Real)>, m: ShockleyModel) -> bool {
    match spec_diode_seed(trace) {
        Some(seed) => m.params_spec() == (crate::curvefit::gn_run::<ShockleyModel>(
            seed_params(seed),
            vs_of(spec_diode_resample(trace)),
            currents_of(spec_diode_resample(trace)),
            (crate::curvefit::spec_default_params()),
            (crate::curvefit::spec_default_params()).max_iterations as nat,
        )).params,
        None => false,
    }
}

/// Fits the three-parameter diode model to a raw trace: resample over
/// [0 V, 5 V) into 5000 buckets, estimate the current offset, seed by the
/// log-linear regression, refine by damped Gauss-Newton under the default
/// bundle. Returns the model, or nothing exactly when the seed stage
/// signals no fit — in particular on an empty trace and on a trace whose
/// samples all fall outside the domain, which leave every bucket empty.
pub fn diode_model(trace: &RawTrace) -> (r: Option<ShockleyModel>)
    requires
        trace.current@.len() == trace.voltage@.len(),
    ensures
        r is None <==> spec_diode_seed(crate::backend::raw_pairs(trace.voltage@, trace.current@))
            is None,
        r matches Some(m) ==> (spec_refined_from_seed(
            crate::backend::raw_pairs(trace.voltage@, trace.current@),
            m,
        )),
{
    let pairs = trace.iter();
    let resampled = PieceWiseConstantFunction::from_points(
        Real::zero(),
        Real::from_bits(DOMAIN_MAX_BITS),
        5000,
        1,
        &pairs,
    );
    let pts = resampled.iter();
    let co = current_offset(&pts);
    match log_linear_simplified_shockley(&pts, co) {
        Some(seed) => {
            let (model, trace_g) = shockley(&pts, seed);
            proof {
                let praw = crate::backend::raw_pairs(trace.voltage@, trace.current@);
                let ghost_pts = spec_diode_resample(praw);
                assert(pts@ == ghost_pts);
                assert(co == (CurrentOffsetModel {
                    current_offset: spec_current_offset(ghost_pts),
                }));
                assert(spec_diode_seed(praw) == Some(seed));
                // A seed exists only for a non-empty resampled trace:
                // the regression rejects an empty design.
                assert(ghost_pts.len() > 0);
                assert(spec_refined_from_seed(praw, model));
            }
            Some(model)
        },
        None => None,
    }
}

/// The one-line report of a current offset: its name, its magnitude in
/// engineering notation and its unit.
pub open spec fn spec_offset_report(m: CurrentOffsetModel) -> Seq<char> {
    "I<sub>OS</sub>\t"@ + crate::util::spec_engineering(m.current_offset) + "A"@
}

impl CurrentOffsetModel {
    /// Renders the offset as its report line.
    pub fn report(&self) -> (r: String)
        ensures
            r@ == spec_offset_report(*self),
    {
        let mut out = String::new();
        out.append("I<sub>OS</sub>\t");
        let e = crate::util::Engineering(self.current_offset).format();
        out.append(e.as_str());
        out.append("A");
        out
    }
}

/// The three-line report of a seed model: the offset's line, then the
/// scale parameters with their units.
pub open spec fn spec_seed_report(m: LogLinearShockleyModel) -> Seq<char> {
    spec_offset_report(m.current_offset) + "\n"@ + "I<sub>S</sub>\t"@
        + crate::util::spec_engineering(m.is) + "A\n"@ + "n\u{22c5}V<sub>T</sub>\t"@
        + crate::util::spec_engineering(m.n_vt) + "V\n"@
}

impl LogLinearShockleyModel {
    /// Renders the seed parameters as a multi-line report.
    pub fn report(&self) -> (r: String)
        ensures
            r@ == spec_seed_report(*self),
    {
        let mut out = self.current_offset.report();
        out.append("\n");
        out.append("I<sub>S</sub>\t");
        let e1 = crate::util::Engineering(self.is).format();
        out.append(e1.as_str());
        out.append("A\n");
        out.append("n\u{22c5}V<sub>T</sub>\t");
        let e2 = crate::util::Engineering(self.n_vt).format();
        out.append(e2.as_str());
        out.append("V\n");
        out
    }
}

/// The three-line report of a fitted model: each parameter's name, its
/// magnitude in engineering notation and its unit.
pub open spec fn spec_model_report(m: ShockleyModel) -> Seq<char> {
    "I<sub>OS</sub>\t"@ + crate::util::spec_engineering(m.p0) + "A\n"@ + "I<sub>S</sub>\t"@
        + crate::util::spec_engineering(m.p1) + "A\n"@ + "n\u{22c5}V<sub>T</sub>\t"@
        + crate::util::spec_engineering(m.p2) + "V\n"@
}

impl ShockleyModel {
    /// Renders the fitted parameters as a multi-line report: one line per
    /// parameter with its name, engineering-notation magnitude and unit.
    pub fn report(&self) -> (r: String)
        ensures
            r@ == spec_model_report(*self),
    {
        let mut out = String::new();
        out.append("I<sub>OS</sub>\t");
        let e0 = crate::util::Engineering(self.p0).format();
        out.append(e0.as_str());
        out.append("A\n");
        out.append("I<sub>S</sub>\t");
        let e1 = crate::util::Engineering(self.p1).format();
        out.append(e1.as_str());
        out.append("A\n");
        out.append("n\u{22c5}V<sub>T</sub>\t");
        let e2 = crate::util::Engineering(self.p2).format();
        out.append(e2.as_str());
        out.append("V\n");
        out
    }
}

/// Law: sanitizing the diode model's parameters leaves a strictly
/// positive saturation current and thermal scale, whatever the correction
/// step produced — the floors themselves are positive, and clamping never
/// goes below them.
pub proof fn lemma_sanitize_positive(p: Seq<Real>)
    requires
        p.len() == 3,
    ensures
        is_pos_b(ShockleyModel::sanitize_spec(p)[1].bits),
        is_pos_b(ShockleyModel::sanitize_spec(p)[2].bits),
{
    let s1 = ShockleyModel::sanitize_spec(p)[1].bits;
    let s2 = ShockleyModel::sanitize_spec(p)[2].bits;
    assert(SATURATION_FLOOR_BITS & 0x8000_0000_0000_0000u64 != 0x8000_0000_0000_0000u64
        && 0x3C9C_D2B2_97D8_89BCu64 & 0x7FFF_FFFF_FFFF_FFFFu64 == 0x3C9C_D2B2_97D8_89BCu64)
        by (bit_vector);
    assert(THERMAL_FLOOR_BITS & 0x8000_0000_0000_0000u64 != 0x8000_0000_0000_0000u64
        && 0x3E7A_D7F2_9ABC_AF48u64 & 0x7FFF_FFFF_FFFF_FFFFu64 == 0x3E7A_D7F2_9ABC_AF48u64)
        by (bit_vector);
    lemma_clamp_positive(p[1].bits, SATURATION_FLOOR_BITS);
    lemma_clamp_positive(p[2].bits, THERMAL_FLOOR_BITS);
}

/// Law: across the accepted steps of a diode refinement, the saturation
/// current and the thermal scale are strictly positive — every accepted
/// step ends in the sanitize clamp, whose floors are positive.
pub proof fn lemma_accepted_steps_positive(t: GnTrace)
    requires
        t.corrected.len() == t.stepped.len(),
        forall|i: int|
            0 <= i < t.stepped.len() ==> t.stepped[i] == (ShockleyModel::sanitize_spec(
                #[trigger] t.corrected[i],
            )),
        forall|i: int| 0 <= i < t.corrected.len() ==> (#[trigger] t.corrected[i]).len() == 3,
    ensures
        forall|i: int|
            0 <= i < t.stepped.len() ==> is_pos_b((#[trigger] t.stepped[i])[1].bits) && is_pos_b(
                t.stepped[i][2].bits,
            ),
{
    assert forall|i: int|
        0 <= i < t.stepped.len() implies is_pos_b((#[trigger] t.stepped[i])[1].bits) && is_pos_b(
        t.stepped[i][2].bits,
    ) by {
        lemma_sanitize_positive(t.corrected[i]);
    }
}

/// No sample in a range leaves no y-value in it.
proof fn lemma_ys_in_empty(points: Seq<(Real, Real)>, lo: Real, hi: Real)
    requires
        forall|i: int|
            0 <= i < points.len() ==> !crate::pwc::in_bucket((#[trigger] points[i]).0, lo, hi),
    ensures
        ys_in(points, lo, hi).len() == 0,
    decreases points.len(),
{
    if points.len() > 0 {
        lemma_ys_in_empty(points.drop_last(), lo, hi);
    }
}

/// All-NaN bucket slots read back as an empty output.
proof fn lemma_out_upto_all_nan(min: Real, max: Real, stored: Seq<Real>, k: int)
    requires
        forall|i: int| 0 <= i < stored.len() ==> is_nan_b((#[trigger] stored[i]).bits),
        k <= stored.len(),
    ensures
        crate::pwc::out_upto(min, max, stored, k).len() == 0,
    decreases k,
{
    if k > 0 {
        lemma_out_upto_all_nan(min, max, stored, k - 1);
    }
}

/// Law: a sample set that reaches no bucket of the diode's domain — in
/// particular an empty one — yields the explicit no-fit signal from the
/// seed stage: every bucket stays under the population floor, so the
/// resampled trace is empty and the regression has nothing to fit.
pub proof fn lemma_no_fit_outside_domain(trace: Seq<(Real, Real)>)
    requires
        forall|i: int, b: nat|
            #![trigger trace[i], spec_edge((Real { bits: ZERO_BITS }), (Real { bits: DOMAIN_MAX_BITS }), 5000, b)]
            0 <= i < trace.len() && b < 5000 ==> !crate::pwc::in_bucket(
                trace[i].0,
                spec_edge((Real { bits: ZERO_BITS }), (Real { bits: DOMAIN_MAX_BITS }), 5000, b),
                spec_edge(
                    (Real { bits: ZERO_BITS }),
                    (Real { bits: DOMAIN_MAX_BITS }),
                    5000,
                    (b + 1) as nat,
                ),
            ),
    ensures
        spec_diode_seed(trace) is None,
{
    let min = Real { bits: ZERO_BITS };
    let max = Real { bits: DOMAIN_MAX_BITS };
    let stored = crate::pwc::spec_buckets(trace, min, max, 5000, 1);
    assert forall|b: int| 0 <= b < 5000 implies is_nan_b((#[trigger] stored[b]).bits) by {
        let lo = spec_edge(min, max, 5000, b as nat);
        let hi = spec_edge(min, max, 5000, (b + 1) as nat);
        assert forall|i: int| 0 <= i < trace.len() implies !crate::pwc::in_bucket(
            (#[trigger] trace[i]).0,
            lo,
            hi,
        ) by {}
        lemma_ys_in_empty(trace, lo, hi);
        assert(stored[b].bits == crate::scalar::NAN_BITS);
        assert(is_nan_b(crate::scalar::NAN_BITS)) by {
            assert(0x7FF8_0000_0000_0000u64 & 0x7FFF_FFFF_FFFF_FFFFu64
                > 0x7FF0_0000_0000_0000u64) by (bit_vector);
        }
    }
    lemma_out_upto_all_nan(min, max, stored, 5000);
    assert(spec_diode_resample(trace).len() == 0);
    assert(vs_of(spec_diode_resample(trace)).len() == 0);
}

/// Law: an empty sample set yields the explicit no-fit signal from the
/// seed stage, never a NaN-filled model.
pub proof fn lemma_no_fit_on_empty(trace: Seq<(Real, Real)>)
    requires
        trace.len() == 0,
    ensures
        spec_diode_seed(trace) is None,
{
    lemma_no_fit_outside_domain(trace);
}

/// Clamping to a positive finite floor yields a positive value.
proof fn lemma_clamp_positive(x: u64, floor: u64)
    requires
        is_pos_b(floor),
        !is_nan_b(floor),
    ensures
        is_pos_b(max_spec(x, floor)),
{
    if is_nan_b(x) {
    } else {
        if key_b(x) < key_b(floor) {
        } else {
            assert(key_b(floor) > 0);
            assert(!sign_b(x)) by {
                if sign_b(x) {
                    assert(key_b(x) == -(mag_b(x) as int));
                    assert(key_b(x) <= 0);
                }
            }
            assert(mag_b(x) as int == key_b(x));
            assert(mag_b(x) > 0);
            assert(mag_b(x) <= crate::scalar::INF_MAG);
        }
    }
}

} // verus!

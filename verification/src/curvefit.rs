//! Generic damped Gauss-Newton refinement of a differentiable model, and
//! the SVD-backed linear least squares solve used by the seed estimator.
//!
//! The refiner's loop — residuals, total error, rollback on regression,
//! step damping, sanitizing and the stopping rules — is verified; only the
//! SVD pseudo-inverse solves cross into trusted wrappers over nalgebra.
//! The refiner returns a ghost trace of its accepted iterations, through
//! which the laws about acceptance and sanitizing are stated and proved.

use vstd::prelude::*;

// The double-precision type, under a plain name for the trusted wrapper
// bodies alone: verified code sees only the 64-bit encodings.
use std::primitive::f64 as F64;

use crate::scalar::{
    f_le, f_lt, is_finite_b, mag_b, min_spec, spec_add, spec_div, spec_mul, spec_sub, Real,
    MAX_BITS, ONE_BITS, ZERO_BITS,
};

verus! {

/// The encodings of a sequence of scalars.
pub open spec fn bits_of(s: Seq<Real>) -> Seq<u64> {
    s.map_values(|v: Real| v.bits)
}

/// The encodings of a sequence of rows of scalars.
pub open spec fn bits_of_rows(s: Seq<Seq<Real>>) -> Seq<Seq<u64>> {
    s.map_values(|row: Seq<Real>| bits_of(row))
}

/// True when every scalar of the sequence is finite.
pub open spec fn all_finite(s: Seq<Real>) -> bool {
    forall|i: int| 0 <= i < s.len() ==> is_finite_b(#[trigger] s[i].bits)
}

/// The configuration bundle of the Gauss-Newton refiner. Whether the
/// absolute-change and error-improvement stopping thresholds are scaled
/// by the current damping factor is itself configurable — both readings
/// of these thresholds are in circulation, and the choice measurably
/// changes convergence near the damping floor; the default scales them.
pub struct GaussNewtonParams {
    pub min_iterations: usize,
    pub max_iterations: usize,
    pub max_absolute_change: Real,
    pub max_total_error: Real,
    pub max_error_improvement: Real,
    pub min_shift_cut: Real,
    pub shift_cut_refining_step: Real,
    pub shift_cut_speed_up: Real,
    pub damping_scaled_stopping: bool,
}

/// The default bundle, as a value contracts can name.
pub open spec fn spec_default_params() -> GaussNewtonParams {
    GaussNewtonParams {
        min_iterations: 5,
        max_iterations: 500,
        max_absolute_change: (Real { bits: 0x3C9C_D2B2_97D8_89BC }),
        max_total_error: (Real { bits: 0x3D3C_25C2_6849_7682 }),
        max_error_improvement: (Real { bits: 0x3EB0_C6F7_A0B5_ED8D }),
        min_shift_cut: (Real { bits: 0x3D71_9799_812D_EA11 }),
        shift_cut_refining_step: (Real { bits: 0x3FC9_9999_9999_999A }),
        shift_cut_speed_up: (Real { bits: 0x4000_0000_0000_0000 }),
        damping_scaled_stopping: true,
    }
}

impl Default for GaussNewtonParams {
    /// The default bundle: at least 5 and at most 500 iterations, an
    /// absolute-change floor of 1e-16, a total-error floor of 1e-13, an
    /// error-improvement floor of 1e-6, a damping floor of 1e-12, damping
    /// refined by 0.2 on rollback and regrown by 2, capped at one, with
    /// the stopping thresholds scaled by the damping factor.
    fn default() -> (r: Self)
        ensures
            r.min_iterations == 5,
            r.max_iterations == 500,
            r.max_absolute_change.bits == 0x3C9C_D2B2_97D8_89BC,
            r.max_total_error.bits == 0x3D3C_25C2_6849_7682,
            r.max_error_improvement.bits == 0x3EB0_C6F7_A0B5_ED8D,
            r.min_shift_cut.bits == 0x3D71_9799_812D_EA11,
            r.shift_cut_refining_step.bits == 0x3FC9_9999_9999_999A,
            r.shift_cut_speed_up.bits == 0x4000_0000_0000_0000,
            r.damping_scaled_stopping,
            r == spec_default_params(),
    {
        GaussNewtonParams {
            min_iterations: 5,
            max_iterations: 500,
            // 1e-16
            max_absolute_change: Real::from_bits(0x3C9C_D2B2_97D8_89BC),
            // 1e-13
            max_total_error: Real::from_bits(0x3D3C_25C2_6849_7682),
            // 1e-6
            max_error_improvement: Real::from_bits(0x3EB0_C6F7_A0B5_ED8D),
            // 1e-12
            min_shift_cut: Real::from_bits(0x3D71_9799_812D_EA11),
            // 0.2
            shift_cut_refining_step: Real::from_bits(0x3FC9_9999_9999_999A),
            // 2.0
            shift_cut_speed_up: Real::from_bits(0x4000_0000_0000_0000),
            damping_scaled_stopping: true,
        }
    }
}

/// A differentiable parametric model: it carries a fixed-dimension
/// parameter vector, evaluates itself and its gradient at a point, and
/// knows how to clamp its parameters back into the valid region.
pub trait DiffFn: Sized {
    /// The fixed parameter dimension of this model family.
    spec fn dim() -> nat;

    /// The current parameter vector.
    spec fn params_spec(&self) -> Seq<Real>;

    /// The model value at `x` as a function of a parameter vector.
    spec fn value_spec(p: Seq<Real>, x: Real) -> Real;

    /// The gradient of the value with respect to the parameters at `x`.
    spec fn grad_spec(p: Seq<Real>, x: Real) -> Seq<Real>;

    /// What sanitizing does to a parameter vector.
    spec fn sanitize_spec(p: Seq<Real>) -> Seq<Real>;

    /// The dimensions all agree: the family has at least one parameter,
    /// the stored vector, every gradient and every sanitized vector have
    /// the family's dimension.
    proof fn lemma_dims(&self, p: Seq<Real>, x: Real)
        ensures
            Self::dim() > 0,
            self.params_spec().len() == Self::dim(),
            Self::grad_spec(p, x).len() == Self::dim(),
            Self::sanitize_spec(p).len() == p.len(),
    ;

    /// A copy of the current parameter vector.
    fn params(&self) -> (r: Vec<Real>)
        ensures
            r@ == self.params_spec(),
    ;

    /// Replaces the parameter vector.
    fn set_params(&mut self, p: Vec<Real>)
        requires
            p@.len() == Self::dim(),
        ensures
            final(self).params_spec() == p@,
    ;

    /// Clamps the parameters into the family's valid region.
    fn sanitize_params(&mut self)
        ensures
            final(self).params_spec() == Self::sanitize_spec(old(self).params_spec()),
    ;

    /// The model value at `x` under the current parameters.
    fn value(&self, x: Real) -> (r: Real)
        ensures
            r == Self::value_spec(self.params_spec(), x),
    ;

    /// The gradient at `x` under the current parameters.
    fn grad(&self, x: Real) -> (r: Vec<Real>)
        ensures
            r@ == Self::grad_spec(self.params_spec(), x),
    ;
}

/// The residuals `ys - model(xs)` under parameter vector `p`.
pub open spec fn residuals_spec<F: DiffFn>(p: Seq<Real>, xs: Seq<Real>, ys: Seq<Real>) -> Seq<
    Real,
> {
    Seq::new(xs.len(), |i: int| spec_sub(ys[i], F::value_spec(p, xs[i])))
}

/// Left-to-right sum of squares of a sequence, starting from zero.
pub open spec fn sumsq(s: Seq<Real>) -> Real
    decreases s.len(),
{
    if s.len() == 0 {
        (Real { bits: crate::scalar::ZERO_BITS })
    } else {
        spec_add(sumsq(s.drop_last()), spec_mul(s.last(), s.last()))
    }
}

/// The total error under `p`: the Euclidean norm of the residuals.
pub open spec fn err_spec<F: DiffFn>(p: Seq<Real>, xs: Seq<Real>, ys: Seq<Real>) -> Real {
    crate::scalar::spec_sqrt(sumsq(residuals_spec::<F>(p, xs, ys)))
}

/// What the trusted SVD pseudo-inverse correction returns: the right
/// singular vectors times the reciprocal singular values times the
/// projected residuals, as one function of the encodings.
pub uninterp spec fn gn_step_bits(jac: Seq<Seq<u64>>, res: Seq<u64>) -> Seq<u64>;

/// The jacobian of the model under `p` across `xs`, as encodings.
pub open spec fn jac_bits_spec<F: DiffFn>(p: Seq<Real>, xs: Seq<Real>) -> Seq<Seq<u64>> {
    Seq::new(xs.len(), |i: int| bits_of(F::grad_spec(p, xs[i])))
}

/// The undamped correction the refiner applies under `p`: the SVD
/// pseudo-inverse of the jacobian applied to the residuals.
pub open spec fn correction_spec<F: DiffFn>(p: Seq<Real>, xs: Seq<Real>, ys: Seq<Real>) -> Seq<
    u64,
> {
    gn_step_bits(jac_bits_spec::<F>(p, xs), bits_of(residuals_spec::<F>(p, xs, ys)))
}

/// Left-to-right sum of absolute values of a sequence, starting from
/// zero, exactly as the refiner measures a correction's total change.
pub open spec fn sum_abs(s: Seq<Real>) -> Real
    decreases s.len(),
{
    if s.len() == 0 {
        (Real { bits: ZERO_BITS })
    } else {
        spec_add(sum_abs(s.drop_last()), (Real { bits: mag_b(s.last().bits) }))
    }
}

/// True when every gradient of the model under `p` across `xs` is finite.
pub open spec fn jac_all_finite<F: DiffFn>(p: Seq<Real>, xs: Seq<Real>) -> bool {
    forall|i: int| 0 <= i < xs.len() ==> all_finite(#[trigger] F::grad_spec(p, xs[i]))
}

/// A full state of the refiner between iterations: the model's
/// parameters, the last accepted evaluation and its error, the damping
/// factor, whether a stopping rule has fired, and the accepted-step
/// trace so far.
pub ghost struct GnState {
    pub params: Seq<Real>,
    pub old_params: Seq<Real>,
    pub old_te: Real,
    pub shift_cut: Real,
    pub done: bool,
    pub trace: GnTrace,
}

/// The refiner's state before the first iteration: undamped, with the
/// largest finite double as the error baseline.
pub open spec fn gn_init(initial: Seq<Real>) -> GnState {
    GnState {
        params: initial,
        old_params: initial,
        old_te: (Real { bits: MAX_BITS }),
        shift_cut: (Real { bits: ONE_BITS }),
        done: false,
        trace: GnTrace {
            kept: Seq::empty(),
            errors: Seq::empty(),
            cuts: Seq::empty(),
            corrected: Seq::empty(),
            stepped: Seq::empty(),
        },
    }
}

/// One iteration of the refiner, iteration number `it`, on a state that
/// has not stopped. If the total error grew past the baseline, the
/// parameters roll back to the last accepted evaluation, the damping
/// factor shrinks by the refining step, and nothing is recorded. If a
/// residual or jacobian entry is not finite, the run stops where it
/// stands. Otherwise the evaluation is accepted: the damped SVD
/// correction is applied and sanitized, the damping factor regrows
/// capped at one, and past the iteration floor the four stopping rules
/// are tested (the change and improvement thresholds scaled by the
/// damping factor when so configured).
pub open spec fn gn_step<F: DiffFn>(
    s: GnState,
    xs: Seq<Real>,
    ys: Seq<Real>,
    params: GaussNewtonParams,
    it: nat,
) -> GnState {
    let te = err_spec::<F>(s.params, xs, ys);
    if f_lt(s.old_te.bits, te.bits) {
        GnState {
            params: s.old_params,
            old_params: s.old_params,
            old_te: (Real { bits: MAX_BITS }),
            shift_cut: spec_mul(s.shift_cut, params.shift_cut_refining_step),
            done: s.done,
            trace: s.trace,
        }
    } else if !(all_finite(residuals_spec::<F>(s.params, xs, ys)) && jac_all_finite::<F>(
        s.params,
        xs,
    )) {
        GnState {
            params: s.params,
            old_params: s.old_params,
            old_te: s.old_te,
            shift_cut: s.shift_cut,
            done: true,
            trace: s.trace,
        }
    } else {
        let corr = correction_spec::<F>(s.params, xs, ys);
        let scaled = Seq::new(F::dim(), |j: int| spec_mul((Real { bits: corr[j] }), s.shift_cut));
        let newp = Seq::new(F::dim(), |j: int| spec_add(s.params[j], scaled[j]));
        let improvement = (Real { bits: mag_b(spec_div(spec_sub(te, s.old_te), s.old_te).bits) });
        let new_cut = (Real {
            bits: min_spec(spec_mul(s.shift_cut, params.shift_cut_speed_up).bits, ONE_BITS),
        });
        let change_limit = if params.damping_scaled_stopping {
            spec_mul(params.max_absolute_change, new_cut)
        } else {
            params.max_absolute_change
        };
        let improvement_limit = if params.damping_scaled_stopping {
            spec_mul(params.max_error_improvement, new_cut)
        } else {
            params.max_error_improvement
        };
        let stop = it >= params.min_iterations && (f_lt(te.bits, params.max_total_error.bits)
            || f_le(sum_abs(scaled).bits, change_limit.bits) || f_lt(
            new_cut.bits,
            params.min_shift_cut.bits,
        ) || f_le(improvement.bits, improvement_limit.bits));
        GnState {
            params: F::sanitize_spec(newp),
            old_params: s.params,
            old_te: te,
            shift_cut: new_cut,
            done: stop,
            trace: GnTrace {
                kept: s.trace.kept.push(s.params),
                errors: s.trace.errors.push(te),
                cuts: s.trace.cuts.push(s.shift_cut),
                corrected: s.trace.corrected.push(newp),
                stepped: s.trace.stepped.push(F::sanitize_spec(newp)),
            },
        }
    }
}

/// The refiner's state after up to `n` iterations from the initial
/// parameters: iteration stops at the first state whose stopping flag is
/// set and stays there.
pub open spec fn gn_run<F: DiffFn>(
    initial: Seq<Real>,
    xs: Seq<Real>,
    ys: Seq<Real>,
    params: GaussNewtonParams,
    n: nat,
) -> GnState
    decreases n,
{
    if n == 0 {
        gn_init(initial)
    } else {
        let prev = gn_run::<F>(initial, xs, ys, params, (n - 1) as nat);
        if prev.done {
            prev
        } else {
            gn_step::<F>(prev, xs, ys, params, (n - 1) as nat)
        }
    }
}

/// The refiner's full functional contract: the final parameters and the
/// ghost trace are exactly those of running the step function from the
/// initial state for the configured iteration budget — so the whole run,
/// rollbacks, damping schedule and stopping included, is a function of
/// the data, the initial parameters and the bundle.
pub open spec fn gn_post<F: DiffFn>(
    initial: Seq<Real>,
    xs: Seq<Real>,
    ys: Seq<Real>,
    params: GaussNewtonParams,
    final_params: Seq<Real>,
    t: GnTrace,
) -> bool {
    let end = gn_run::<F>(initial, xs, ys, params, params.max_iterations as nat);
    final_params == end.params && t == end.trace
}

/// The two conditions under which the refiner can accept nothing: the
/// initial parameters' total error exceeds every finite baseline, or
/// their residuals or jacobian hold a non-finite entry.
pub open spec fn gn_stalled<F: DiffFn>(initial: Seq<Real>, xs: Seq<Real>, ys: Seq<Real>) -> bool {
    ||| f_lt(MAX_BITS, (err_spec::<F>(initial, xs, ys)).bits)
    ||| !(all_finite(residuals_spec::<F>(initial, xs, ys)) && jac_all_finite::<F>(initial, xs))
}

/// A stopped run stays stopped: iterating further changes nothing.
proof fn lemma_gn_run_frozen<F: DiffFn>(
    initial: Seq<Real>,
    xs: Seq<Real>,
    ys: Seq<Real>,
    params: GaussNewtonParams,
    n1: nat,
    n2: nat,
)
    requires
        n1 <= n2,
        gn_run::<F>(initial, xs, ys, params, n1).done,
    ensures
        gn_run::<F>(initial, xs, ys, params, n2) == gn_run::<F>(initial, xs, ys, params, n1),
    decreases n2 - n1,
{
    if n2 > n1 {
        lemma_gn_run_frozen::<F>(initial, xs, ys, params, n1, (n2 - 1) as nat);
    }
}

/// While nothing has been accepted, the run still sits at the initial
/// parameters with the infinite baseline, and can only have stopped by
/// stalling on non-finite data.
proof fn lemma_gn_run_stuck_state<F: DiffFn>(
    initial: Seq<Real>,
    xs: Seq<Real>,
    ys: Seq<Real>,
    params: GaussNewtonParams,
    n: nat,
)
    ensures
        gn_run::<F>(initial, xs, ys, params, n).trace.errors.len() == 0 ==> gn_run::<F>(
            initial,
            xs,
            ys,
            params,
            n,
        ).params == initial && gn_run::<F>(initial, xs, ys, params, n).old_params == initial
            && gn_run::<F>(initial, xs, ys, params, n).old_te.bits == MAX_BITS && (gn_run::<F>(
            initial,
            xs,
            ys,
            params,
            n,
        ).done ==> (gn_stalled::<F>(initial, xs, ys))),
    decreases n,
{
    if n > 0 {
        lemma_gn_run_stuck_state::<F>(initial, xs, ys, params, (n - 1) as nat);
    }
}

/// Law: the refiner makes progress. A run that accepted no evaluation
/// either had no iterations to spend, or was stalled by its own data:
/// the first evaluation is accepted whenever the budget and data allow.
pub proof fn lemma_gn_run_progress<F: DiffFn>(
    initial: Seq<Real>,
    xs: Seq<Real>,
    ys: Seq<Real>,
    params: GaussNewtonParams,
    n: nat,
)
    ensures
        gn_run::<F>(initial, xs, ys, params, n).trace.errors.len() == 0 ==> n == 0 || (
        gn_stalled::<F>(initial, xs, ys)),
    decreases n,
{
    if n > 0 {
        lemma_gn_run_progress::<F>(initial, xs, ys, params, (n - 1) as nat);
        lemma_gn_run_stuck_state::<F>(initial, xs, ys, params, (n - 1) as nat);
    }
}

/// What the trusted two-regressor least-squares solve returns for a
/// design of `[x, 1]` rows against `ys`, or nothing when the SVD fails
/// to converge within its iteration budget.
pub uninterp spec fn lstsq2_bits(xs: Seq<u64>, ys: Seq<u64>) -> Option<(u64, u64)>;

/// Relies on nalgebra's `SVD::new` over the jacobian: the correction is
/// `V * diag(1/sigma) * (U^T * residuals)`, a fixed function of the
/// operands' encodings on this platform. Finite entries keep nalgebra's
/// singular-value sort from meeting a NaN, on which it would panic.
#[verifier::external_body]
fn gn_correction_f(jac: &Vec<Vec<Real>>, res: &Vec<Real>, cols: usize) -> (r: Vec<Real>)
    requires
        jac@.len() == res@.len(),
        jac@.len() > 0,
        cols > 0,
        forall|i: int| 0 <= i < jac@.len() ==> (#[trigger] jac@[i])@.len() == cols,
        forall|i: int| 0 <= i < jac@.len() ==> all_finite(#[trigger] jac@[i]@),
        all_finite(res@),
    ensures
        r@.len() == cols,
        bits_of(r@) == gn_step_bits(
            bits_of_rows(jac@.map_values(|row: Vec<Real>| row@)),
            bits_of(res@),
        ),
{
    let a = nalgebra::DMatrix::from_fn(jac.len(), cols, |i, j| F64::from_bits(jac[i][j].bits));
    let b = nalgebra::DVector::from_fn(res.len(), |i, _| F64::from_bits(res[i].bits));
    let svd = nalgebra::linalg::SVD::new(a, true, true);
    let v = svd.v_t.unwrap().transpose();
    let sigma = nalgebra::DMatrix::from_diagonal(&svd.singular_values.map(|x| x.recip()));
    let u_t = svd.u.unwrap().transpose();
    let c = v * sigma * (u_t * b);
    let mut out = Vec::new();
    for j in 0..cols {
        out.push(Real { bits: c[j].to_bits() });
    }
    out
}

/// Relies on nalgebra's `SVD::try_new` over the transposed `[x; 1]`
/// design with machine epsilon and a budget of 1000 iterations: the
/// coefficients are `(V^T' * (U' * ys ./ sigma))'`, a fixed function of
/// the operands' encodings on this platform; `None` reports that the SVD
/// did not converge. Finite entries keep the singular-value sort from
/// meeting a NaN, on which it would panic.
#[verifier::external_body]
fn linear_regression_f(xs: &Vec<Real>, ys: &Vec<Real>) -> (r: Option<(Real, Real)>)
    requires
        xs@.len() == ys@.len(),
        xs@.len() > 0,
        all_finite(xs@),
        all_finite(ys@),
    ensures
        (match lstsq2_bits(bits_of(xs@), bits_of(ys@)) {
            Some(bb) => r == Some((Real { bits: bb.0 }, Real { bits: bb.1 })),
            None => r == None::<(Real, Real)>,
        }),
{
    let x_t = nalgebra::DMatrix::from_fn(
        xs.len(),
        2,
        |i, j| if j == 0 { F64::from_bits(xs[i].bits) } else { 1 as F64 },
    );
    let y = nalgebra::DVector::from_fn(ys.len(), |i, _| F64::from_bits(ys[i].bits));
    let svd = nalgebra::linalg::SVD::try_new(x_t, true, true, F64::EPSILON, 1000)?;
    let sinv = (svd.u.unwrap().transpose() * y).zip_map(&svd.singular_values, |a, si| a / si);
    let betas = (svd.v_t.unwrap().transpose() * sinv).transpose();
    Some((Real { bits: betas[0].to_bits() }, Real { bits: betas[1].to_bits() }))
}

/// The least-squares solve as a function of its inputs: nothing on an
/// empty design, on any non-finite operand (which the solver cannot
/// order), or when the SVD does not converge.
pub open spec fn spec_linear_regression(xs: Seq<Real>, ys: Seq<Real>) -> Option<(Real, Real)> {
    if xs.len() == 0 || !all_finite(xs) || !all_finite(ys) {
        None
    } else {
        match lstsq2_bits(bits_of(xs), bits_of(ys)) {
            Some(bb) => Some((Real { bits: bb.0 }, Real { bits: bb.1 })),
            None => None,
        }
    }
}

/// Ordinary least squares of `ys` against the regressors `[x, 1]`, solved
/// through an SVD pseudo-inverse. Returns the coefficient on x and the
/// intercept, or nothing exactly when the design is empty, an operand is
/// not finite, or the SVD fails to converge.
pub fn linear_regression(xs: &Vec<Real>, ys: &Vec<Real>) -> (r: Option<(Real, Real)>)
    requires
        xs@.len() == ys@.len(),
    ensures
        r == spec_linear_regression(xs@, ys@),
{
    if xs.len() == 0 {
        return None;
    }
    if !finite_vec(xs) || !finite_vec(ys) {
        return None;
    }
    linear_regression_f(xs, ys)
}

/// True when every element of the vector is finite.
fn finite_vec(v: &Vec<Real>) -> (r: bool)
    ensures
        r == all_finite(v@),
{
    let mut i: usize = 0;
    let mut ok = true;
    while i < v.len()
        invariant
            i <= v@.len(),
            ok == (forall|k: int| 0 <= k < i ==> is_finite_b(#[trigger] v@[k].bits)),
        decreases v@.len() - i,
    {
        ok = ok && v[i].is_finite();
        i = i + 1;
    }
    ok
}

/// A copy of a parameter vector.
fn copy_params(p: &Vec<Real>) -> (r: Vec<Real>)
    ensures
        r@ == p@,
{
    let mut out: Vec<Real> = Vec::new();
    let mut i: usize = 0;
    while i < p.len()
        invariant
            i <= p@.len(),
            out@ == p@.take(i as int),
        decreases p@.len() - i,
    {
        out.push(p[i]);
        proof {
            assert(p@.take(i + 1).drop_last() =~= p@.take(i as int));
            assert(p@.take(i + 1) =~= p@.take(i as int).push(p@[i as int]));
        }
        i = i + 1;
    }
    proof {
        assert(p@.take(p@.len() as int) =~= p@);
    }
    out
}

/// The ghost record of a refinement run: the parameter vectors whose
/// evaluations were accepted, the total errors they produced, the damping
/// factors applied, and each accepted step's parameters before and after
/// sanitizing.
pub ghost struct GnTrace {
    /// The parameter vector evaluated by each accepted iteration.
    pub kept: Seq<Seq<Real>>,
    /// The total error each accepted iteration measured.
    pub errors: Seq<Real>,
    /// The damping factor each accepted step scaled its correction by.
    pub cuts: Seq<Real>,
    /// The corrected parameters of each accepted step, before sanitizing.
    pub corrected: Seq<Seq<Real>>,
    /// The same parameters after sanitizing: the state the step left.
    pub stepped: Seq<Seq<Real>>,
}

/// Everything a finished refinement run guarantees, tying the ghost
/// trace to the initial parameters, the data and the final parameters:
/// the accepted errors are exactly the errors of the evaluated vectors
/// and never grow (NaN aside); the first accepted evaluation is the
/// initial vector; every accepted step moves by the damped SVD correction
/// and ends sanitized; and the final parameters are the last accepted
/// step's (or, after a final rollback, the last accepted evaluation's).
pub open spec fn gn_run_ok<F: DiffFn>(
    t: GnTrace,
    initial: Seq<Real>,
    xs: Seq<Real>,
    ys: Seq<Real>,
    final_params: Seq<Real>,
) -> bool {
    &&& t.errors.len() == t.kept.len()
    &&& t.errors.len() == t.corrected.len()
    &&& t.errors.len() == t.stepped.len()
    &&& t.errors.len() == t.cuts.len()
    &&& forall|i: int|
        0 <= i < t.errors.len() ==> t.errors[i] == (err_spec::<F>(#[trigger] t.kept[i], xs, ys))
    &&& forall|i: int| 0 <= i < t.corrected.len() ==> (#[trigger] t.corrected[i]).len() == F::dim()
    &&& forall|i: int|
        0 <= i < t.stepped.len() ==> t.stepped[i] == (F::sanitize_spec(#[trigger] t.corrected[i]))
    &&& forall|i: int, j: int|
        #![trigger t.corrected[i][j]]
        0 <= i < t.corrected.len() && 0 <= j < t.corrected[i].len() ==> t.corrected[i][j] == (
        spec_add(
            t.kept[i][j],
            spec_mul((Real { bits: correction_spec::<F>(t.kept[i], xs, ys)[j] }), t.cuts[i]),
        ))
    &&& forall|i: int|
        0 <= i < t.errors.len() - 1 && !crate::scalar::is_nan_b(t.errors[i].bits)
            && !crate::scalar::is_nan_b(t.errors[i + 1].bits) ==> f_le(
            #[trigger] t.errors[i + 1].bits,
            t.errors[i].bits,
        )
    &&& t.kept.len() > 0 ==> t.kept[0] == initial
    &&& t.errors.len() == 0 ==> final_params == initial
    &&& t.errors.len() > 0 ==> (final_params == t.stepped.last() || final_params == t.kept.last())
}

/// Damped Gauss-Newton refinement: repeatedly corrects the model's
/// parameters by an SVD pseudo-inverse step scaled by a damping factor,
/// rolling the parameters back and shrinking the factor whenever the total
/// error grew, sanitizing after every accepted step, and stopping once the
/// iteration floor is passed and any stopping rule fires, or the iteration
/// budget is spent, or a correction stops being finite. The model always
/// ends in a usable state: the latest accepted parameters (or, after a
/// final rollback, the parameters of the latest accepted evaluation).
/// The whole run is pinned: the final parameters and the ghost trace
/// equal `gn_run`'s value on the inputs, so repeated runs agree, and the
/// refiner accepts its first evaluation unless the data stall it.
pub fn gauss_newton<F: DiffFn>(
    xs: &Vec<Real>,
    ys: &Vec<Real>,
    model: &mut F,
    params: GaussNewtonParams,
) -> (trace: Ghost<GnTrace>)
    requires
        xs@.len() == ys@.len(),
    ensures
        (gn_run_ok::<F>(
            trace@,
            old(model).params_spec(),
            xs@,
            ys@,
            final(model).params_spec(),
        )),
        trace@.errors.len() <= params.max_iterations,
        xs@.len() > 0 ==> (gn_post::<F>(
            old(model).params_spec(),
            xs@,
            ys@,
            params,
            final(model).params_spec(),
            trace@,
        )),
        xs@.len() == 0 ==> final(model).params_spec() == old(model).params_spec() && trace@
            == gn_init(old(model).params_spec()).trace,
        xs@.len() > 0 && params.max_iterations > 0 && trace@.errors.len() == 0 ==> (gn_stalled::<
            F,
        >(old(model).params_spec(), xs@, ys@)),
{
    proof {
        model.lemma_dims(Seq::empty(), (Real { bits: 0 }));
    }
    let ghost initial = model.params_spec();
    let mut old_params = model.params();
    let mut shift_cut = Real::one();
    let mut old_te = Real::max_value();
    let mut it: usize = 0;
    let mut done = false;
    let ghost mut kept: Seq<Seq<Real>> = Seq::empty();
    let ghost mut errors_g: Seq<Real> = Seq::empty();
    let ghost mut cuts: Seq<Real> = Seq::empty();
    let ghost mut corrected: Seq<Seq<Real>> = Seq::empty();
    let ghost mut stepped: Seq<Seq<Real>> = Seq::empty();
    let ghost mut rolled = false;
    let ghost mut passes: nat = 0;
    if xs.len() == 0 {
        return Ghost(
            GnTrace {
                kept: kept,
                errors: errors_g,
                cuts: cuts,
                corrected: corrected,
                stepped: stepped,
            },
        );
    }
    while !done && it < params.max_iterations
        invariant
            xs@.len() == ys@.len(),
            xs@.len() > 0,
            it <= params.max_iterations,
            model.params_spec().len() == F::dim(),
            old_params@.len() == F::dim(),
            errors_g.len() == kept.len(),
            errors_g.len() == corrected.len(),
            errors_g.len() == stepped.len(),
            errors_g.len() == cuts.len(),
            errors_g.len() <= it,
            kept.len() > 0 ==> kept[0] == initial,
            forall|i: int|
                0 <= i < errors_g.len() ==> errors_g[i] == (err_spec::<F>(
                    #[trigger] kept[i],
                    xs@,
                    ys@,
                )),
            forall|i: int|
                0 <= i < corrected.len() ==> (#[trigger] corrected[i]).len() == F::dim(),
            forall|i: int|
                0 <= i < stepped.len() ==> stepped[i] == (F::sanitize_spec(
                    #[trigger] corrected[i],
                )),
            forall|i: int, j: int|
                #![trigger corrected[i][j]]
                0 <= i < corrected.len() && 0 <= j < corrected[i].len() ==> corrected[i][j] == (
                spec_add(
                    kept[i][j],
                    spec_mul(
                        (Real { bits: correction_spec::<F>(kept[i], xs@, ys@)[j] }),
                        cuts[i],
                    ),
                )),
            forall|i: int|
                0 <= i < errors_g.len() - 1 && !crate::scalar::is_nan_b(errors_g[i].bits)
                    && !crate::scalar::is_nan_b(errors_g[i + 1].bits) ==> f_le(
                    #[trigger] errors_g[i + 1].bits,
                    errors_g[i].bits,
                ),
            old_params@ == (if kept.len() > 0 {
                kept.last()
            } else {
                initial
            }),
            rolled ==> old_te.bits == crate::scalar::MAX_BITS,
            rolled && errors_g.len() > 0 ==> model.params_spec() == kept.last(),
            rolled && errors_g.len() == 0 ==> model.params_spec() == initial,
            !rolled && errors_g.len() > 0 ==> old_te == errors_g.last()
                && model.params_spec() == stepped.last(),
            !rolled && errors_g.len() == 0 ==> model.params_spec() == initial
                && old_te.bits == crate::scalar::MAX_BITS,
            passes <= params.max_iterations,
            !done ==> it == passes,
            (GnState {
                params: model.params_spec(),
                old_params: old_params@,
                old_te: old_te,
                shift_cut: shift_cut,
                done: done,
                trace: (GnTrace {
                    kept: kept,
                    errors: errors_g,
                    cuts: cuts,
                    corrected: corrected,
                    stepped: stepped,
                }),
            }) == gn_run::<F>(initial, xs@, ys@, params, passes),
        decreases params.max_iterations - it, (if done { 0int } else { 1int }),
    {
        proof {
            model.lemma_dims(Seq::empty(), (Real { bits: 0 }));
        }
        let p_now = model.params();
        // Residuals and total error of the current parameters.
        let mut res: Vec<Real> = Vec::new();
        let mut i: usize = 0;
        while i < xs.len()
            invariant
                i <= xs@.len(),
                xs@.len() == ys@.len(),
                p_now@ == model.params_spec(),
                res@.len() == i,
                forall|k: int|
                    0 <= k < i ==> res@[k] == (spec_sub(ys@[k], F::value_spec(p_now@, xs@[k]))),
            decreases xs@.len() - i,
        {
            res.push(ys[i].sub(model.value(xs[i])));
            i = i + 1;
        }
        proof {
            assert(res@ =~= (residuals_spec::<F>(p_now@, xs@, ys@)));
        }
        let mut acc = Real::zero();
        let mut i: usize = 0;
        while i < res.len()
            invariant
                i <= res@.len(),
                acc == sumsq(res@.take(i as int)),
            decreases res@.len() - i,
        {
            proof {
                assert(res@.take(i + 1).drop_last() =~= res@.take(i as int));
                assert(res@.take(i + 1).last() == res@[i as int]);
            }
            acc = acc.add(res[i].mul(res[i]));
            i = i + 1;
        }
        proof {
            assert(res@.take(res@.len() as int) =~= res@);
        }
        let te = acc.sqrt();
        assert(te == (err_spec::<F>(p_now@, xs@, ys@)));
        let ghost prev = gn_run::<F>(initial, xs@, ys@, params, passes);
        if te.gt(old_te) {
            // The error grew: roll back to the last accepted evaluation
            // and shrink the damping factor.
            let restored = copy_params(&old_params);
            model.set_params(restored);
            shift_cut = shift_cut.mul(params.shift_cut_refining_step);
            old_te = Real::max_value();
            proof {
                rolled = true;
                assert((GnState {
                    params: model.params_spec(),
                    old_params: old_params@,
                    old_te: old_te,
                    shift_cut: shift_cut,
                    done: done,
                    trace: (GnTrace {
                        kept: kept,
                        errors: errors_g,
                        cuts: cuts,
                        corrected: corrected,
                        stepped: stepped,
                    }),
                }) == (gn_step::<F>(prev, xs@, ys@, params, passes)));
                passes = passes + 1;
            }
            it = it + 1;
            continue;
        }
        // Accepted: compute the damped SVD correction.
        let mut jac: Vec<Vec<Real>> = Vec::new();
        let mut i: usize = 0;
        while i < xs.len()
            invariant
                i <= xs@.len(),
                p_now@ == model.params_spec(),
                model.params_spec().len() == F::dim(),
                jac@.len() == i,
                forall|k: int|
                    0 <= k < i ==> (#[trigger] jac@[k])@ == (F::grad_spec(p_now@, xs@[k])),
                forall|k: int| 0 <= k < i ==> (#[trigger] jac@[k])@.len() == p_now@.len(),
            decreases xs@.len() - i,
        {
            proof {
                model.lemma_dims(p_now@, xs@[i as int]);
            }
            jac.push(model.grad(xs[i]));
            i = i + 1;
        }
        let finite = finite_rows(&jac) && finite_vec(&res);
        proof {
            // The runtime scan of the jacobian rows decides exactly the
            // finiteness of the model's gradients.
            if forall|k: int| 0 <= k < jac@.len() ==> all_finite((#[trigger] jac@[k])@) {
                assert forall|w: int| 0 <= w < xs@.len() implies all_finite(
                    #[trigger] F::grad_spec(p_now@, xs@[w]),
                ) by {
                    assert(jac@[w]@ == F::grad_spec(p_now@, xs@[w]));
                    assert(all_finite(jac@[w]@));
                }
            }
            if jac_all_finite::<F>(p_now@, xs@) {
                assert forall|k: int| 0 <= k < jac@.len() implies all_finite(
                    (#[trigger] jac@[k])@,
                ) by {
                    assert(jac@[k]@ == F::grad_spec(p_now@, xs@[k]));
                }
            }
            assert(finite == (all_finite(residuals_spec::<F>(p_now@, xs@, ys@))
                && jac_all_finite::<F>(p_now@, xs@)));
        }
        if !finite {
            // A non-finite entry would poison the SVD; stop with the
            // model in its latest accepted state.
            done = true;
            proof {
                assert((GnState {
                    params: model.params_spec(),
                    old_params: old_params@,
                    old_te: old_te,
                    shift_cut: shift_cut,
                    done: done,
                    trace: (GnTrace {
                        kept: kept,
                        errors: errors_g,
                        cuts: cuts,
                        corrected: corrected,
                        stepped: stepped,
                    }),
                }) == (gn_step::<F>(prev, xs@, ys@, params, passes)));
                passes = passes + 1;
            }
        } else {
            let corr = gn_correction_f(&jac, &res, p_now.len());
            proof {
                if rolled && errors_g.len() > 0 {
                    assert(p_now@ == kept.last());
                    assert(te == errors_g.last());
                }
                assert(bits_of_rows(jac@.map_values(|row: Vec<Real>| row@)) =~= (jac_bits_spec::<
                    F,
                >(p_now@, xs@)));
                assert(bits_of(res@) == (bits_of(residuals_spec::<F>(p_now@, xs@, ys@))));
                kept = kept.push(p_now@);
                errors_g = errors_g.push(te);
                cuts = cuts.push(shift_cut);
            }
            let error_improvement = te.sub(old_te).div(old_te).abs();
            old_te = te;
            old_params = p_now;
            // Scale the correction by the damping factor, measure the
            // total absolute change, and step the parameters.
            let ghost scaled_g = Seq::new(
                corr@.len() as nat,
                |k: int| spec_mul(corr@[k], shift_cut),
            );
            let mut newp: Vec<Real> = Vec::new();
            let mut abs_change = Real::zero();
            let mut j: usize = 0;
            while j < corr.len()
                invariant
                    j <= corr@.len(),
                    corr@.len() == old_params@.len(),
                    scaled_g == Seq::new(corr@.len() as nat, |k: int| spec_mul(corr@[k], shift_cut)),
                    newp@.len() == j,
                    forall|k: int|
                        0 <= k < j ==> newp@[k] == (spec_add(
                            old_params@[k],
                            spec_mul(corr@[k], shift_cut),
                        )),
                    abs_change == sum_abs(scaled_g.take(j as int)),
                decreases corr@.len() - j,
            {
                proof {
                    assert(scaled_g.take(j + 1).drop_last() =~= scaled_g.take(j as int));
                    assert(scaled_g.take(j + 1).last() == scaled_g[j as int]);
                }
                let scaled = corr[j].mul(shift_cut);
                abs_change = abs_change.add(scaled.abs());
                newp.push(old_params[j].add(scaled));
                j = j + 1;
            }
            proof {
                assert(scaled_g.take(corr@.len() as int) =~= scaled_g);
            }
            let ghost newp_g = newp@;
            proof {
                assert forall|j: int| 0 <= j < newp_g.len() implies newp_g[j] == (spec_add(
                    kept.last()[j],
                    spec_mul(
                        (Real { bits: correction_spec::<F>(kept.last(), xs@, ys@)[j] }),
                        cuts.last(),
                    ),
                )) by {
                    assert(corr@[j].bits == bits_of(corr@)[j]);
                }
            }
            model.set_params(newp);
            model.sanitize_params();
            proof {
                corrected = corrected.push(newp_g);
                stepped = stepped.push((F::sanitize_spec(newp_g)));
                rolled = false;
                model.lemma_dims(Seq::empty(), (Real { bits: 0 }));
            }
            shift_cut = shift_cut.mul(params.shift_cut_speed_up).min(Real::one());
            if it >= params.min_iterations {
                let change_limit = if params.damping_scaled_stopping {
                    params.max_absolute_change.mul(shift_cut)
                } else {
                    params.max_absolute_change
                };
                let improvement_limit = if params.damping_scaled_stopping {
                    params.max_error_improvement.mul(shift_cut)
                } else {
                    params.max_error_improvement
                };
                if te.lt(params.max_total_error) || abs_change.le(change_limit) || shift_cut.lt(
                    params.min_shift_cut,
                ) || error_improvement.le(improvement_limit) {
                    done = true;
                }
            }
            proof {
                let spec_scaled = Seq::new(
                    F::dim(),
                    |k: int| spec_mul(
                        (Real { bits: correction_spec::<F>(prev.params, xs@, ys@)[k] }),
                        prev.shift_cut,
                    ),
                );
                assert forall|k: int| 0 <= k < scaled_g.len() implies scaled_g[k]
                    == spec_scaled[k] by {
                    assert(corr@[k].bits == bits_of(corr@)[k]);
                }
                assert(scaled_g =~= spec_scaled);
                let spec_newp = Seq::new(F::dim(), |k: int| spec_add(prev.params[k], spec_scaled[k]));
                assert(newp_g =~= spec_newp);
                assert((GnState {
                    params: model.params_spec(),
                    old_params: old_params@,
                    old_te: old_te,
                    shift_cut: shift_cut,
                    done: done,
                    trace: (GnTrace {
                        kept: kept,
                        errors: errors_g,
                        cuts: cuts,
                        corrected: corrected,
                        stepped: stepped,
                    }),
                }) == (gn_step::<F>(prev, xs@, ys@, params, passes)));
                passes = passes + 1;
            }
            it = it + 1;
        }
    }
    proof {
        if passes < params.max_iterations {
            lemma_gn_run_frozen::<F>(
                initial,
                xs@,
                ys@,
                params,
                passes,
                params.max_iterations as nat,
            );
        }
        lemma_gn_run_progress::<F>(initial, xs@, ys@, params, params.max_iterations as nat);
    }
    Ghost(
        GnTrace { kept: kept, errors: errors_g, cuts: cuts, corrected: corrected, stepped: stepped },
    )
}

/// True when every entry of every row is finite.
fn finite_rows(v: &Vec<Vec<Real>>) -> (r: bool)
    ensures
        r == (forall|i: int| 0 <= i < v@.len() ==> all_finite(#[trigger] v@[i]@)),
{
    let mut i: usize = 0;
    let mut ok = true;
    while i < v.len()
        invariant
            i <= v@.len(),
            ok == (forall|k: int| 0 <= k < i ==> all_finite(#[trigger] v@[k]@)),
        decreases v@.len() - i,
    {
        ok = ok && finite_vec(&v[i]);
        i = i + 1;
    }
    ok
}


} // verus!

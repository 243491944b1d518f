//! Bucketed resampling of a raw sample cloud into a piecewise-constant
//! function: the half-open domain [min, max) is split into equal-width
//! half-open buckets, each bucket averages the y-values of the samples whose
//! x falls inside it, and a bucket whose population stays under the floor is
//! omitted from the output (its slot stores a NaN marker, never handed out).

use vstd::prelude::*;

use crate::scalar::{
    f_le, f_lt, is_nan_b, of_u64_bits, spec_add, spec_div, spec_mul, spec_sub, Real, NAN_BITS,
};

verus! {

/// The left edge of bucket `b` of `n` over [min, max): exactly
/// `min + (max - min) * (b / n)` in double precision.
pub open spec fn spec_edge(min: Real, max: Real, n: nat, b: nat) -> Real {
    spec_add(
        min,
        spec_mul(
            spec_sub(max, min),
            spec_div((Real { bits: of_u64_bits(b as u64) }), (Real { bits: of_u64_bits(n as u64) })),
        ),
    )
}

/// The midpoint reported for bucket `b` of `n` over [min, max): exactly
/// `min + (max - min) * ((b + 0.5) / n)` in double precision.
pub open spec fn spec_mid(min: Real, max: Real, n: nat, b: nat) -> Real {
    spec_add(
        min,
        spec_mul(
            spec_sub(max, min),
            spec_div(
                spec_add((Real { bits: of_u64_bits(b as u64) }), (Real { bits: crate::scalar::HALF_BITS })),
                (Real { bits: of_u64_bits(n as u64) }),
            ),
        ),
    )
}

/// True when a sample at `x` belongs to the half-open bucket [lo, hi):
/// the left edge is included, the right edge is not.
pub open spec fn in_bucket(x: Real, lo: Real, hi: Real) -> bool {
    f_le(lo.bits, x.bits) && f_lt(x.bits, hi.bits)
}

/// The y-values of the samples falling in [lo, hi), in input order.
pub open spec fn ys_in(points: Seq<(Real, Real)>, lo: Real, hi: Real) -> Seq<Real>
    decreases points.len(),
{
    if points.len() == 0 {
        Seq::empty()
    } else {
        let rest = ys_in(points.drop_last(), lo, hi);
        if in_bucket(points.last().0, lo, hi) {
            rest.push(points.last().1)
        } else {
            rest
        }
    }
}

/// Left-to-right double-precision sum of a sequence, starting from zero,
/// exactly as summing an iterator of doubles does.
pub open spec fn sum_seq(ys: Seq<Real>) -> Real
    decreases ys.len(),
{
    if ys.len() == 0 {
        (Real { bits: crate::scalar::ZERO_BITS })
    } else {
        spec_add(sum_seq(ys.drop_last()), ys.last())
    }
}

/// What bucket `b` stores: the mean of its samples' y-values when the
/// population reaches the floor, the NaN marker otherwise.
pub open spec fn stored_bucket(
    points: Seq<(Real, Real)>,
    min: Real,
    max: Real,
    n: nat,
    minpop: nat,
    b: nat,
) -> Real {
    let ys = ys_in(points, spec_edge(min, max, n, b), spec_edge(min, max, n, (b + 1) as nat));
    if ys.len() >= minpop {
        spec_div(sum_seq(ys), (Real { bits: of_u64_bits(ys.len() as u64) }))
    } else {
        (Real { bits: NAN_BITS })
    }
}

/// The output read back from the first `k` stored buckets, in ascending
/// bucket order, skipping every NaN-marked slot.
pub open spec fn out_upto(min: Real, max: Real, stored: Seq<Real>, k: int) -> Seq<(Real, Real)>
    decreases k,
{
    if k <= 0 {
        Seq::empty()
    } else {
        let head = out_upto(min, max, stored, k - 1);
        if is_nan_b(stored[k - 1].bits) {
            head
        } else {
            head.push((spec_mid(min, max, stored.len(), (k - 1) as nat), stored[k - 1]))
        }
    }
}

/// The stored buckets of a resampling, one slot per bucket.
pub open spec fn spec_buckets(
    points: Seq<(Real, Real)>,
    min: Real,
    max: Real,
    n: nat,
    minpop: nat,
) -> Seq<Real> {
    Seq::new(n, |b: int| stored_bucket(points, min, max, n, minpop, b as nat))
}

/// The full output of a resampling as a function of its inputs alone.
pub open spec fn spec_output(
    points: Seq<(Real, Real)>,
    min: Real,
    max: Real,
    n: nat,
    minpop: nat,
) -> Seq<(Real, Real)> {
    out_upto(min, max, spec_buckets(points, min, max, n, minpop), n as int)
}

/// A fixed-size, ordered set of representative points over [min, max):
/// one slot per bucket, under-populated buckets marked with NaN.
pub struct PieceWiseConstantFunction {
    pub min: Real,
    pub max: Real,
    pub buckets: Vec<Real>,
}

impl PieceWiseConstantFunction {
    /// Resamples `points` over the half-open domain [min, max) into
    /// `buckets` equal-width buckets: each bucket keeps the double-precision
    /// mean of the y-values of the samples it receives, and a bucket with
    /// fewer than `min_bucket_population` samples is marked empty. Samples
    /// outside the domain fall in no bucket and are silently dropped.
    pub fn from_points(
        min: Real,
        max: Real,
        buckets: usize,
        min_bucket_population: usize,
        points: &Vec<(Real, Real)>,
    ) -> (r: PieceWiseConstantFunction)
        ensures
            r.min == min,
            r.max == max,
            r.buckets@ =~= spec_buckets(
                points@,
                min,
                max,
                buckets as nat,
                min_bucket_population as nat,
            ),
    {
        let mut pwc: Vec<Real> = Vec::new();
        let span = max.sub(min);
        let mut b: usize = 0;
        while b < buckets
            invariant
                b <= buckets,
                span == spec_sub(max, min),
                pwc@.len() == b,
                forall|i: int|
                    0 <= i < b ==> pwc@[i] == stored_bucket(
                        points@,
                        min,
                        max,
                        buckets as nat,
                        min_bucket_population as nat,
                        i as nat,
                    ),
            decreases buckets - b,
        {
            let lo = min.add(span.mul(Real::of_u64(b as u64).div(Real::of_u64(buckets as u64))));
            let hi = min.add(
                span.mul(Real::of_u64((b + 1) as u64).div(Real::of_u64(buckets as u64))),
            );
            assert(lo == spec_edge(min, max, buckets as nat, b as nat));
            assert(hi == spec_edge(min, max, buckets as nat, (b + 1) as nat));
            let mut sum = Real::zero();
            let mut count: usize = 0;
            let mut j: usize = 0;
            while j < points.len()
                invariant
                    j <= points@.len(),
                    count == ys_in(points@.take(j as int), lo, hi).len(),
                    count <= j,
                    sum == sum_seq(ys_in(points@.take(j as int), lo, hi)),
                decreases points@.len() - j,
            {
                let (x, y) = points[j];
                proof {
                    assert(points@.take(j + 1).drop_last() =~= points@.take(j as int));
                    assert(points@.take(j + 1).last() == points@[j as int]);
                }
                if lo.le(x) && x.lt(hi) {
                    proof {
                        let prev = ys_in(points@.take(j as int), lo, hi);
                        assert(ys_in(points@.take(j + 1), lo, hi) == prev.push(y));
                        assert(prev.push(y).drop_last() =~= prev);
                        assert(prev.push(y).last() == y);
                    }
                    sum = sum.add(y);
                    count = count + 1;
                }
                j = j + 1;
            }
            proof {
                assert(points@.take(points@.len() as int) =~= points@);
            }
            let stored = if count >= min_bucket_population {
                sum.div(Real::of_u64(count as u64))
            } else {
                Real::nan()
            };
            pwc.push(stored);
            b = b + 1;
        }
        PieceWiseConstantFunction { min, max, buckets: pwc }
    }

    /// The number of bucket slots, populated or not.
    pub fn bucket_count(&self) -> (r: usize)
        ensures
            r == self.buckets@.len(),
    {
        self.buckets.len()
    }

    /// The populated representative points, in ascending bucket order:
    /// one (bucket midpoint, mean) pair per bucket that holds a value.
    pub fn iter(&self) -> (r: Vec<(Real, Real)>)
        ensures
            r@ == out_upto(self.min, self.max, self.buckets@, self.buckets@.len() as int),
    {
        let span = self.max.sub(self.min);
        let mut out: Vec<(Real, Real)> = Vec::new();
        let n = self.buckets.len();
        let mut b: usize = 0;
        while b < n
            invariant
                b <= n,
                n == self.buckets@.len(),
                span == spec_sub(self.max, self.min),
                out@ == out_upto(self.min, self.max, self.buckets@, b as int),
            decreases n - b,
        {
            let v = self.buckets[b];
            if !v.is_nan() {
                let x = self.min.add(
                    span.mul(
                        Real::of_u64(b as u64).add(Real::from_bits(crate::scalar::HALF_BITS)).div(
                            Real::of_u64(n as u64),
                        ),
                    ),
                );
                assert(x == spec_mid(self.min, self.max, self.buckets@.len(), b as nat));
                out.push((x, v));
            }
            b = b + 1;
        }
        out
    }
}

/// Law: resampling is deterministic. The output is a function of the
/// domain, the bucket count, the population floor and the samples alone,
/// so resampling the same sample set twice yields identical outputs.
pub proof fn lemma_resample_deterministic(
    points1: Seq<(Real, Real)>,
    points2: Seq<(Real, Real)>,
    min: Real,
    max: Real,
    n: nat,
    minpop: nat,
)
    requires
        points1 == points2,
    ensures
        spec_output(points1, min, max, n, minpop) == spec_output(points2, min, max, n, minpop),
{
}

/// Law: bucket membership is half-open. A sample exactly at a bucket's
/// right edge is never in the bucket — so one at the domain maximum,
/// which every right edge at most reaches, joins no bucket whose right
/// edge it equals — while one exactly at a bucket's left edge passes that
/// edge's test and joins the bucket whenever it stays under the right
/// edge, as a sample at the domain minimum does for the first bucket.
pub proof fn lemma_edges_half_open(x: Real, lo: Real, hi: Real)
    ensures
        crate::scalar::f_eq(x.bits, hi.bits) ==> !in_bucket(x, lo, hi),
        crate::scalar::f_eq(x.bits, lo.bits) && f_lt(x.bits, hi.bits) ==> in_bucket(x, lo, hi),
{
}

/// Law: every point of the output is the arithmetic mean of the samples of
/// some bucket whose population reaches the floor, placed at that bucket's
/// midpoint; in particular a bucket with fewer samples than the floor
/// contributes nothing, rather than a zero.
pub proof fn lemma_population_floor(
    points: Seq<(Real, Real)>,
    min: Real,
    max: Real,
    n: nat,
    minpop: nat,
    k: int,
)
    requires
        0 <= k < spec_output(points, min, max, n, minpop).len(),
    ensures
        exists|b: nat|
            #![auto]
            b < n && ys_in(
                points,
                spec_edge(min, max, n, b),
                spec_edge(min, max, n, (b + 1) as nat),
            ).len() >= minpop && spec_output(points, min, max, n, minpop)[k] == (
                spec_mid(min, max, n, b),
                spec_div(
                    sum_seq(
                        ys_in(
                            points,
                            spec_edge(min, max, n, b),
                            spec_edge(min, max, n, (b + 1) as nat),
                        ),
                    ),
                    (Real {
                        bits: of_u64_bits(
                            ys_in(
                                points,
                                spec_edge(min, max, n, b),
                                spec_edge(min, max, n, (b + 1) as nat),
                            ).len() as u64,
                        ),
                    }),
                ),
            ),
{
    lemma_out_upto_from_buckets(points, min, max, n, minpop, n as int, k);
}

/// Every entry of `out_upto` up to `k` buckets comes from a populated
/// bucket and carries that bucket's midpoint and stored mean.
proof fn lemma_out_upto_from_buckets(
    points: Seq<(Real, Real)>,
    min: Real,
    max: Real,
    n: nat,
    minpop: nat,
    upto: int,
    k: int,
)
    requires
        upto <= n,
        0 <= k < out_upto(min, max, spec_buckets(points, min, max, n, minpop), upto).len(),
    ensures
        exists|b: nat|
            #![auto]
            b < n && ys_in(
                points,
                spec_edge(min, max, n, b),
                spec_edge(min, max, n, (b + 1) as nat),
            ).len() >= minpop && out_upto(
                min,
                max,
                spec_buckets(points, min, max, n, minpop),
                upto,
            )[k] == (
                spec_mid(min, max, n, b),
                spec_div(
                    sum_seq(
                        ys_in(
                            points,
                            spec_edge(min, max, n, b),
                            spec_edge(min, max, n, (b + 1) as nat),
                        ),
                    ),
                    (Real {
                        bits: of_u64_bits(
                            ys_in(
                                points,
                                spec_edge(min, max, n, b),
                                spec_edge(min, max, n, (b + 1) as nat),
                            ).len() as u64,
                        ),
                    }),
                ),
            ),
    decreases upto,
{
    let stored = spec_buckets(points, min, max, n, minpop);
    let whole = out_upto(min, max, stored, upto);
    let head = out_upto(min, max, stored, upto - 1);
    if k < head.len() {
        lemma_out_upto_from_buckets(points, min, max, n, minpop, upto - 1, k);
    } else {
        assert(!is_nan_b(stored[upto - 1].bits));
        let b = (upto - 1) as nat;
        let ys = ys_in(points, spec_edge(min, max, n, b), spec_edge(min, max, n, (b + 1) as nat));
        if ys.len() < minpop {
            assert(stored[upto - 1].bits == NAN_BITS);
            assert(0x7FF8_0000_0000_0000u64 & 0x7FFF_FFFF_FFFF_FFFFu64 > 0x7FF0_0000_0000_0000u64)
                by (bit_vector);
            assert(false);
        }
        assert(whole[k] == (spec_mid(min, max, n, b), stored[upto - 1]));
    }
}

} // verus!

//! Trace containers: a plain two-terminal trace, a two-terminal trace
//! carrying its fitted model, a bias-partitioned three-terminal trace kept
//! sorted by bias level, and the empty trace.

use vstd::prelude::*;

use crate::aoi::AreaOfInterest;
use crate::backend::RawTrace;
use crate::diode::{diode_model, spec_model_report, ShockleyModel};
use crate::scalar::{fmt_bits, is_nan_b, key_b, Real};

verus! {

/// Anything that frames a measured region and can render itself as
/// tab-separated records for export.
pub trait Trace {
    /// The area the trace covers.
    spec fn aoi_spec(&self) -> AreaOfInterest;

    /// The area the trace covers.
    fn area_of_interest(&self) -> (r: AreaOfInterest)
        ensures
            r == self.aoi_spec(),
    ;

    /// The rows of the trace's tabular form, header first.
    spec fn csv_records_spec(&self) -> Seq<Seq<Seq<char>>>;

    /// The rows of the trace's tabular form, header first.
    fn csv_records(&self) -> (r: Vec<Vec<String>>)
        ensures
            rows_view(r@) == self.csv_records_spec(),
    ;
}

/// The characters of a table of rendered rows.
pub open spec fn rows_view(r: Seq<Vec<String>>) -> Seq<Seq<Seq<char>>> {
    r.map_values(|row: Vec<String>| row@.map_values(|s: String| s@))
}

/// One rendered (voltage, current) row per paired sample.
pub open spec fn two_rows(vs: Seq<Real>, cs: Seq<Real>) -> Seq<Seq<Seq<char>>> {
    Seq::new(
        if vs.len() <= cs.len() {
            vs.len()
        } else {
            cs.len()
        },
        |i: int| seq![fmt_bits(vs[i].bits), fmt_bits(cs[i].bits)],
    )
}

/// One rendered (voltage, current, bias) row per paired sample of one
/// bias level.
pub open spec fn level_rows(bias: Real, vs: Seq<Real>, cs: Seq<Real>) -> Seq<Seq<Seq<char>>> {
    Seq::new(
        if vs.len() <= cs.len() {
            vs.len()
        } else {
            cs.len()
        },
        |i: int| seq![fmt_bits(vs[i].bits), fmt_bits(cs[i].bits), fmt_bits(bias.bits)],
    )
}

/// The rendered rows of a bias partition: the levels in order, each
/// level's samples in order.
pub open spec fn three_rows(s: Seq<(Real, TwoTerminalTrace)>) -> Seq<Seq<Seq<char>>>
    decreases s.len(),
{
    if s.len() == 0 {
        Seq::empty()
    } else {
        three_rows(s.drop_last()) + level_rows(
            s.last().0,
            s.last().1.trace.voltage@,
            s.last().1.trace.current@,
        )
    }
}

/// The default area, as a value.
pub open spec fn spec_default_aoi() -> AreaOfInterest {
    AreaOfInterest {
        min_v: (Real { bits: crate::scalar::ZERO_BITS }),
        max_v: (Real { bits: crate::aoi::DEFAULT_MAX_V_BITS }),
        min_i: (Real { bits: crate::scalar::ZERO_BITS }),
        max_i: (Real { bits: crate::aoi::DEFAULT_MAX_I_BITS }),
    }
}

/// Anything that can lazily fit and report a model of itself.
pub trait TraceWithModel {
    /// True once the model has been fitted (or found unfittable).
    spec fn is_filled(&self) -> bool;

    /// What one filling step does: how the filled state relates to the
    /// state it was reached from.
    spec fn filled_from(&self, prev: &Self) -> bool;

    /// The characters of the model report.
    spec fn report_spec(&self) -> Seq<char>;

    /// Fits the model once; later calls change nothing.
    fn fill_model(&mut self)
        ensures
            final(self).is_filled(),
            final(self).filled_from(old(self)),
    ;

    /// The model report, empty when nothing was fitted.
    fn model_report(&self) -> (r: String)
        ensures
            r@ == self.report_spec(),
    ;
}

/// A two-terminal sweep with the area it was taken over.
#[derive(Clone)]
pub struct TwoTerminalTrace {
    pub trace: RawTrace,
    pub aoi: AreaOfInterest,
}

impl TwoTerminalTrace {
    /// Wraps a raw trace with its area.
    pub fn from_raw_trace(trace: RawTrace, aoi: AreaOfInterest) -> (r: TwoTerminalTrace)
        ensures
            r.trace == trace,
            r.aoi == aoi,
    {
        TwoTerminalTrace { trace, aoi }
    }
}

impl Trace for TwoTerminalTrace {
    open spec fn aoi_spec(&self) -> AreaOfInterest {
        self.aoi
    }

    fn area_of_interest(&self) -> (r: AreaOfInterest) {
        self.aoi
    }

    open spec fn csv_records_spec(&self) -> Seq<Seq<Seq<char>>> {
        seq![seq!["v"@, "i"@]] + two_rows(self.trace.voltage@, self.trace.current@)
    }

    /// A header of the two column names, then one (voltage, current) row
    /// per sample, each value in its plain decimal rendering.
    fn csv_records(&self) -> (r: Vec<Vec<String>>) {
        let mut out: Vec<Vec<String>> = Vec::new();
        let mut header: Vec<String> = Vec::new();
        header.push("v".to_owned());
        header.push("i".to_owned());
        out.push(header);
        proof {
            assert(rows_view(out@) =~~= seq![seq!["v"@, "i"@]]);
        }
        push_rows(&mut out, &self.trace.voltage, &self.trace.current, None);
        proof {
            assert(rows_view(out@) =~~= self.csv_records_spec());
        }
        out
    }
}

/// Renders one row per paired sample onto the table: voltage and current,
/// and the bias level when one is given.
fn push_rows(out: &mut Vec<Vec<String>>, vs: &Vec<Real>, cs: &Vec<Real>, bias: Option<Real>)
    ensures
        rows_view(final(out)@) == rows_view(old(out)@) + (match bias {
            Some(b) => level_rows(b, vs@, cs@),
            None => two_rows(vs@, cs@),
        }),
{
    let ghost target = match bias {
        Some(b) => level_rows(b, vs@, cs@),
        None => two_rows(vs@, cs@),
    };
    let n = if vs.len() < cs.len() {
        vs.len()
    } else {
        cs.len()
    };
    let mut i: usize = 0;
    while i < n
        invariant
            i <= n,
            n == (if vs@.len() <= cs@.len() {
                vs@.len()
            } else {
                cs@.len()
            }),
            target == (match bias {
                Some(b) => level_rows(b, vs@, cs@),
                None => two_rows(vs@, cs@),
            }),
            rows_view(out@) =~~= rows_view(old(out)@) + target.take(i as int),
        decreases n - i,
    {
        let mut row: Vec<String> = Vec::new();
        row.push(vs[i].format());
        row.push(cs[i].format());
        match bias {
            Some(b) => {
                row.push(b.format());
            },
            None => {},
        }
        let ghost pre = out@;
        out.push(row);
        proof {
            let rhs = rows_view(old(out)@) + target.take(i + 1);
            assert forall|k: int| 0 <= k < out@.len() implies rows_view(out@)[k] == rhs[k] by {
                if k < pre.len() {
                    assert(out@[k] == pre[k]);
                    assert(rows_view(pre)[k] == (rows_view(old(out)@) + target.take(i as int))[k]);
                } else {
                    assert(rows_view(out@)[k] =~= target[i as int]);
                }
            }
            assert(rows_view(out@) =~= rhs);
        }
        i = i + 1;
    }
    proof {
        assert(target.take(n as int) =~= target);
        assert(rows_view(out@) =~~= rows_view(old(out)@) + target);
    }
}

/// A two-terminal trace together with its lazily fitted diode model.
#[derive(Clone)]
pub struct TwoTerminalGuiTrace {
    pub trace: TwoTerminalTrace,
    pub model: Option<ShockleyModel>,
    pub filled: bool,
}

impl TwoTerminalGuiTrace {
    /// Wraps a trace with no model fitted yet.
    pub fn new(trace: TwoTerminalTrace) -> (r: TwoTerminalGuiTrace)
        ensures
            r.trace == trace,
            r.model is None,
            !r.filled,
    {
        TwoTerminalGuiTrace { trace, model: None, filled: false }
    }

    /// Gives up the wrapped trace.
    pub fn into_two_terminal_trace(self) -> (r: TwoTerminalTrace)
        ensures
            r == self.trace,
    {
        self.trace
    }
}

impl TraceWithModel for TwoTerminalGuiTrace {
    open spec fn is_filled(&self) -> bool {
        self.filled
    }

    /// Filling keeps the samples; an already filled trace is untouched,
    /// and a fresh one either holds a model the verified pipeline refined
    /// from its own seed, or no model exactly when the seed stage signals
    /// no fit (a trace with mismatched columns also stays modelless).
    open spec fn filled_from(&self, prev: &Self) -> bool {
        if prev.filled {
            *self == *prev
        } else {
            &&& self.trace == prev.trace
            &&& self.filled
            &&& if prev.trace.trace.current@.len() == prev.trace.trace.voltage@.len() {
                match self.model {
                    Some(m) => crate::diode::spec_refined_from_seed(
                        crate::backend::raw_pairs(
                            prev.trace.trace.voltage@,
                            prev.trace.trace.current@,
                        ),
                        m,
                    ),
                    None => crate::diode::spec_diode_seed(
                        crate::backend::raw_pairs(
                            prev.trace.trace.voltage@,
                            prev.trace.trace.current@,
                        ),
                    ) is None,
                }
            } else {
                self.model == prev.model
            }
        }
    }

    open spec fn report_spec(&self) -> Seq<char> {
        match self.model {
            Some(m) => spec_model_report(m),
            None => Seq::empty(),
        }
    }

    /// Fits the diode model on first call; the fit's absence (on a trace
    /// the seed stage rejects) is kept as an absent model.
    fn fill_model(&mut self)
        ensures
            final(self).is_filled(),
            final(self).filled_from(old(self)),
    {
        if !self.filled {
            if self.trace.trace.current.len() == self.trace.trace.voltage.len() {
                self.model = diode_model(&self.trace.trace);
            }
            self.filled = true;
        }
    }

    fn model_report(&self) -> (r: String) {
        match &self.model {
            Some(m) => m.report(),
            None => String::new(),
        }
    }
}

impl Trace for TwoTerminalGuiTrace {
    open spec fn aoi_spec(&self) -> AreaOfInterest {
        self.trace.aoi
    }

    fn area_of_interest(&self) -> (r: AreaOfInterest) {
        self.trace.aoi
    }

    open spec fn csv_records_spec(&self) -> Seq<Seq<Seq<char>>> {
        self.trace.csv_records_spec()
    }

    fn csv_records(&self) -> (r: Vec<Vec<String>>) {
        self.trace.csv_records()
    }
}

/// The empty trace: nothing measured, nothing to fit.
#[derive(Clone, Copy, Debug)]
pub struct NullTrace {}

impl Trace for NullTrace {
    open spec fn aoi_spec(&self) -> AreaOfInterest {
        spec_default_aoi()
    }

    fn area_of_interest(&self) -> (r: AreaOfInterest) {
        Default::default()
    }

    open spec fn csv_records_spec(&self) -> Seq<Seq<Seq<char>>> {
        Seq::empty()
    }

    fn csv_records(&self) -> (r: Vec<Vec<String>>) {
        let out: Vec<Vec<String>> = Vec::new();
        proof {
            assert(rows_view(out@) =~~= Seq::<Seq<Seq<char>>>::empty());
        }
        out
    }
}

impl TraceWithModel for NullTrace {
    open spec fn is_filled(&self) -> bool {
        true
    }

    /// There is nothing to fit: filling changes nothing.
    open spec fn filled_from(&self, prev: &Self) -> bool {
        *self == *prev
    }

    open spec fn report_spec(&self) -> Seq<char> {
        Seq::empty()
    }

    fn fill_model(&mut self) {
    }

    fn model_report(&self) -> (r: String) {
        String::new()
    }
}

/// A bias-partitioned sweep: one two-terminal trace per bias level, kept
/// in ascending bias order with no NaN and no duplicate bias.
#[derive(Clone)]
pub struct ThreeTerminalTrace {
    pub reverse_order: bool,
    pub traces: Vec<(Real, TwoTerminalTrace)>,
}

/// The bias keys are NaN-free and strictly ascending in value.
pub open spec fn biases_sorted(s: Seq<(Real, TwoTerminalTrace)>) -> bool {
    &&& forall|i: int| 0 <= i < s.len() ==> !is_nan_b((#[trigger] s[i]).0.bits)
    &&& forall|i: int, j: int|
        #![trigger s[i], s[j]]
        0 <= i < j < s.len() ==> key_b(s[i].0.bits) < key_b(s[j].0.bits)
}

/// The mathematical shape of a two-terminal trace: its voltages, its
/// currents and its area.
pub open spec fn tt_view(t: TwoTerminalTrace) -> (Seq<Real>, Seq<Real>, AreaOfInterest) {
    (t.trace.voltage@, t.trace.current@, t.aoi)
}

/// The mathematical shape of a bias partition: each bias with the shape
/// of its trace.
pub open spec fn partition_view(s: Seq<(Real, TwoTerminalTrace)>) -> Seq<
    (Real, (Seq<Real>, Seq<Real>, AreaOfInterest)),
> {
    s.map_values(|e: (Real, TwoTerminalTrace)| (e.0, tt_view(e.1)))
}

/// What inserting a record does to a sorted bias partition: the sample
/// joins the trace of its bias level, and a level first seen opens a
/// fresh one-sample trace at the position value order gives it.
pub open spec fn spec_add_record(
    s: Seq<(Real, (Seq<Real>, Seq<Real>, AreaOfInterest))>,
    bias: Real,
    v: Real,
    i: Real,
    aoi: AreaOfInterest,
) -> Seq<(Real, (Seq<Real>, Seq<Real>, AreaOfInterest))>
    decreases s.len(),
{
    if s.len() == 0 {
        seq![(bias, (seq![v], seq![i], aoi))]
    } else if key_b(bias.bits) < key_b(s[0].0.bits) {
        seq![(bias, (seq![v], seq![i], aoi))] + s
    } else if key_b(bias.bits) == key_b(s[0].0.bits) {
        seq![(s[0].0, (s[0].1.0.push(v), s[0].1.1.push(i), s[0].1.2))] + s.drop_first()
    } else {
        seq![s[0]] + spec_add_record(s.drop_first(), bias, v, i, aoi)
    }
}

impl ThreeTerminalTrace {
    /// An empty partition.
    pub fn new(reverse_order: bool) -> (r: ThreeTerminalTrace)
        ensures
            r.reverse_order == reverse_order,
            r.traces@.len() == 0,
            biases_sorted(r.traces@),
    {
        ThreeTerminalTrace { reverse_order, traces: Vec::new() }
    }

    /// Files one (bias, voltage, current) record into the partition: the
    /// sample joins the trace of its bias level, and a level first seen
    /// opens a fresh trace, keeping the partition sorted by bias.
    pub fn add_record(&mut self, bias: Real, v: Real, i: Real, aoi: AreaOfInterest)
        requires
            !is_nan_b(bias.bits),
            biases_sorted(old(self).traces@),
        ensures
            final(self).reverse_order == old(self).reverse_order,
            biases_sorted(final(self).traces@),
            partition_view(final(self).traces@) == (spec_add_record(
                partition_view(old(self).traces@),
                bias,
                v,
                i,
                aoi,
            )),
    {
        let mut taken: Vec<(Real, TwoTerminalTrace)> = Vec::new();
        core::mem::swap(&mut taken, &mut self.traces);
        proof {
            assert(view_sorted(partition_view(taken@)));
            lemma_add_record_sorted(partition_view(taken@), bias, v, i, aoi);
        }
        let added = add_record_rec(taken, bias, v, i, aoi);
        proof {
            assert(biases_sorted(added@)) by {
                let pv = partition_view(added@);
                assert(forall|k: int| 0 <= k < added@.len() ==> (#[trigger] added@[k]).0 == pv[k].0);
            }
        }
        self.traces = added;
    }
}

/// Inserting into a sorted partition keeps it sorted, and the biases of
/// the result are the old ones with the new level possibly added.
proof fn lemma_add_record_sorted(
    s: Seq<(Real, (Seq<Real>, Seq<Real>, AreaOfInterest))>,
    bias: Real,
    v: Real,
    i: Real,
    aoi: AreaOfInterest,
)
    requires
        !is_nan_b(bias.bits),
        view_sorted(s),
    ensures
        view_sorted(spec_add_record(s, bias, v, i, aoi)),
        forall|k: int|
            0 <= k < spec_add_record(s, bias, v, i, aoi).len() ==> (exists|j: int|
                0 <= j < s.len() && (#[trigger] spec_add_record(s, bias, v, i, aoi)[k]).0
                    == s[j].0) || spec_add_record(s, bias, v, i, aoi)[k].0 == bias,
    decreases s.len(),
{
    let out = spec_add_record(s, bias, v, i, aoi);
    if s.len() == 0 {
    } else if key_b(bias.bits) < key_b(s[0].0.bits) {
    } else if key_b(bias.bits) == key_b(s[0].0.bits) {
    } else {
        lemma_add_record_sorted(s.drop_first(), bias, v, i, aoi);
        let rest = spec_add_record(s.drop_first(), bias, v, i, aoi);
        assert forall|k: int| 0 <= k < rest.len() implies key_b(s[0].0.bits) < key_b(
            rest[k].0.bits,
        ) by {
            if rest[k].0 == bias {
            } else {
                let j = choose|j: int| 0 <= j < s.drop_first().len() && rest[k].0 == s.drop_first()[j].0;
                assert(s.drop_first()[j] == s[j + 1]);
            }
        }
        assert(view_sorted(out)) by {
            assert forall|a: int, b: int| 0 <= a < b < out.len() implies key_b(out[a].0.bits)
                < key_b(out[b].0.bits) by {
                if a == 0 {
                    assert(out[b] == rest[b - 1]);
                } else {
                    assert(out[a] == rest[a - 1] && out[b] == rest[b - 1]);
                }
            }
            assert forall|a: int| 0 <= a < out.len() implies !is_nan_b(out[a].0.bits) by {
                if a > 0 {
                    assert(out[a] == rest[a - 1]);
                }
            }
        }
    }
}

/// The bias keys of a partition view are NaN-free and strictly ascending.
pub open spec fn view_sorted(s: Seq<(Real, (Seq<Real>, Seq<Real>, AreaOfInterest))>) -> bool {
    &&& forall|i: int| 0 <= i < s.len() ==> !is_nan_b((#[trigger] s[i]).0.bits)
    &&& forall|i: int, j: int|
        #![trigger s[i], s[j]]
        0 <= i < j < s.len() ==> key_b(s[i].0.bits) < key_b(s[j].0.bits)
}

impl Trace for ThreeTerminalTrace {
    open spec fn aoi_spec(&self) -> AreaOfInterest {
        if self.traces@.len() > 0 {
            self.traces@[0].1.aoi
        } else {
            spec_default_aoi()
        }
    }

    /// The area of the first bias level's trace, or the default area of
    /// an empty partition.
    fn area_of_interest(&self) -> (r: AreaOfInterest) {
        if self.traces.len() > 0 {
            self.traces[0].1.aoi
        } else {
            Default::default()
        }
    }

    open spec fn csv_records_spec(&self) -> Seq<Seq<Seq<char>>> {
        seq![seq!["v"@, "i"@, "bias"@]] + three_rows(self.traces@)
    }

    /// A header of the three column names, then one (voltage, current,
    /// bias) row per sample of each level, levels in ascending order.
    fn csv_records(&self) -> (r: Vec<Vec<String>>) {
        let mut out: Vec<Vec<String>> = Vec::new();
        let mut header: Vec<String> = Vec::new();
        header.push("v".to_owned());
        header.push("i".to_owned());
        header.push("bias".to_owned());
        out.push(header);
        proof {
            assert(rows_view(out@) =~~= seq![seq!["v"@, "i"@, "bias"@]]);
            assert(three_rows(self.traces@.take(0)) =~~= Seq::<Seq<Seq<char>>>::empty());
        }
        let mut k: usize = 0;
        while k < self.traces.len()
            invariant
                k <= self.traces@.len(),
                rows_view(out@) =~~= seq![seq!["v"@, "i"@, "bias"@]] + three_rows(
                    self.traces@.take(k as int),
                ),
            decreases self.traces@.len() - k,
        {
            let bias = self.traces[k].0;
            let tt = &self.traces[k].1;
            push_rows(&mut out, &tt.trace.voltage, &tt.trace.current, Some(bias));
            proof {
                assert(self.traces@.take(k + 1).drop_last() =~= self.traces@.take(k as int));
                assert(self.traces@.take(k + 1).last() == self.traces@[k as int]);
                assert(rows_view(out@) =~~= seq![seq!["v"@, "i"@, "bias"@]] + three_rows(
                    self.traces@.take(k + 1),
                ));
            }
            k = k + 1;
        }
        proof {
            assert(self.traces@.take(self.traces@.len() as int) =~= self.traces@);
            assert(rows_view(out@) =~~= self.csv_records_spec());
        }
        out
    }
}

impl TraceWithModel for ThreeTerminalTrace {
    open spec fn is_filled(&self) -> bool {
        true
    }

    /// A bias partition fits no model: filling changes nothing.
    open spec fn filled_from(&self, prev: &Self) -> bool {
        *self == *prev
    }

    open spec fn report_spec(&self) -> Seq<char> {
        Seq::empty()
    }

    /// A bias-partitioned sweep carries no fitted model of its own.
    fn fill_model(&mut self) {
    }

    fn model_report(&self) -> (r: String) {
        String::new()
    }
}

/// Files a record into the head-sorted entries, recursively.
fn add_record_rec(
    entries: Vec<(Real, TwoTerminalTrace)>,
    bias: Real,
    v: Real,
    i: Real,
    aoi: AreaOfInterest,
) -> (r: Vec<(Real, TwoTerminalTrace)>)
    requires
        !is_nan_b(bias.bits),
        forall|k: int| 0 <= k < entries@.len() ==> !is_nan_b((#[trigger] entries@[k]).0.bits),
    ensures
        partition_view(r@) == (spec_add_record(partition_view(entries@), bias, v, i, aoi)),
    decreases entries@.len(),
{
    let mut entries = entries;
    if entries.len() == 0 {
        let mut vs: Vec<Real> = Vec::new();
        let mut is: Vec<Real> = Vec::new();
        vs.push(v);
        is.push(i);
        let fresh = TwoTerminalTrace { trace: RawTrace { current: is, voltage: vs }, aoi };
        entries.push((bias, fresh));
        proof {
            assert(partition_view(entries@) =~= (spec_add_record(
                partition_view(Seq::<(Real, TwoTerminalTrace)>::empty()),
                bias,
                v,
                i,
                aoi,
            )));
        }
        entries
    } else {
        let ghost olds = entries@;
        let head_key = entries[0].0;
        let cmp_lt = bias.lt(head_key);
        let cmp_eq = bias.feq(head_key);
        if cmp_lt {
            let mut vs: Vec<Real> = Vec::new();
            let mut is: Vec<Real> = Vec::new();
            vs.push(v);
            is.push(i);
            let fresh = TwoTerminalTrace { trace: RawTrace { current: is, voltage: vs }, aoi };
            entries.insert(0, (bias, fresh));
            proof {
                assert(partition_view(entries@) =~= (spec_add_record(
                    partition_view(olds),
                    bias,
                    v,
                    i,
                    aoi,
                )));
            }
            entries
        } else if cmp_eq {
            let (k, mut t) = entries.remove(0);
            t.trace.voltage.push(v);
            t.trace.current.push(i);
            entries.insert(0, (k, t));
            proof {
                assert(partition_view(entries@) =~= (spec_add_record(
                    partition_view(olds),
                    bias,
                    v,
                    i,
                    aoi,
                )));
            }
            entries
        } else {
            let head = entries.remove(0);
            let mut rest = add_record_rec(entries, bias, v, i, aoi);
            rest.insert(0, head);
            proof {
                assert(olds.drop_first() =~= olds.subrange(1, olds.len() as int));
                assert(partition_view(olds).drop_first() =~= (partition_view(olds.drop_first())));
                assert(partition_view(rest@) =~= (spec_add_record(
                    partition_view(olds),
                    bias,
                    v,
                    i,
                    aoi,
                )));
            }
            rest
        }
    }
}

} // verus!

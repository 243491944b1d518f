//! Raw acquisition data: a trace of paired voltage/current samples, and a
//! trace tagged with the bias level it was swept under.

use vstd::prelude::*;

use crate::scalar::Real;

verus! {

/// An unordered collection of paired (voltage, current) samples.
#[derive(Clone)]
pub struct RawTrace {
    pub current: Vec<Real>,
    pub voltage: Vec<Real>,
}

/// The sample pairs of a raw trace, voltage first, in storage order.
pub open spec fn raw_pairs(voltage: Seq<Real>, current: Seq<Real>) -> Seq<(Real, Real)> {
    Seq::new(voltage.len(), |i: int| (voltage[i], current[i]))
}

impl RawTrace {
    /// Packs equally many current and voltage samples into a trace.
    pub fn new(current: Vec<Real>, voltage: Vec<Real>) -> (r: RawTrace)
        requires
            current@.len() == voltage@.len(),
        ensures
            r.current@ == current@,
            r.voltage@ == voltage@,
    {
        RawTrace { current, voltage }
    }

    /// The (voltage, current) pairs, in storage order.
    pub fn iter(&self) -> (r: Vec<(Real, Real)>)
        requires
            self.current@.len() == self.voltage@.len(),
        ensures
            r@ == raw_pairs(self.voltage@, self.current@),
    {
        let mut out: Vec<(Real, Real)> = Vec::new();
        let mut i: usize = 0;
        while i < self.voltage.len()
            invariant
                i <= self.voltage@.len(),
                self.current@.len() == self.voltage@.len(),
                out@.len() == i,
                forall|k: int|
                    0 <= k < i ==> out@[k] == (self.voltage@[k], self.current@[k]),
            decreases self.voltage@.len() - i,
        {
            out.push((self.voltage[i], self.current[i]));
            i = i + 1;
        }
        proof {
            assert(out@ =~= raw_pairs(self.voltage@, self.current@));
        }
        out
    }

    /// The number of samples.
    pub fn len(&self) -> (r: usize)
        ensures
            r == self.voltage@.len(),
    {
        self.voltage.len()
    }
}

/// A raw trace tagged with the bias level it was swept under.
#[derive(Clone)]
pub struct BiasedTrace {
    pub bias: Real,
    pub trace: RawTrace,
}

} // verus!

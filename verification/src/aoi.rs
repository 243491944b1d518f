//! The rectangular area of the voltage/current plane a device sweep is
//! expected to cover, used to frame acquisition and plotting.

use vstd::prelude::*;

use crate::scalar::{f_lt, spec_add, spec_mul, spec_sub, Real, ZERO_BITS};

verus! {

/// Encoding of the 0.1 slack factor an extended area grows by.
pub const SLACK_BITS: u64 = 0x3FB9_9999_9999_999A;

/// Encoding of two.
pub const TWO_BITS: u64 = 0x4000_0000_0000_0000;

/// Encoding of minus one.
pub const NEG_ONE_BITS: u64 = 0xBFF0_0000_0000_0000;

/// Encoding of the 0.005 A ceiling of the default area.
pub const DEFAULT_MAX_I_BITS: u64 = 0x3F74_7AE1_47AE_147B;

/// Encoding of the 5 V ceiling of the default area.
pub const DEFAULT_MAX_V_BITS: u64 = 0x4014_0000_0000_0000;

/// The rectangle [min_v, max_v] x [min_i, max_i] of interest.
#[derive(Clone, Copy, PartialEq, Eq, Structural, Debug)]
pub struct AreaOfInterest {
    pub min_v: Real,
    pub max_v: Real,
    pub min_i: Real,
    pub max_i: Real,
}

impl AreaOfInterest {
    /// The area of a sweep over positive voltages and currents.
    pub fn new_pos_i_pos_v(i: Real, v: Real) -> (r: AreaOfInterest)
        ensures
            r.min_v.bits == ZERO_BITS,
            r.max_v == v,
            r.min_i.bits == ZERO_BITS,
            r.max_i == i,
    {
        AreaOfInterest { min_v: Real::zero(), max_v: v, min_i: Real::zero(), max_i: i }
    }

    /// The area of a sweep over negative voltages and positive currents.
    pub fn new_pos_i_neg_v(i: Real, v: Real) -> (r: AreaOfInterest)
        ensures
            r.min_v.bits == v.bits ^ crate::scalar::SIGN_MASK,
            r.max_v.bits == ZERO_BITS,
            r.min_i.bits == ZERO_BITS,
            r.max_i == i,
    {
        AreaOfInterest { min_v: v.neg(), max_v: Real::zero(), min_i: Real::zero(), max_i: i }
    }

    /// The area grown by a tenth of its span on every side.
    pub fn extended(&self) -> (r: AreaOfInterest)
        ensures
            r == spec_extended(*self),
    {
        let slack = Real::from_bits(SLACK_BITS);
        let v_range = self.max_v.sub(self.min_v);
        let i_range = self.max_i.sub(self.min_i);
        AreaOfInterest {
            min_v: self.min_v.sub(v_range.mul(slack)),
            max_v: self.max_v.add(v_range.mul(slack)),
            min_i: self.min_i.sub(i_range.mul(slack)),
            max_i: self.max_i.add(i_range.mul(slack)),
        }
    }

    /// The sign convention of the voltage axis: negative exactly when the
    /// area reaches clearly further below zero than above it.
    pub fn v_polarity(&self) -> (r: Real)
        ensures
            r == spec_v_polarity(*self),
    {
        if self.min_v.lt(Real::zero()) && self.min_v.abs().gt(
            Real::from_bits(TWO_BITS).mul(self.max_v.abs()),
        ) {
            Real::from_bits(NEG_ONE_BITS)
        } else {
            Real::one()
        }
    }
}

/// The area grown by a tenth of its span on every side, over encodings.
pub open spec fn spec_extended(a: AreaOfInterest) -> AreaOfInterest {
    let slack = Real { bits: SLACK_BITS };
    let v_range = spec_sub(a.max_v, a.min_v);
    let i_range = spec_sub(a.max_i, a.min_i);
    AreaOfInterest {
        min_v: spec_sub(a.min_v, spec_mul(v_range, slack)),
        max_v: spec_add(a.max_v, spec_mul(v_range, slack)),
        min_i: spec_sub(a.min_i, spec_mul(i_range, slack)),
        max_i: spec_add(a.max_i, spec_mul(i_range, slack)),
    }
}

/// The voltage polarity of an area, over encodings.
pub open spec fn spec_v_polarity(a: AreaOfInterest) -> Real {
    if f_lt(a.min_v.bits, ZERO_BITS) && f_lt(
        spec_mul((Real { bits: TWO_BITS }), (Real { bits: crate::scalar::mag_b(a.max_v.bits) })).bits,
        crate::scalar::mag_b(a.min_v.bits),
    ) {
        Real { bits: NEG_ONE_BITS }
    } else {
        Real { bits: crate::scalar::ONE_BITS }
    }
}

impl Default for AreaOfInterest {
    /// The default area: positive voltages to 5 V, currents to 0.005 A.
    fn default() -> (r: AreaOfInterest)
        ensures
            r.min_v.bits == ZERO_BITS,
            r.max_v.bits == DEFAULT_MAX_V_BITS,
            r.min_i.bits == ZERO_BITS,
            r.max_i.bits == DEFAULT_MAX_I_BITS,
    {
        AreaOfInterest::new_pos_i_pos_v(
            Real::from_bits(DEFAULT_MAX_I_BITS),
            Real::from_bits(DEFAULT_MAX_V_BITS),
        )
    }
}

} // verus!

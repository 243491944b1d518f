//! Engineering-notation rendering of scalars for reports, and a small
//! result-conversion helper.

use vstd::prelude::*;
use vstd::string::StringExecFns;

use crate::scalar::{
    fmt3_bits, fmt_bits, fmt_i32_chars, is_nan_b, mag_b, max_spec, min_spec, spec_div, spec_floor,
    spec_log10, Real,
};

verus! {

/// Encoding of three: powers of ten are grouped by thousands.
pub const THREE_BITS: u64 = 0x4008_0000_0000_0000;

/// Encoding of one hundred: the exponent clamp.
pub const HUNDRED_BITS: u64 = 0x4059_0000_0000_0000;

/// Encoding of minus one hundred: the exponent clamp.
pub const NEG_HUNDRED_BITS: u64 = 0xC059_0000_0000_0000;

/// The SI-style prefix of a thousands exponent, or the empty string when
/// the exponent has a symbol; exponents without one are spelled out.
pub open spec fn spec_si_prefix(exp: int) -> Seq<char> {
    if exp == 0 {
        Seq::empty()
    } else if exp == -3 {
        "m"@
    } else if exp == -6 {
        "\u{b5}"@
    } else if exp == -9 {
        "n"@
    } else if exp == -12 {
        "p"@
    } else if exp == -15 {
        "f"@
    } else if exp == -18 {
        "a"@
    } else if exp == -21 {
        "z"@
    } else if exp == -24 {
        "y"@
    } else if exp == 3 {
        "k"@
    } else if exp == 6 {
        "M"@
    } else if exp == 9 {
        "G"@
    } else if exp == 12 {
        "T"@
    } else if exp == 15 {
        "P"@
    } else if exp == 18 {
        "E"@
    } else if exp == 21 {
        "Z"@
    } else if exp == 24 {
        "Y"@
    } else {
        "e"@ + fmt_i32_chars(exp as i32)
    }
}

/// The thousands exponent a value is rendered under: floor of a third of
/// its magnitude's base-ten logarithm, clamped to [-100, 100], times 3.
pub open spec fn spec_eng_exp(x: Real) -> int {
    let l = spec_log10((Real { bits: mag_b(x.bits) }));
    let e = spec_floor(spec_div(l, (Real { bits: THREE_BITS })));
    let clamped = max_spec(min_spec(e.bits, HUNDRED_BITS), NEG_HUNDRED_BITS);
    let t = crate::scalar::to_i32_bits(clamped);
    let bounded: int = if t > 100 {
        100
    } else if t < -100 {
        -100
    } else {
        t as int
    };
    bounded * 3
}

/// The engineering rendering of a value: zero renders plainly; any other
/// value renders as its mantissa at three decimals, followed by the SI
/// prefix of its thousands exponent.
pub open spec fn spec_engineering(x: Real) -> Seq<char> {
    if mag_b(x.bits) == 0 {
        fmt_bits(x.bits)
    } else {
        let exp = spec_eng_exp(x);
        let mantissa = spec_div(x, (Real { bits: crate::scalar::powi10_bits(exp as i32) }));
        fmt3_bits(mantissa.bits) + spec_si_prefix(exp)
    }
}

/// A scalar wrapped for engineering-notation rendering: a mantissa kept
/// within a thousands group and an SI-style unit prefix.
pub struct Engineering(pub Real);

impl Engineering {
    /// Renders the value in engineering notation.
    pub fn format(&self) -> (r: String)
        ensures
            r@ == spec_engineering(self.0),
    {
        let x = self.0;
        if x.bits & crate::scalar::MAG_MASK == 0 {
            x.format()
        } else {
            let l = x.abs().log10();
            let e = l.div(Real::from_bits(THREE_BITS)).floor();
            let clamped = e.min(Real::from_bits(HUNDRED_BITS)).max(
                Real::from_bits(NEG_HUNDRED_BITS),
            );
            proof {
                assert(!is_nan_b(HUNDRED_BITS) && !is_nan_b(NEG_HUNDRED_BITS)) by {
                    assert(0x4059_0000_0000_0000u64 & 0x7FFF_FFFF_FFFF_FFFFu64
                        <= 0x7FF0_0000_0000_0000u64) by (bit_vector);
                    assert(0xC059_0000_0000_0000u64 & 0x7FFF_FFFF_FFFF_FFFFu64
                        <= 0x7FF0_0000_0000_0000u64) by (bit_vector);
                }
                assert(!is_nan_b(clamped.bits));
            }
            let t = clamped.to_i32();
            let bounded: i32 = if t > 100 {
                100
            } else if t < -100 {
                -100
            } else {
                t
            };
            let exp: i32 = bounded * 3;
            let mantissa = x.div(Real::powi10(exp));
            let mut out = mantissa.format3();
            if exp == 0 {
            } else if exp == -3 {
                out.append("m");
            } else if exp == -6 {
                out.append("\u{b5}");
            } else if exp == -9 {
                out.append("n");
            } else if exp == -12 {
                out.append("p");
            } else if exp == -15 {
                out.append("f");
            } else if exp == -18 {
                out.append("a");
            } else if exp == -21 {
                out.append("z");
            } else if exp == -24 {
                out.append("y");
            } else if exp == 3 {
                out.append("k");
            } else if exp == 6 {
                out.append("M");
            } else if exp == 9 {
                out.append("G");
            } else if exp == 12 {
                out.append("T");
            } else if exp == 15 {
                out.append("P");
            } else if exp == 18 {
                out.append("E");
            } else if exp == 21 {
                out.append("Z");
            } else if exp == 24 {
                out.append("Y");
            } else {
                out.append("e");
                let digits = crate::scalar::format_i32(exp);
                out.append(digits.as_str());
            }
            out
        }
    }
}

/// The error of converting an absent value into a result.
pub struct NoneError;

/// Conversion of an optional-style value into a result.
pub trait Try: Sized {
    /// The success payload.
    type Success;

    /// The failure payload.
    type Error;

    /// The value as a result.
    fn into_result(self) -> Result<Self::Success, Self::Error>;
}

impl<T> Try for Option<T> {
    type Success = T;

    type Error = NoneError;

    /// A present value becomes the success, an absent one the error.
    fn into_result(self) -> (r: Result<T, NoneError>)
        ensures
            (match self {
                Some(t) => r matches Ok(v) && v == t,
                None => r is Err,
            }),
    {
        match self {
            Some(t) => Ok(t),
            None => Err(NoneError),
        }
    }
}

} // verus!

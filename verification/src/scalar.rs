//! Double-precision scalars, held as their IEEE-754 bit encodings.
//!
//! Verus keeps floating-point types out of verified code, so this module
//! carries every scalar of the fitting pipeline as its 64-bit encoding.
//! Sign tests, comparisons, negation, absolute value, minimum, maximum and
//! clamping are decided by the encoding alone and are verified here in full.
//! Only genuine arithmetic (sum, difference, product, quotient, exponential,
//! logarithm, square root, conversion from an integer) crosses into trusted
//! wrappers; each wrapper names its result, so contracts downstream stay
//! exact and deterministic.

use vstd::prelude::*;

// The double-precision type, under a plain name for the trusted wrapper
// bodies alone: verified code sees only the 64-bit encodings, and Verus
// never reads these bodies.
use std::primitive::f64 as F64;

verus! {

/// The sign bit of an encoding.
pub const SIGN_MASK: u64 = 0x8000_0000_0000_0000;
/// Everything but the sign bit: the magnitude of an encoding.
pub const MAG_MASK: u64 = 0x7FFF_FFFF_FFFF_FFFF;
/// Magnitude of the infinities; any larger magnitude encodes a NaN.
pub const INF_MAG: u64 = 0x7FF0_0000_0000_0000;
/// The quiet NaN this library hands out when an operand is NaN.
pub const NAN_BITS: u64 = 0x7FF8_0000_0000_0000;
/// Encoding of zero.
pub const ZERO_BITS: u64 = 0x0000_0000_0000_0000;
/// Encoding of one half.
pub const HALF_BITS: u64 = 0x3FE0_0000_0000_0000;
/// Encoding of one.
pub const ONE_BITS: u64 = 0x3FF0_0000_0000_0000;
/// Encoding of the largest finite double.
pub const MAX_BITS: u64 = 0x7FEF_FFFF_FFFF_FFFF;

/// True when the encoding's sign bit is set.
pub open spec fn sign_b(b: u64) -> bool {
    b & SIGN_MASK == SIGN_MASK
}

/// The magnitude field of the encoding.
pub open spec fn mag_b(b: u64) -> u64 {
    b & MAG_MASK
}

/// True when the encoding is a NaN.
pub open spec fn is_nan_b(b: u64) -> bool {
    mag_b(b) > INF_MAG
}

/// True when the encoding is finite (neither infinite nor NaN).
pub open spec fn is_finite_b(b: u64) -> bool {
    mag_b(b) < INF_MAG
}

/// The encoding as a signed magnitude: the doubles excluding NaN are totally
/// ordered by this key, with the two zeros sharing the key 0.
pub open spec fn key_b(b: u64) -> int {
    if sign_b(b) {
        -(mag_b(b) as int)
    } else {
        mag_b(b) as int
    }
}

/// Value order of two non-NaN encodings; false whenever either is NaN.
pub open spec fn f_lt(a: u64, b: u64) -> bool {
    &&& !is_nan_b(a)
    &&& !is_nan_b(b)
    &&& key_b(a) < key_b(b)
}

/// Value order or equality of two non-NaN encodings.
pub open spec fn f_le(a: u64, b: u64) -> bool {
    &&& !is_nan_b(a)
    &&& !is_nan_b(b)
    &&& key_b(a) <= key_b(b)
}

/// Value equality of two non-NaN encodings: the two zeros are equal.
pub open spec fn f_eq(a: u64, b: u64) -> bool {
    &&& !is_nan_b(a)
    &&& !is_nan_b(b)
    &&& key_b(a) == key_b(b)
}

/// True when the encoding holds a value strictly greater than zero
/// (the positive infinity counts, the zeros and every NaN do not).
pub open spec fn is_pos_b(b: u64) -> bool {
    !sign_b(b) && 0 < mag_b(b) <= INF_MAG
}

/// The greater value, the other operand when one is NaN, and — where std
/// leaves the choice open, on a pair of equal values — the left operand.
pub open spec fn max_spec(a: u64, b: u64) -> u64 {
    if is_nan_b(a) {
        b
    } else if is_nan_b(b) {
        a
    } else if key_b(a) < key_b(b) {
        b
    } else {
        a
    }
}

/// The lesser value, mirrored from `max_spec`.
pub open spec fn min_spec(a: u64, b: u64) -> u64 {
    if is_nan_b(a) {
        b
    } else if is_nan_b(b) {
        a
    } else if key_b(b) < key_b(a) {
        b
    } else {
        a
    }
}

/// A double-precision value, held as its 64-bit IEEE-754 encoding so that
/// contracts can speak of the exact value every operation returns.
#[derive(Clone, Copy, PartialEq, Eq, Structural, Debug)]
pub struct Real {
    pub bits: u64,
}

/// What the trusted sum of two non-NaN encodings returns.
pub uninterp spec fn add_bits(a: u64, b: u64) -> u64;

/// What the trusted difference of two non-NaN encodings returns.
pub uninterp spec fn sub_bits(a: u64, b: u64) -> u64;

/// What the trusted product of two non-NaN encodings returns.
pub uninterp spec fn mul_bits(a: u64, b: u64) -> u64;

/// What the trusted quotient of two non-NaN encodings returns.
pub uninterp spec fn div_bits(a: u64, b: u64) -> u64;

/// What the trusted exponential of a non-NaN encoding returns.
pub uninterp spec fn exp_bits(a: u64) -> u64;

/// What the trusted natural logarithm of a non-NaN encoding returns.
pub uninterp spec fn ln_bits(a: u64) -> u64;

/// What the trusted square root of a non-NaN encoding returns.
pub uninterp spec fn sqrt_bits(a: u64) -> u64;

/// The encoding of the double nearest to the integer `n`.
pub uninterp spec fn of_u64_bits(n: u64) -> u64;

/// What the trusted base-ten logarithm of a non-NaN encoding returns.
pub uninterp spec fn log10_bits(a: u64) -> u64;

/// What the trusted floor of a non-NaN encoding returns.
pub uninterp spec fn floor_bits(a: u64) -> u64;

/// What the trusted power `10^e` returns for an integer exponent.
pub uninterp spec fn powi10_bits(e: i32) -> u64;

/// What the trusted saturating conversion of a non-NaN encoding to a
/// 32-bit integer returns.
pub uninterp spec fn to_i32_bits(a: u64) -> i32;

/// The characters of the default decimal rendering of an encoding.
pub uninterp spec fn fmt_bits(a: u64) -> Seq<char>;

/// The characters of the three-decimal rendering of an encoding.
pub uninterp spec fn fmt3_bits(a: u64) -> Seq<char>;

/// The decimal digit of a value below ten.
pub open spec fn dec_digit(d: nat) -> char {
    if d == 0 {
        '0'
    } else if d == 1 {
        '1'
    } else if d == 2 {
        '2'
    } else if d == 3 {
        '3'
    } else if d == 4 {
        '4'
    } else if d == 5 {
        '5'
    } else if d == 6 {
        '6'
    } else if d == 7 {
        '7'
    } else if d == 8 {
        '8'
    } else {
        '9'
    }
}

/// The decimal digits of a natural number, most significant first.
pub open spec fn dec_digits(n: nat) -> Seq<char>
    decreases n,
{
    if n < 10 {
        seq![dec_digit(n)]
    } else {
        dec_digits(n / 10).push(dec_digit(n % 10))
    }
}

/// The decimal rendering of an integer: a minus sign for negatives,
/// then the digits.
pub open spec fn fmt_i32_chars(e: i32) -> Seq<char> {
    if e < 0 {
        seq!['-'] + dec_digits((-(e as int)) as nat)
    } else {
        dec_digits(e as nat)
    }
}

impl Real {
    /// The value whose IEEE-754 encoding is `bits`.
    pub fn from_bits(bits: u64) -> (r: Real)
        ensures
            r.bits == bits,
    {
        Real { bits }
    }

    /// The IEEE-754 encoding of this value.
    pub fn to_bits(self) -> (r: u64)
        ensures
            r == self.bits,
    {
        self.bits
    }

    /// Zero.
    pub fn zero() -> (r: Real)
        ensures
            r.bits == ZERO_BITS,
    {
        Real { bits: ZERO_BITS }
    }

    /// One.
    pub fn one() -> (r: Real)
        ensures
            r.bits == ONE_BITS,
    {
        Real { bits: ONE_BITS }
    }

    /// The quiet NaN of this library.
    pub fn nan() -> (r: Real)
        ensures
            r.bits == NAN_BITS,
    {
        Real { bits: NAN_BITS }
    }

    /// The largest finite double.
    pub fn max_value() -> (r: Real)
        ensures
            r.bits == MAX_BITS,
    {
        Real { bits: MAX_BITS }
    }

    /// True when this value is NaN.
    pub fn is_nan(self) -> (r: bool)
        ensures
            r == is_nan_b(self.bits),
    {
        self.bits & MAG_MASK > INF_MAG
    }

    /// True when this value is finite.
    pub fn is_finite(self) -> (r: bool)
        ensures
            r == is_finite_b(self.bits),
    {
        self.bits & MAG_MASK < INF_MAG
    }

    /// The ordering key of the encoding: signed magnitude.
    fn key(self) -> (r: i128)
        ensures
            r as int == key_b(self.bits),
    {
        let mag: u64 = self.bits & MAG_MASK;
        if self.bits & SIGN_MASK == SIGN_MASK {
            -(mag as i128)
        } else {
            mag as i128
        }
    }

    /// Value order: strictly less than. False when either side is NaN.
    pub fn lt(self, o: Real) -> (r: bool)
        ensures
            r == f_lt(self.bits, o.bits),
    {
        !self.is_nan() && !o.is_nan() && self.key() < o.key()
    }

    /// Value order: less than or equal. False when either side is NaN.
    pub fn le(self, o: Real) -> (r: bool)
        ensures
            r == f_le(self.bits, o.bits),
    {
        !self.is_nan() && !o.is_nan() && self.key() <= o.key()
    }

    /// Value order: strictly greater than. False when either side is NaN.
    pub fn gt(self, o: Real) -> (r: bool)
        ensures
            r == f_lt(o.bits, self.bits),
    {
        o.lt(self)
    }

    /// Value order: greater than or equal. False when either side is NaN.
    pub fn ge(self, o: Real) -> (r: bool)
        ensures
            r == f_le(o.bits, self.bits),
    {
        o.le(self)
    }

    /// Value equality: the two zeros are equal, NaN equals nothing.
    pub fn feq(self, o: Real) -> (r: bool)
        ensures
            r == f_eq(self.bits, o.bits),
    {
        !self.is_nan() && !o.is_nan() && self.key() == o.key()
    }

    /// True when this value is strictly greater than zero.
    pub fn is_pos(self) -> (r: bool)
        ensures
            r == is_pos_b(self.bits),
    {
        let mag: u64 = self.bits & MAG_MASK;
        self.bits & SIGN_MASK != SIGN_MASK && 0 < mag && mag <= INF_MAG
    }

    /// The value with the sign flipped, as IEEE-754 negation does.
    pub fn neg(self) -> (r: Real)
        ensures
            r.bits == self.bits ^ SIGN_MASK,
    {
        Real { bits: self.bits ^ SIGN_MASK }
    }

    /// The value with the sign cleared, as `f64::abs` does.
    pub fn abs(self) -> (r: Real)
        ensures
            r.bits == mag_b(self.bits),
    {
        Real { bits: self.bits & MAG_MASK }
    }

    /// The greater of the two values, NaN ignored, as `f64::max` does.
    pub fn max(self, o: Real) -> (r: Real)
        ensures
            r.bits == max_spec(self.bits, o.bits),
    {
        if self.is_nan() {
            o
        } else if o.is_nan() {
            self
        } else if self.key() < o.key() {
            o
        } else {
            self
        }
    }

    /// The lesser of the two values, NaN ignored, as `f64::min` does.
    pub fn min(self, o: Real) -> (r: Real)
        ensures
            r.bits == min_spec(self.bits, o.bits),
    {
        if self.is_nan() {
            o
        } else if o.is_nan() {
            self
        } else if o.key() < self.key() {
            o
        } else {
            self
        }
    }

    /// Sum. NaN operands, and a NaN sum (infinities of opposite sign),
    /// give the library's quiet NaN — which NaN an IEEE operation
    /// returns is the platform's choice — and any other sum is exactly
    /// what the double sum returns.
    pub fn add(self, o: Real) -> (r: Real)
        ensures
            r == spec_add(self, o),
    {
        if self.is_nan() || o.is_nan() {
            Real::nan()
        } else {
            let raw = add_f(self, o);
            if raw.is_nan() {
                Real::nan()
            } else {
                raw
            }
        }
    }

    /// Difference, with the same NaN policy as `add`.
    pub fn sub(self, o: Real) -> (r: Real)
        ensures
            r == spec_sub(self, o),
    {
        if self.is_nan() || o.is_nan() {
            Real::nan()
        } else {
            let raw = sub_f(self, o);
            if raw.is_nan() {
                Real::nan()
            } else {
                raw
            }
        }
    }

    /// Product, with the same NaN policy as `add`.
    pub fn mul(self, o: Real) -> (r: Real)
        ensures
            r == spec_mul(self, o),
    {
        if self.is_nan() || o.is_nan() {
            Real::nan()
        } else {
            let raw = mul_f(self, o);
            if raw.is_nan() {
                Real::nan()
            } else {
                raw
            }
        }
    }

    /// Quotient, with the same NaN policy as `add`.
    pub fn div(self, o: Real) -> (r: Real)
        ensures
            r == spec_div(self, o),
    {
        if self.is_nan() || o.is_nan() {
            Real::nan()
        } else {
            let raw = div_f(self, o);
            if raw.is_nan() {
                Real::nan()
            } else {
                raw
            }
        }
    }

    /// Natural exponential, with the same NaN policy as `add`.
    pub fn exp(self) -> (r: Real)
        ensures
            r == spec_exp(self),
    {
        if self.is_nan() {
            Real::nan()
        } else {
            exp_f(self)
        }
    }

    /// Natural logarithm, with the same NaN policy as `add`.
    pub fn ln(self) -> (r: Real)
        ensures
            r == spec_ln(self),
    {
        if self.is_nan() {
            Real::nan()
        } else {
            let raw = ln_f(self);
            if raw.is_nan() {
                Real::nan()
            } else {
                raw
            }
        }
    }

    /// Square root, with the same NaN policy as `add`.
    pub fn sqrt(self) -> (r: Real)
        ensures
            r == spec_sqrt(self),
    {
        if self.is_nan() {
            Real::nan()
        } else {
            let raw = sqrt_f(self);
            if raw.is_nan() {
                Real::nan()
            } else {
                raw
            }
        }
    }

    /// The double nearest to the integer `n`; exact up to 2^53.
    pub fn of_u64(n: u64) -> (r: Real)
        ensures
            r.bits == of_u64_bits(n),
    {
        of_u64_f(n)
    }

    /// Base-ten logarithm, with the same NaN policy as `add`.
    pub fn log10(self) -> (r: Real)
        ensures
            r == spec_log10(self),
    {
        if self.is_nan() {
            Real::nan()
        } else {
            let raw = log10_f(self);
            if raw.is_nan() {
                Real::nan()
            } else {
                raw
            }
        }
    }

    /// The largest integral value not above this one, with the same NaN
    /// policy as `add`.
    pub fn floor(self) -> (r: Real)
        ensures
            r == spec_floor(self),
    {
        if self.is_nan() {
            Real::nan()
        } else {
            floor_f(self)
        }
    }

    /// Ten raised to an integer power.
    pub fn powi10(e: i32) -> (r: Real)
        ensures
            r.bits == powi10_bits(e),
    {
        powi10_f(e)
    }

    /// The value as a 32-bit integer, rounded toward zero and saturated.
    pub fn to_i32(self) -> (r: i32)
        requires
            !is_nan_b(self.bits),
        ensures
            r == to_i32_bits(self.bits),
    {
        to_i32_f(self)
    }

    /// The default decimal rendering of the value.
    pub fn format(self) -> (r: String)
        ensures
            r@ == fmt_bits(self.bits),
    {
        fmt_f(self)
    }

    /// The rendering of the value with three decimal places.
    pub fn format3(self) -> (r: String)
        ensures
            r@ == fmt3_bits(self.bits),
    {
        fmt3_f(self)
    }
}

/// Base-ten logarithm as a function of the encoding, NaN short-circuited.
pub open spec fn spec_log10(a: Real) -> Real {
    if is_nan_b(a.bits) || is_nan_b(log10_bits(a.bits)) {
        Real { bits: NAN_BITS }
    } else {
        Real { bits: log10_bits(a.bits) }
    }
}

/// Floor as a function of the encoding, NaN short-circuited.
pub open spec fn spec_floor(a: Real) -> Real {
    if is_nan_b(a.bits) {
        Real { bits: NAN_BITS }
    } else {
        Real { bits: floor_bits(a.bits) }
    }
}

/// The decimal rendering of a 32-bit integer.
pub fn format_i32(e: i32) -> (r: String)
    ensures
        r@ == fmt_i32_chars(e),
{
    fmt_i32_f(e)
}

/// Relies on `f64::log10`, taken as a fixed function of its argument's
/// encoding on this platform.
#[verifier::external_body]
fn log10_f(a: Real) -> (r: Real)
    requires
        !is_nan_b(a.bits),
    ensures
        is_nan_b(r.bits) == is_nan_b(log10_bits(a.bits)),
        !is_nan_b(log10_bits(a.bits)) ==> r.bits == log10_bits(a.bits),
{
    Real { bits: F64::from_bits(a.bits).log10().to_bits() }
}

/// Relies on `f64::floor`, which IEEE-754 fixes exactly.
#[verifier::external_body]
fn floor_f(a: Real) -> (r: Real)
    requires
        !is_nan_b(a.bits),
    ensures
        r.bits == floor_bits(a.bits),
{
    Real { bits: F64::from_bits(a.bits).floor().to_bits() }
}

/// Relies on `f64::powi` over the exact base ten.
#[verifier::external_body]
fn powi10_f(e: i32) -> (r: Real)
    ensures
        r.bits == powi10_bits(e),
{
    Real { bits: (10 as F64).powi(e).to_bits() }
}

/// Relies on Rust's saturating float-to-integer conversion.
#[verifier::external_body]
fn to_i32_f(a: Real) -> (r: i32)
    requires
        !is_nan_b(a.bits),
    ensures
        r == to_i32_bits(a.bits),
{
    F64::from_bits(a.bits) as i32
}

/// Relies on std's `Display` rendering of a double.
#[verifier::external_body]
fn fmt_f(a: Real) -> (r: String)
    ensures
        r@ == fmt_bits(a.bits),
{
    format!("{}", F64::from_bits(a.bits))
}

/// Relies on std's `Display` rendering of a double at three decimal
/// places.
#[verifier::external_body]
fn fmt3_f(a: Real) -> (r: String)
    ensures
        r@ == fmt3_bits(a.bits),
{
    format!("{:.3}", F64::from_bits(a.bits))
}

/// Relies on std's `Display` rendering of a 32-bit integer: a minus sign
/// for negatives, then the decimal digits.
#[verifier::external_body]
fn fmt_i32_f(e: i32) -> (r: String)
    ensures
        r@ == fmt_i32_chars(e),
{
    format!("{}", e)
}

/// Sum as a function of the operands' encodings, NaN short-circuited.
pub open spec fn spec_add(a: Real, b: Real) -> Real {
    if is_nan_b(a.bits) || is_nan_b(b.bits) || is_nan_b(add_bits(a.bits, b.bits)) {
        Real { bits: NAN_BITS }
    } else {
        Real { bits: add_bits(a.bits, b.bits) }
    }
}

/// Difference as a function of the operands' encodings, NaN short-circuited.
pub open spec fn spec_sub(a: Real, b: Real) -> Real {
    if is_nan_b(a.bits) || is_nan_b(b.bits) || is_nan_b(sub_bits(a.bits, b.bits)) {
        Real { bits: NAN_BITS }
    } else {
        Real { bits: sub_bits(a.bits, b.bits) }
    }
}

/// Product as a function of the operands' encodings, NaN short-circuited.
pub open spec fn spec_mul(a: Real, b: Real) -> Real {
    if is_nan_b(a.bits) || is_nan_b(b.bits) || is_nan_b(mul_bits(a.bits, b.bits)) {
        Real { bits: NAN_BITS }
    } else {
        Real { bits: mul_bits(a.bits, b.bits) }
    }
}

/// Quotient as a function of the operands' encodings, NaN short-circuited.
pub open spec fn spec_div(a: Real, b: Real) -> Real {
    if is_nan_b(a.bits) || is_nan_b(b.bits) || is_nan_b(div_bits(a.bits, b.bits)) {
        Real { bits: NAN_BITS }
    } else {
        Real { bits: div_bits(a.bits, b.bits) }
    }
}

/// Exponential as a function of the operand's encoding, NaN short-circuited.
pub open spec fn spec_exp(a: Real) -> Real {
    if is_nan_b(a.bits) {
        Real { bits: NAN_BITS }
    } else {
        Real { bits: exp_bits(a.bits) }
    }
}

/// Logarithm as a function of the operand's encoding, NaN short-circuited.
pub open spec fn spec_ln(a: Real) -> Real {
    if is_nan_b(a.bits) || is_nan_b(ln_bits(a.bits)) {
        Real { bits: NAN_BITS }
    } else {
        Real { bits: ln_bits(a.bits) }
    }
}

/// Square root as a function of the operand's encoding, NaN short-circuited.
pub open spec fn spec_sqrt(a: Real) -> Real {
    if is_nan_b(a.bits) || is_nan_b(sqrt_bits(a.bits)) {
        Real { bits: NAN_BITS }
    } else {
        Real { bits: sqrt_bits(a.bits) }
    }
}

/// Relies on std's double-precision addition; `f64::from_bits` and
/// `to_bits` carry the operands and the sum losslessly between values
/// and their encodings. The sum's value is pinned only when it is a
/// number: which NaN an operation returns is the platform's choice.
#[verifier::external_body]
fn add_f(a: Real, b: Real) -> (r: Real)
    requires
        !is_nan_b(a.bits),
        !is_nan_b(b.bits),
    ensures
        is_nan_b(r.bits) == is_nan_b(add_bits(a.bits, b.bits)),
        !is_nan_b(add_bits(a.bits, b.bits)) ==> r.bits == add_bits(a.bits, b.bits),
{
    Real { bits: (F64::from_bits(a.bits) + F64::from_bits(b.bits)).to_bits() }
}

/// Relies on std's double-precision subtraction; see `add_f`.
#[verifier::external_body]
fn sub_f(a: Real, b: Real) -> (r: Real)
    requires
        !is_nan_b(a.bits),
        !is_nan_b(b.bits),
    ensures
        is_nan_b(r.bits) == is_nan_b(sub_bits(a.bits, b.bits)),
        !is_nan_b(sub_bits(a.bits, b.bits)) ==> r.bits == sub_bits(a.bits, b.bits),
{
    Real { bits: (F64::from_bits(a.bits) - F64::from_bits(b.bits)).to_bits() }
}

/// Relies on std's double-precision multiplication; see `add_f`.
#[verifier::external_body]
fn mul_f(a: Real, b: Real) -> (r: Real)
    requires
        !is_nan_b(a.bits),
        !is_nan_b(b.bits),
    ensures
        is_nan_b(r.bits) == is_nan_b(mul_bits(a.bits, b.bits)),
        !is_nan_b(mul_bits(a.bits, b.bits)) ==> r.bits == mul_bits(a.bits, b.bits),
{
    Real { bits: (F64::from_bits(a.bits) * F64::from_bits(b.bits)).to_bits() }
}

/// Relies on std's double-precision division; see `add_f`.
#[verifier::external_body]
fn div_f(a: Real, b: Real) -> (r: Real)
    requires
        !is_nan_b(a.bits),
        !is_nan_b(b.bits),
    ensures
        is_nan_b(r.bits) == is_nan_b(div_bits(a.bits, b.bits)),
        !is_nan_b(div_bits(a.bits, b.bits)) ==> r.bits == div_bits(a.bits, b.bits),
{
    Real { bits: (F64::from_bits(a.bits) / F64::from_bits(b.bits)).to_bits() }
}

/// Relies on `f64::exp`, taken as a fixed function of its argument's
/// encoding on this platform.
#[verifier::external_body]
fn exp_f(a: Real) -> (r: Real)
    requires
        !is_nan_b(a.bits),
    ensures
        r.bits == exp_bits(a.bits),
{
    Real { bits: F64::from_bits(a.bits).exp().to_bits() }
}

/// Relies on `f64::ln`, taken as a fixed function of its argument's
/// encoding on this platform.
#[verifier::external_body]
fn ln_f(a: Real) -> (r: Real)
    requires
        !is_nan_b(a.bits),
    ensures
        is_nan_b(r.bits) == is_nan_b(ln_bits(a.bits)),
        !is_nan_b(ln_bits(a.bits)) ==> r.bits == ln_bits(a.bits),
{
    Real { bits: F64::from_bits(a.bits).ln().to_bits() }
}

/// Relies on `f64::sqrt`, which IEEE-754 fixes exactly.
#[verifier::external_body]
fn sqrt_f(a: Real) -> (r: Real)
    requires
        !is_nan_b(a.bits),
    ensures
        is_nan_b(r.bits) == is_nan_b(sqrt_bits(a.bits)),
        !is_nan_b(sqrt_bits(a.bits)) ==> r.bits == sqrt_bits(a.bits),
{
    Real { bits: F64::from_bits(a.bits).sqrt().to_bits() }
}

/// Relies on Rust's integer-to-double conversion, which rounds `n` to
/// the nearest double.
#[verifier::external_body]
fn of_u64_f(n: u64) -> (r: Real)
    ensures
        r.bits == of_u64_bits(n),
{
    Real { bits: (n as F64).to_bits() }
}

} // verus!

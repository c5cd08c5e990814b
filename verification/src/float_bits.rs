//! Primitive IEEE 754 double-precision operations over bit patterns.
//!
//! Verus has no theory of floating-point arithmetic, so every `f64`
//! value in this library is carried as its bit pattern (`u64`).  The
//! primitive operations the generator needs are trusted functions.  For
//! arithmetic, degree-to-radian conversion, integer conversion and
//! decimal rendering, Rust documents the result as the IEEE-correct,
//! deterministic function of the operands — except where IEEE leaves a
//! NaN result, whose bit pattern the platform does not pin down; each
//! such wrapper therefore excludes the NaN-producing operand patterns
//! by precondition, and its result is given a name by an uninterpreted
//! spec function.  For `sin` and `cos` std promises only unspecified
//! precision, so their wrappers promise nothing at all.
//!
//! On top of the trusted wrappers, this module defines verified, total
//! "guarded" operations that test the operand patterns first and return
//! the canonical quiet NaN where IEEE would leave the pattern open;
//! everything built on them is verified.

use byteorder::ByteOrder;
use vstd::prelude::*;

verus! {

/// Bit pattern of the IEEE double `0.0`.
pub const BITS_0: u64 = 0x0;

/// Bit pattern of the IEEE double `600.0`.
pub const BITS_600: u64 = 0x4082c00000000000;

/// Bit pattern of the IEEE double `-180.0`.
pub const BITS_NEG_180: u64 = 0xc066800000000000;

/// Bit pattern of the IEEE double `360.0`.
pub const BITS_360: u64 = 0x4076800000000000;

/// Bit pattern of the IEEE double `70.0`.
pub const BITS_70: u64 = 0x4051800000000000;

/// Bit pattern of the IEEE double `10.0`.
pub const BITS_10: u64 = 0x4024000000000000;

/// Bit pattern of the IEEE double `5.0`.
pub const BITS_5: u64 = 0x4014000000000000;

/// Bit pattern of the IEEE double `90.0`.
pub const BITS_90: u64 = 0x4056800000000000;

/// Bit pattern of the IEEE double `300.0`.
pub const BITS_300: u64 = 0x4072c00000000000;

/// Bit pattern of the IEEE double `2^53`.
pub const BITS_2_POW_53: u64 = 0x4340000000000000;

/// Bit pattern of the canonical quiet NaN.
pub const BITS_QNAN: u64 = 0x7ff8000000000000;

/// The sign bit.
pub const BITS_SIGN: u64 = 0x8000000000000000;

/// Bit pattern of positive infinity.
pub const BITS_INF: u64 = 0x7ff0000000000000;

/// The bit pattern with the sign bit cleared.
pub open spec fn abs_bits(a: u64) -> u64 {
    if a >= BITS_SIGN {
        (a - BITS_SIGN) as u64
    } else {
        a
    }
}

/// The pattern encodes a NaN.
pub open spec fn is_nan_bits(a: u64) -> bool {
    abs_bits(a) > BITS_INF
}

/// The pattern encodes positive or negative infinity.
pub open spec fn is_inf_bits(a: u64) -> bool {
    abs_bits(a) == BITS_INF
}

/// The pattern encodes positive or negative zero.
pub open spec fn is_zero_bits(a: u64) -> bool {
    abs_bits(a) == 0
}

/// The pattern encodes a finite double (zero, subnormal or normal).
pub open spec fn is_finite_bits(a: u64) -> bool {
    abs_bits(a) < BITS_INF
}

/// The sign bit is set.
pub open spec fn is_negative_bits(a: u64) -> bool {
    a >= BITS_SIGN
}

/// The operand patterns whose IEEE sum is a NaN: a NaN operand, or
/// infinities of opposite sign.
pub open spec fn add_invalid(a: u64, b: u64) -> bool {
    is_nan_bits(a) || is_nan_bits(b) || (is_inf_bits(a) && is_inf_bits(b) && is_negative_bits(a)
        != is_negative_bits(b))
}

/// The operand patterns whose IEEE product is a NaN: a NaN operand, or
/// zero times infinity.
pub open spec fn mul_invalid(a: u64, b: u64) -> bool {
    is_nan_bits(a) || is_nan_bits(b) || (is_zero_bits(a) && is_inf_bits(b)) || (is_inf_bits(a)
        && is_zero_bits(b))
}

/// The operand patterns whose IEEE quotient is a NaN: a NaN operand,
/// zero over zero, or infinity over infinity.
pub open spec fn div_invalid(a: u64, b: u64) -> bool {
    is_nan_bits(a) || is_nan_bits(b) || (is_zero_bits(a) && is_zero_bits(b)) || (is_inf_bits(a)
        && is_inf_bits(b))
}

/// The bit pattern of the IEEE double sum of the doubles with bit
/// patterns `a` and `b`, defined where the sum is not a NaN.
pub uninterp spec fn add_bits(a: u64, b: u64) -> u64;

/// The bit pattern of the IEEE double product of the doubles with bit
/// patterns `a` and `b`, defined where the product is not a NaN.
pub uninterp spec fn mul_bits(a: u64, b: u64) -> u64;

/// The bit pattern of the IEEE double quotient of the doubles with bit
/// patterns `a` and `b`, defined where the quotient is not a NaN.
pub uninterp spec fn div_bits(a: u64, b: u64) -> u64;

/// The bit pattern of the double with bit pattern `a`, converted from
/// degrees to radians, defined for non-NaN `a`.
pub uninterp spec fn radians_bits(a: u64) -> u64;

/// The bit pattern of the double nearest to the integer `n`.
pub uninterp spec fn float_of_int(n: int) -> u64;

/// The decimal rendering of the double with bit pattern `a`, as std's
/// `Display` implementation for `f64` prints it.
pub uninterp spec fn decimal_of(a: u64) -> Seq<char>;

/// Relies on IEEE 754 double addition (`+` on `f64`).  Outside the
/// NaN-producing operand patterns the sum is the IEEE-correct,
/// deterministic function of the operands' bit patterns, and it is not
/// a NaN.
#[verifier::external_body]
pub fn add_f64(a: u64, b: u64) -> (r: u64)
    requires
        !add_invalid(a, b),
    ensures
        r == add_bits(a, b),
        !is_nan_bits(r),
{
    (byteorder::LittleEndian::read_f64(&a.to_le_bytes())
        + byteorder::LittleEndian::read_f64(&b.to_le_bytes())).to_bits()
}

/// Relies on IEEE 754 double multiplication (`*` on `f64`).  Outside
/// the NaN-producing operand patterns the product is the IEEE-correct,
/// deterministic function of the operands' bit patterns, and it is not
/// a NaN.
#[verifier::external_body]
pub fn mul_f64(a: u64, b: u64) -> (r: u64)
    requires
        !mul_invalid(a, b),
    ensures
        r == mul_bits(a, b),
        !is_nan_bits(r),
{
    (byteorder::LittleEndian::read_f64(&a.to_le_bytes())
        * byteorder::LittleEndian::read_f64(&b.to_le_bytes())).to_bits()
}

/// Relies on IEEE 754 double division (`/` on `f64`).  Outside the
/// NaN-producing operand patterns the quotient is the IEEE-correct,
/// deterministic function of the operands' bit patterns, and it is not
/// a NaN.
#[verifier::external_body]
pub fn div_f64(a: u64, b: u64) -> (r: u64)
    requires
        !div_invalid(a, b),
    ensures
        r == div_bits(a, b),
        !is_nan_bits(r),
{
    (byteorder::LittleEndian::read_f64(&a.to_le_bytes())
        / byteorder::LittleEndian::read_f64(&b.to_le_bytes())).to_bits()
}

/// Relies on `f64::to_radians`, a single IEEE multiplication by a
/// finite nonzero constant with no precision caveat in its
/// documentation: for a non-NaN operand the result is deterministic and
/// not a NaN.
#[verifier::external_body]
pub fn radians_f64(a: u64) -> (r: u64)
    requires
        !is_nan_bits(a),
    ensures
        r == radians_bits(a),
        !is_nan_bits(r),
{
    byteorder::LittleEndian::read_f64(&a.to_le_bytes()).to_radians().to_bits()
}

/// Relies on `f64::sin`.  Std documents its precision as unspecified
/// and possibly platform- and even call-dependent, so nothing is
/// promised of the result.
#[verifier::external_body]
pub fn sin_f64(a: u64) -> (r: u64) {
    byteorder::LittleEndian::read_f64(&a.to_le_bytes()).sin().to_bits()
}

/// Relies on `f64::cos`.  Std documents its precision as unspecified
/// and possibly platform- and even call-dependent, so nothing is
/// promised of the result.
#[verifier::external_body]
pub fn cos_f64(a: u64) -> (r: u64) {
    byteorder::LittleEndian::read_f64(&a.to_le_bytes()).cos().to_bits()
}

/// Relies on `serde_json::Number::as_f64`, which converts an unsigned
/// integer to the nearest double (`n as f64`); the conversion is
/// deterministic, always finite (every `u64` is far below the largest
/// double), nonzero for a nonzero integer, and `as_f64` always returns
/// `Some` for a number built from a `u64`.
#[verifier::external_body]
pub fn float_of_u64(n: u64) -> (r: u64)
    ensures
        r == float_of_int(n as int),
        is_finite_bits(r),
        n >= 1 ==> !is_zero_bits(r),
{
    serde_json::Value::from(n).as_f64().unwrap().to_bits()
}

/// Relies on std's `Display` implementation for `f64`: the rendering
/// depends on the bit pattern alone.
#[verifier::external_body]
pub fn format_f64(a: u64) -> (r: String)
    ensures
        r@ == decimal_of(a),
{
    format!("{}", byteorder::LittleEndian::read_f64(&a.to_le_bytes()))
}

/// Relies on `rand::random::<u64>()`: a uniformly random 64-bit word
/// from the thread-local generator.  Nothing is promised of the result:
/// the draw is random.
#[verifier::external_body]
pub fn random_u64() -> (r: u64) {
    rand::random::<u64>()
}

/// The sum where IEEE pins it down; the canonical quiet NaN on the
/// operand patterns whose NaN result the platform leaves open.
pub open spec fn guarded_add_bits(a: u64, b: u64) -> u64 {
    if add_invalid(a, b) {
        BITS_QNAN
    } else {
        add_bits(a, b)
    }
}

/// The product where IEEE pins it down; the canonical quiet NaN on the
/// operand patterns whose NaN result the platform leaves open.
pub open spec fn guarded_mul_bits(a: u64, b: u64) -> u64 {
    if mul_invalid(a, b) {
        BITS_QNAN
    } else {
        mul_bits(a, b)
    }
}

/// The bit pattern with the sign bit cleared.
fn abs_pattern(a: u64) -> (r: u64)
    ensures
        r == abs_bits(a),
{
    if a >= BITS_SIGN {
        a - BITS_SIGN
    } else {
        a
    }
}

/// Total IEEE addition over bit patterns: tests the operands first and
/// returns the canonical quiet NaN where the platform would not pin the
/// result down.
pub fn guarded_add(a: u64, b: u64) -> (r: u64)
    ensures
        r == guarded_add_bits(a, b),
{
    let aa = abs_pattern(a);
    let ab = abs_pattern(b);
    let invalid = aa > BITS_INF || ab > BITS_INF || (aa == BITS_INF && ab == BITS_INF && (a
        >= BITS_SIGN) != (b >= BITS_SIGN));
    if invalid {
        BITS_QNAN
    } else {
        add_f64(a, b)
    }
}

/// Total IEEE multiplication over bit patterns: tests the operands
/// first and returns the canonical quiet NaN where the platform would
/// not pin the result down.
pub fn guarded_mul(a: u64, b: u64) -> (r: u64)
    ensures
        r == guarded_mul_bits(a, b),
{
    let aa = abs_pattern(a);
    let ab = abs_pattern(b);
    let invalid = aa > BITS_INF || ab > BITS_INF || (aa == 0 && ab == BITS_INF) || (aa == BITS_INF
        && ab == 0);
    if invalid {
        BITS_QNAN
    } else {
        mul_f64(a, b)
    }
}

} // verus!

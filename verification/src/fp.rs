//! Sign tests on IEEE-754 double-precision bit patterns.
//!
//! Verified code cannot reason about floating-point values, so every scalar
//! of the simulation travels as the raw bit pattern of an IEEE-754 double,
//! held in a `u64`. The run's two decisions — keep integrating, emit a row —
//! compare a height against zero, and that comparison is a short, exact
//! function of the bit pattern: a double is laid out as one sign bit, an
//! eleven-bit exponent and a fifty-two-bit fraction, it is a NaN exactly when
//! the exponent is all ones and the fraction is nonzero, and it is a zero
//! exactly when everything but the sign bit is clear. These functions state
//! that reading directly and are proved, so nothing here is taken on trust.

use vstd::prelude::*;

verus! {

/// The bit pattern of positive zero.
pub const F64_ZERO: u64 = 0;

/// Whether the bit pattern `a` encodes a NaN: exponent all ones, fraction
/// nonzero.
pub open spec fn is_nan64(a: u64) -> bool {
    (a >> 52) & 0x7FF == 0x7FF && a & 0x000F_FFFF_FFFF_FFFF != 0
}

/// Whether the bit pattern `a` has its sign bit set (a negative double or a
/// negative zero or a NaN with the sign bit set).
pub open spec fn sign64(a: u64) -> bool {
    a >> 63 == 1
}

/// Whether the bit pattern `a` encodes a zero of either sign.
pub open spec fn is_zero64(a: u64) -> bool {
    a & 0x7FFF_FFFF_FFFF_FFFF == 0
}

/// Whether the double with bit pattern `a` compares `>=` to zero: it is not
/// a NaN, and it is either non-negative or a negative zero.
pub open spec fn ge_zero64(a: u64) -> bool {
    !is_nan64(a) && (!sign64(a) || is_zero64(a))
}

/// Whether the double with bit pattern `a` compares `>` to zero: it is not a
/// NaN, its sign bit is clear, and it is not a zero.
pub open spec fn gt_zero64(a: u64) -> bool {
    !is_nan64(a) && !sign64(a) && !is_zero64(a)
}

/// Decide whether the double with bit pattern `a` is at least zero.
pub fn is_at_least_zero(a: u64) -> (r: bool)
    ensures
        r == ge_zero64(a),
{
    let nan: bool = (a >> 52) & 0x7FF == 0x7FF && a & 0x000F_FFFF_FFFF_FFFF != 0;
    let negative: bool = a >> 63 == 1;
    let zero: bool = a & 0x7FFF_FFFF_FFFF_FFFF == 0;
    !nan && (!negative || zero)
}

/// Decide whether the double with bit pattern `a` is strictly above zero.
pub fn is_above_zero(a: u64) -> (r: bool)
    ensures
        r == gt_zero64(a),
{
    let nan: bool = (a >> 52) & 0x7FF == 0x7FF && a & 0x000F_FFFF_FFFF_FFFF != 0;
    let negative: bool = a >> 63 == 1;
    let zero: bool = a & 0x7FFF_FFFF_FFFF_FFFF == 0;
    !nan && !negative && !zero
}

} // verus!

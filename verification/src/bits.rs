//! An order on IEEE-754 binary64 bit patterns.
//!
//! A finite, infinite or NaN binary64 value is carried through this crate as
//! its bit pattern, a `u64`. The functions here compare such patterns exactly
//! as the usual floating-point comparisons compare the encoded values: the
//! sign bit is the top bit, and for patterns of one sign the magnitude bits
//! order the values. A comparison involving a NaN pattern is always false.

use vstd::prelude::*;

verus! {

/// The sign bit of a binary64 pattern.
pub const SIGN_BIT: u64 = 0x8000_0000_0000_0000;

/// Magnitude bits of positive or negative infinity; any greater magnitude is NaN.
pub const INFINITY_MAGNITUDE: u64 = 0x7FF0_0000_0000_0000;

/// The pattern of negative infinity, the least non-NaN pattern in this order.
pub const NEG_INFINITY_BITS: u64 = 0xFFF0_0000_0000_0000;

/// The pattern of positive zero.
pub const POS_ZERO_BITS: u64 = 0;

/// The magnitude of a pattern: its bits with the sign bit cleared.
pub open spec fn magnitude(b: u64) -> u64 {
    if b >= SIGN_BIT {
        (b - SIGN_BIT) as u64
    } else {
        b
    }
}

/// A pattern encodes NaN when its magnitude bits exceed those of infinity.
pub open spec fn is_nan(b: u64) -> bool {
    magnitude(b) > INFINITY_MAGNITUDE
}

/// The position of a non-NaN pattern in the value order: negative patterns
/// sort by descending magnitude below the non-negative ones. Both zero
/// patterns get key 0, as the two floating-point zeros compare equal.
pub open spec fn order_key(b: u64) -> int {
    if b >= SIGN_BIT {
        -(magnitude(b) as int)
    } else {
        b as int
    }
}

/// The strict floating-point `<` on patterns: false on NaN, else by key.
pub open spec fn ieee_lt(a: u64, b: u64) -> bool {
    !is_nan(a) && !is_nan(b) && order_key(a) < order_key(b)
}

/// The floating-point `<=` on patterns: false on NaN, else by key.
pub open spec fn ieee_le(a: u64, b: u64) -> bool {
    !is_nan(a) && !is_nan(b) && order_key(a) <= order_key(b)
}

/// Whether the pattern encodes NaN.
pub fn float_is_nan(b: u64) -> (r: bool)
    ensures
        r == is_nan(b),
{
    let m: u64 = if b >= SIGN_BIT {
        b - SIGN_BIT
    } else {
        b
    };
    m > INFINITY_MAGNITUDE
}

/// The strict floating-point `<` on patterns.
pub fn float_lt(a: u64, b: u64) -> (r: bool)
    ensures
        r == ieee_lt(a, b),
{
    if float_is_nan(a) || float_is_nan(b) {
        return false;
    }
    let a_negative = a >= SIGN_BIT;
    let b_negative = b >= SIGN_BIT;
    if a_negative && b_negative {
        b - SIGN_BIT < a - SIGN_BIT
    } else if a_negative {
        !(a == SIGN_BIT && b == 0)
    } else if b_negative {
        false
    } else {
        a < b
    }
}

/// The floating-point `<=` on patterns.
pub fn float_le(a: u64, b: u64) -> (r: bool)
    ensures
        r == ieee_le(a, b),
{
    if float_is_nan(a) || float_is_nan(b) {
        return false;
    }
    !float_lt(b, a)
}

/// The absolute value on patterns: the sign bit is cleared.
pub fn float_abs(b: u64) -> (r: u64)
    ensures
        r == magnitude(b),
{
    if b >= SIGN_BIT {
        b - SIGN_BIT
    } else {
        b
    }
}

} // verus!

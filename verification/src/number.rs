//! Integers narrowed to a width, and doubles ordered by their bit patterns.

use crate::shape::IntWidth;
use vstd::prelude::*;

verus! {

/// The drawn integer narrowed to the width: its low bits, read as a number
/// of that width.
pub open spec fn narrowed(drawn: i64, width: IntWidth) -> i128 {
    match width {
        IntWidth::I32 => (drawn as i32) as i128,
        IntWidth::I64 => drawn as i128,
        IntWidth::U32 => (drawn as u32) as i128,
        IntWidth::U64 => (drawn as u64) as i128,
        IntWidth::Isize => (drawn as isize) as i128,
        IntWidth::Usize => (drawn as usize) as i128,
    }
}

/// Whether the width holds the number as it is.
pub open spec fn fits(width: IntWidth, x: int) -> bool {
    match width {
        IntWidth::I32 => i32::MIN <= x <= i32::MAX,
        IntWidth::I64 => i64::MIN <= x <= i64::MAX,
        IntWidth::U32 => 0 <= x <= u32::MAX,
        IntWidth::U64 => 0 <= x <= u64::MAX,
        IntWidth::Isize => isize::MIN <= x <= isize::MAX,
        IntWidth::Usize => 0 <= x <= usize::MAX,
    }
}

/// Narrows a drawn integer to the width.
pub fn narrow(drawn: i64, width: IntWidth) -> (v: i128)
    ensures
        v == narrowed(drawn, width),
{
    match width {
        IntWidth::I32 => (drawn as i32) as i128,
        IntWidth::I64 => drawn as i128,
        IntWidth::U32 => (drawn as u32) as i128,
        IntWidth::U64 => (drawn as u64) as i128,
        IntWidth::Isize => (drawn as isize) as i128,
        IntWidth::Usize => (drawn as usize) as i128,
    }
}

/// Narrowing leaves a number that fits the width as it is.
pub proof fn lemma_narrowed_fits(drawn: i64, width: IntWidth)
    requires
        fits(width, drawn as int),
    ensures
        narrowed(drawn, width) == drawn,
{
}

/// The bit that holds the sign of a double.
pub const SIGN_BIT: u64 = 0x8000_0000_0000_0000;

/// The bit pattern of positive infinity: the least magnitude that is no
/// finite number.
pub const INFINITY_BITS: u64 = 0x7FF0_0000_0000_0000;

/// The bit pattern without its sign.
pub open spec fn magnitude(bits: u64) -> int {
    if bits >= SIGN_BIT {
        bits - SIGN_BIT
    } else {
        bits as int
    }
}

/// Whether the bit pattern is that of a finite double.
pub open spec fn is_finite(bits: u64) -> bool {
    magnitude(bits) < INFINITY_BITS
}

/// An integer that orders finite doubles as their values are ordered: the
/// magnitude, negated where the sign is set. Both zeros have key 0.
pub open spec fn order_key(bits: u64) -> int {
    if bits >= SIGN_BIT {
        -magnitude(bits)
    } else {
        magnitude(bits)
    }
}

/// Whether both are finite doubles and the first is less than the second.
pub open spec fn float_less(a: u64, b: u64) -> bool {
    is_finite(a) && is_finite(b) && order_key(a) < order_key(b)
}

/// Whether all three are finite doubles and `low <= x < high`.
pub open spec fn float_within(low: u64, x: u64, high: u64) -> bool {
    &&& is_finite(low)
    &&& is_finite(x)
    &&& is_finite(high)
    &&& order_key(low) <= order_key(x) < order_key(high)
}

/// The order key of a bit pattern.
pub fn key_of(bits: u64) -> (key: i128)
    ensures
        key == order_key(bits),
{
    if bits >= SIGN_BIT {
        -((bits - SIGN_BIT) as i128)
    } else {
        bits as i128
    }
}

/// Whether the bit pattern is that of a finite double.
pub fn finite(bits: u64) -> (r: bool)
    ensures
        r == is_finite(bits),
{
    if bits >= SIGN_BIT {
        bits - SIGN_BIT < INFINITY_BITS
    } else {
        bits < INFINITY_BITS
    }
}

/// Whether both are finite doubles and the first is less than the second.
pub fn less(a: u64, b: u64) -> (r: bool)
    ensures
        r == float_less(a, b),
{
    finite(a) && finite(b) && key_of(a) < key_of(b)
}

/// Whether all three are finite doubles and `low <= x < high`.
pub fn within(low: u64, x: u64, high: u64) -> (r: bool)
    ensures
        r == float_within(low, x, high),
{
    finite(low) && finite(x) && finite(high) && key_of(low) <= key_of(x) && key_of(x) < key_of(
        high,
    )
}

} // verus!

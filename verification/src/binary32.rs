//! Numbers as the 32 bits of their IEEE 754 binary32 encoding.
//!
//! An encoding is one sign bit followed by 31 bits of magnitude. Among the
//! encodings that are numbers, a larger magnitude means a larger absolute value, so
//! the signed magnitude, here called the rank, puts them in numeric order. Both
//! zeros get rank 0 and so compare equal. A magnitude above that of infinity
//! encodes no number: it has no rank, and no comparison with it holds.
use vstd::prelude::*;

verus! {

/// Encodings from this value upwards have the sign bit set.
pub const SIGN_BIT: u32 = 0x8000_0000;

/// The magnitude of the two infinities; every larger magnitude is not a number.
pub const INFINITY: u32 = 0x7f80_0000;

/// The number zero, with a clear sign bit.
pub const ZERO: u32 = 0;

/// The number one.
pub const ONE: u32 = 0x3f80_0000;

/// The encoding without its sign bit.
pub open spec fn magnitude(bits: u32) -> int {
    if bits >= SIGN_BIT {
        bits - SIGN_BIT
    } else {
        bits as int
    }
}

/// Whether the encoding stands for a number, finite or infinite.
pub open spec fn is_number(bits: u32) -> bool {
    magnitude(bits) <= INFINITY
}

/// The place of a number in numeric order: its magnitude, negated under a sign bit.
pub open spec fn rank(bits: u32) -> int {
    if bits >= SIGN_BIT {
        -magnitude(bits)
    } else {
        magnitude(bits)
    }
}

/// Numeric "less than": both sides are numbers and the left one ranks lower.
pub open spec fn below(a: u32, b: u32) -> bool {
    is_number(a) && is_number(b) && rank(a) < rank(b)
}

/// Whether the sign bit is set. This holds of negative zero as well.
pub fn is_sign_negative(bits: u32) -> (negative: bool)
    ensures
        negative == (bits >= SIGN_BIT),
{
    bits >= SIGN_BIT
}

/// Whether the encoding stands for no number.
pub fn is_nan(bits: u32) -> (nan: bool)
    ensures
        nan == !is_number(bits),
{
    abs(bits) > INFINITY
}

/// The absolute value: the same encoding with the sign bit cleared.
pub fn abs(bits: u32) -> (cleared: u32)
    ensures
        cleared == magnitude(bits),
        cleared < SIGN_BIT,
{
    if bits >= SIGN_BIT {
        bits - SIGN_BIT
    } else {
        bits
    }
}

/// The rank of an encoding, or `None` where it encodes no number.
pub fn number_rank(bits: u32) -> (r: Option<i64>)
    ensures
        r == (if is_number(bits) {
            Some(rank(bits) as i64)
        } else {
            None
        }),
        r matches Some(k) ==> k == rank(bits),
{
    let size: u32 = abs(bits);
    if size > INFINITY {
        None
    } else if bits >= SIGN_BIT {
        Some(-(size as i64))
    } else {
        Some(size as i64)
    }
}

/// Numeric `a < b`. False whenever either side is not a number.
pub fn less_than(a: u32, b: u32) -> (less: bool)
    ensures
        less == below(a, b),
{
    match (number_rank(a), number_rank(b)) {
        (Some(x), Some(y)) => x < y,
        _ => false,
    }
}

} // verus!

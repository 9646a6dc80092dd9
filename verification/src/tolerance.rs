//! Comparisons with a margin.
//!
//! Rounding moves a computed number a little off the value it stands for, so the
//! tests at a shape's boundary leave a margin of `EPSILON` on the side of a hit.
use vstd::prelude::*;
use crate::binary32::{abs, below, is_number, less_than, magnitude};

verus! {

/// The margin of every tolerant comparison: the encoding of 0.0005.
pub const EPSILON: u32 = 0x3a03_126f;

/// The margin with its sign bit set: the encoding of -0.0005.
pub const NEGATIVE_EPSILON: u32 = 0xba03_126f;

/// Whether a number is nearer to zero than the margin.
pub open spec fn near_zero(bits: u32) -> bool {
    is_number(bits) && magnitude(bits) < EPSILON
}

/// Whether a number lies below zero by more than the margin.
pub open spec fn clearly_negative(bits: u32) -> bool {
    below(bits, NEGATIVE_EPSILON)
}

/// Whether a number lies above zero by more than the margin.
pub open spec fn clearly_positive(bits: u32) -> bool {
    below(EPSILON, bits)
}

/// Whether the absolute value of `bits` is less than the margin.
pub fn is_zero(bits: u32) -> (zero: bool)
    ensures
        zero == near_zero(bits),
{
    less_than(abs(bits), EPSILON)
}

/// Whether `bits` is less than the negated margin.
pub fn is_negative(bits: u32) -> (negative: bool)
    ensures
        negative == clearly_negative(bits),
{
    less_than(bits, NEGATIVE_EPSILON)
}

/// Whether `bits` is greater than the margin.
pub fn is_positive(bits: u32) -> (positive: bool)
    ensures
        positive == clearly_positive(bits),
{
    less_than(EPSILON, bits)
}

} // verus!

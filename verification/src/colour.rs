//! Bringing a colour into the range that can be shown.
//!
//! While light is added up, a channel of a colour may take any value. Before a
//! colour is turned into bytes each channel is clamped into the range from zero to
//! just under one.
use vstd::prelude::*;
use crate::binary32::{below, is_nan, is_number, less_than, rank, ZERO};

verus! {

/// The largest value a channel may have when it is turned into a byte: the
/// encoding of 0.999.
pub const CHANNEL_MAX: u32 = 0x3f7f_be77;

/// `val` held between `min` and `max`: `min` where `val` is below it or is no
/// number, `max` where `val` is above it, and else `val` itself.
pub open spec fn clamped(val: u32, min: u32, max: u32) -> u32 {
    if !is_number(val) || below(val, min) {
        min
    } else if below(max, val) {
        max
    } else {
        val
    }
}

/// Holds `val` between `min` and `max`.
///
/// Where the limits are numbers and `min` is not above `max`, the result is a
/// number between the two, whatever `val` is: a `val` that is no number is held at
/// `min`.
pub fn clamp(val: u32, min: u32, max: u32) -> (held: u32)
    ensures
        held == clamped(val, min, max),
        is_number(min) && is_number(max) && rank(min) <= rank(max) ==> is_number(held) && rank(
            min,
        ) <= rank(held) <= rank(max),
{
    if is_nan(val) || less_than(val, min) {
        return min;
    }
    if less_than(max, val) {
        return max;
    }
    val
}

/// Clamps each of the three channels of a colour between zero and `CHANNEL_MAX`.
/// Every channel of the result is a number in that range.
pub fn clamp_colour(colour: [u32; 3]) -> (held: [u32; 3])
    ensures
        held@ == seq![
            clamped(colour[0], ZERO, CHANNEL_MAX),
            clamped(colour[1], ZERO, CHANNEL_MAX),
            clamped(colour[2], ZERO, CHANNEL_MAX),
        ],
        forall|i: int| 0 <= i < 3 ==> is_number(#[trigger] held@[i]) && 0 <= rank(held@[i]) <= CHANNEL_MAX,
{
    [
        clamp(colour[0], ZERO, CHANNEL_MAX),
        clamp(colour[1], ZERO, CHANNEL_MAX),
        clamp(colour[2], ZERO, CHANNEL_MAX),
    ]
}

} // verus!

//! Where a pixel lies in the frame buffer.
//!
//! A frame is a flat buffer of bytes, three to a pixel: red, green, blue. Pixels
//! are numbered row by row from the first row, and from left to right in a row.
use vstd::prelude::*;
use crate::constants::Colour;

verus! {

/// The number of whole pixels that a buffer of `bytes` bytes holds.
pub fn pixel_count(bytes: usize) -> (count: usize)
    ensures
        count == bytes / 3,
{
    bytes / 3
}

/// The column and the row of pixel `index` in a picture `width` pixels wide.
pub fn pixel_position(index: usize, width: usize) -> (position: (usize, usize))
    requires
        width > 0,
    ensures
        position.0 == index % width,
        position.1 == index / width,
        position.0 < width,
        position.1 * width + position.0 == index,
{
    proof {
        vstd::arithmetic::div_mod::lemma_fundamental_div_mod(index as int, width as int);
        vstd::arithmetic::div_mod::lemma_mod_bound(index as int, width as int);
        vstd::arithmetic::mul::lemma_mul_is_commutative(width as int, index as int / width as int);
    }
    (index % width, index / width)
}

/// Writes `colour` into the three bytes of pixel `index`, and nothing else.
pub fn store_pixel(screen: &mut [u8], index: usize, colour: Colour)
    requires
        3 * index + 3 <= old(screen).len(),
    ensures
        final(screen)@ == old(screen)@.update(3 * index, colour[0]).update(
            3 * index + 1,
            colour[1],
        ).update(3 * index + 2, colour[2]),
{
    let first: usize = 3 * index;
    screen[first] = colour[0];
    screen[first + 1] = colour[1];
    screen[first + 2] = colour[2];
}

} // verus!

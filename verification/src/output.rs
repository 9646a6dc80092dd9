//! A finished frame as the text of a plain PPM picture.
//!
//! The text starts with the line that marks the plain format, a capital P and the
//! digit 3, then the width and the height on one line, and the line `255`, the
//! largest value of a channel. Then comes one line for each pixel, with its red,
//! green and blue in decimal, a space between them. Bytes left over behind the
//! last whole pixel are not written.
use vstd::prelude::*;

verus! {

/// The byte of a line feed.
pub const LINE_FEED: u8 = 10;

/// The byte of a space.
pub const SPACE: u8 = 32;

/// The byte of the digit zero.
pub const DIGIT_ZERO: u8 = 48;

/// The byte of the capital letter P.
pub const LETTER_P: u8 = 80;

/// The decimal digits of `n`, the first digit first, without leading zeros.
pub open spec fn decimal(n: nat) -> Seq<u8>
    decreases n,
{
    if n < 10 {
        seq![(DIGIT_ZERO + n) as u8]
    } else {
        decimal(n / 10).push((DIGIT_ZERO + n % 10) as u8)
    }
}

/// The three lines that head the picture.
pub open spec fn header(width: nat, height: nat) -> Seq<u8> {
    seq![LETTER_P] + decimal(3) + seq![LINE_FEED] + decimal(width) + seq![SPACE] + decimal(height)
        + seq![LINE_FEED] + decimal(255) + seq![LINE_FEED]
}

/// The line of one pixel.
pub open spec fn pixel_line(red: u8, green: u8, blue: u8) -> Seq<u8> {
    decimal(red as nat) + seq![SPACE] + decimal(green as nat) + seq![SPACE] + decimal(blue as nat)
        + seq![LINE_FEED]
}

/// The lines of the first `count` pixels of a frame.
pub open spec fn pixel_lines(screen: Seq<u8>, count: nat) -> Seq<u8>
    recommends
        3 * count <= screen.len(),
    decreases count,
{
    if count == 0 {
        Seq::empty()
    } else {
        pixel_lines(screen, (count - 1) as nat) + pixel_line(
            screen[3 * (count - 1)],
            screen[3 * (count - 1) + 1],
            screen[3 * (count - 1) + 2],
        )
    }
}

/// The whole text of a picture: the header, then a line for each whole pixel.
pub open spec fn ppm(width: nat, height: nat, screen: Seq<u8>) -> Seq<u8> {
    header(width, height) + pixel_lines(screen, screen.len() / 3)
}

/// Appends the decimal digits of `n` to `text`.
fn push_decimal(text: &mut Vec<u8>, n: usize)
    ensures
        final(text)@ == old(text)@ + decimal(n as nat),
    decreases n,
{
    if n >= 10 {
        push_decimal(text, n / 10);
    }
    let digit: u8 = (n % 10) as u8;
    text.push(DIGIT_ZERO + digit);
    assert(text@ =~= old(text)@ + decimal(n as nat));
}

/// Appends the line of one pixel to `text`.
fn push_pixel_line(text: &mut Vec<u8>, red: u8, green: u8, blue: u8)
    ensures
        final(text)@ == old(text)@ + pixel_line(red, green, blue),
{
    push_decimal(text, red as usize);
    text.push(SPACE);
    push_decimal(text, green as usize);
    text.push(SPACE);
    push_decimal(text, blue as usize);
    text.push(LINE_FEED);
    assert(text@ =~= old(text)@ + pixel_line(red, green, blue));
}

/// Writes a frame of `width` by `height` pixels out as the text of a plain PPM
/// picture.
///
/// The width and the height go into the header as they are given. The pixels are
/// taken from `screen` three bytes at a time, however many there are.
pub fn ppm_text(width: usize, height: usize, screen: &[u8]) -> (text: Vec<u8>)
    ensures
        text@ == ppm(width as nat, height as nat, screen@),
{
    let mut text: Vec<u8> = Vec::new();
    text.push(LETTER_P);
    push_decimal(&mut text, 3);
    text.push(LINE_FEED);
    push_decimal(&mut text, width);
    text.push(SPACE);
    push_decimal(&mut text, height);
    text.push(LINE_FEED);
    push_decimal(&mut text, 255);
    text.push(LINE_FEED);
    assert(text@ =~= header(width as nat, height as nat));
    let bytes: usize = screen.len();
    let count: usize = bytes / 3;
    let mut done: usize = 0;
    while done < count
        invariant
            done <= count,
            bytes == screen@.len(),
            count == bytes / 3,
            text@ == header(width as nat, height as nat) + pixel_lines(screen@, done as nat),
        decreases count - done,
    {
        let first: usize = 3 * done;
        push_pixel_line(&mut text, screen[first], screen[first + 1], screen[first + 2]);
        done = done + 1;
        assert(text@ =~= header(width as nat, height as nat) + pixel_lines(screen@, done as nat));
    }
    text
}

} // verus!

//! The size of the picture and the budgets of the tracer.
use vstd::prelude::*;

verus! {

/// The height of the picture in pixels.
pub const SCREEN_HEIGHT: usize = 200;

/// The width of the picture in pixels: sixteen to nine against the height.
pub const SCREEN_WIDTH: usize = SCREEN_HEIGHT * 16 / 9;

/// The number of rays sent through each pixel.
pub const ANTIALIAS_SAMPLES: u32 = 1;

/// The number of bounces a ray may make before its trace ends.
pub const REFLECT_DEPTH: u32 = 5;

/// A colour as it is shown: red, green and blue, each from 0 to 255.
pub type Colour = [u8; 3];

} // verus!

//! The deciding core of a recursive ray tracer.
//!
//! A ray tracer spends its time in real-number geometry, and this crate holds none
//! of it. It holds what is decided on the results of that geometry: whether the
//! numbers of a ray and a shape make a hit, which of the hits along a ray is the
//! nearest, and what the tracer does with that hit at a given recursion depth. It
//! also says where a pixel lies in the frame buffer and how a finished frame is
//! written out as text.
//!
//! A number enters as the 32 bits of its binary32 encoding and is only ever
//! compared, never computed with: see [`binary32`].
pub mod binary32;
pub mod colour;
pub mod constants;
pub mod draw;
pub mod intersect;
pub mod output;
pub mod scene;
pub mod tolerance;
pub mod tracer;

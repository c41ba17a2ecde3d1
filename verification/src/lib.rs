//! Colours in the CIE L\*u\*v\* space and its cylindrical form LCh(uv): what
//! about them is decided rather than computed.
//!
//! A colour is three single-precision numbers, and each is held here as the
//! 32 bits of its format ([`Binary32`]), so that every statement about a
//! colour is a statement about integers:
//!
//! * when two colours are equal ([`Luv`]'s `==` and [`LCh::likeness`]), with
//!   black and grey set apart, and the rule behind both ([`rule`]);
//! * which piece of the lightness law applies to a luminance or a lightness
//!   ([`lightness`]);
//! * how sRGB colours lie in a flat run of bytes ([`triples`]), and how an
//!   alpha channel is dropped ([`subarray`]).
//!
//! The arithmetic on the numbers is the caller's.
pub mod array;
pub mod binary32;
pub mod colour;
pub mod lightness;
pub mod rule;
pub mod triples;

pub use array::subarray;
pub use binary32::Binary32;
pub use colour::{LCh, Likeness, Luv};

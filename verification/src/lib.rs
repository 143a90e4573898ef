//! Color representation primitives.
//!
//! Four three-channel value types — gamma-encoded sRGB (`Rgb`), CIE XYZ
//! (`Xyz`), CIE L*a*b* (`Lab`) and its cylindrical form CIE L*C*h (`Lch`) —
//! each generic over the numeric encoding of its channels, together with a
//! generic channel-wise interpolation operation (`Interp`) and a channel
//! mapping helper for bridging `Rgb` encodings.

use vstd::prelude::*;

pub mod convert;
pub mod interp;

pub use interp::Interp;

verus! {

/// Gamma-encoded sRGB color: red, green and blue channels.
#[derive(Debug, Copy, Clone, PartialEq, Eq, Hash, Structural)]
pub struct Rgb<T> {
    pub r: T,
    pub g: T,
    pub b: T,
}

/// CIE XYZ tristimulus color (D65-referenced white point).
#[derive(Debug, Copy, Clone, PartialEq, Eq, Hash, Structural)]
pub struct Xyz<T> {
    pub x: T,
    pub y: T,
    pub z: T,
}

/// CIE L*a*b* color: lightness and two opponent chroma axes.
#[derive(Debug, Copy, Clone, PartialEq, Eq, Hash, Structural)]
pub struct Lab<T> {
    pub l: T,
    pub a: T,
    pub b: T,
}

/// CIE L*C*h color: the cylindrical form of L*a*b*, with chroma magnitude
/// and a hue angle.
#[derive(Debug, Copy, Clone, PartialEq, Eq, Hash, Structural)]
pub struct Lch<T> {
    pub l: T,
    pub c: T,
    pub h: T,
}

} // verus!

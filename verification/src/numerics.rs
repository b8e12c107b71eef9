//! The numeric types that run through the library.
use vstd::prelude::*;

verus! {

/// A single-precision number carried as its IEEE-754 bit pattern. The library
/// moves such numbers about and never computes with them.
pub type Float32 = u32;

/// The bit pattern of one.
pub const ONE: Float32 = 0x3F80_0000;

/// The bit pattern of zero.
pub const ZERO: Float32 = 0;

/// A direction in the plane.
#[derive(Debug, Copy, Clone, PartialEq, Eq, Structural)]
pub struct Vector2F {
    pub x: Float32,
    pub y: Float32,
}

/// A direction in space.
#[derive(Debug, Copy, Clone, PartialEq, Eq, Structural)]
pub struct Vector3F {
    pub x: Float32,
    pub y: Float32,
    pub z: Float32,
}

/// A point in space.
#[derive(Debug, Copy, Clone, PartialEq, Eq, Structural)]
pub struct Point3F {
    pub x: Float32,
    pub y: Float32,
    pub z: Float32,
}

} // verus!

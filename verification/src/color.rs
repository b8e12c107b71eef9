//! Colours with three or four channels over an abstract channel type.
use vstd::prelude::*;
use crate::numerics::Float32;

verus! {

/// A channel type: it names the values of full and of zero intensity.
pub trait ColorScalar: Sized {
    const WHITE: Self;
    const BLACK: Self;
}

impl ColorScalar for u8 {
    const WHITE: u8 = 255;
    const BLACK: u8 = 0;
}

/// Channels in single precision: full intensity is the bit pattern of one.
impl ColorScalar for u32 {
    const WHITE: u32 = 0x3F80_0000;
    const BLACK: u32 = 0;
}

/// The intensities of eight-bit channels.
pub proof fn lemma_u8_channels()
    ensures
        <u8 as ColorScalar>::WHITE == 255u8,
        <u8 as ColorScalar>::BLACK == 0u8,
{
}

/// The intensities of channels in single precision: the bit patterns of
/// one and of zero.
pub proof fn lemma_float_channels()
    ensures
        <Float32 as ColorScalar>::WHITE == 0x3F80_0000u32,
        <Float32 as ColorScalar>::BLACK == 0u32,
{
}

#[derive(Debug, Copy, Clone, PartialEq)]
pub struct Color3T<T> {
    pub r: T,
    pub g: T,
    pub b: T,
}

impl<T: ColorScalar> Color3T<T> {
    pub fn from_rgb(r: T, g: T, b: T) -> (c: Self)
        ensures
            c == (Color3T { r, g, b }),
    {
        Self { r, g, b }
    }

    pub fn white() -> (c: Self)
        ensures
            c == (Color3T { r: T::WHITE, g: T::WHITE, b: T::WHITE }),
    {
        Self::from_rgb(T::WHITE, T::WHITE, T::WHITE)
    }

    pub fn black() -> (c: Self)
        ensures
            c == (Color3T { r: T::BLACK, g: T::BLACK, b: T::BLACK }),
    {
        Self::from_rgb(T::BLACK, T::BLACK, T::BLACK)
    }

    pub fn red() -> (c: Self)
        ensures
            c == (Color3T { r: T::WHITE, g: T::BLACK, b: T::BLACK }),
    {
        Self::from_rgb(T::WHITE, T::BLACK, T::BLACK)
    }

    pub fn green() -> (c: Self)
        ensures
            c == (Color3T { r: T::BLACK, g: T::WHITE, b: T::BLACK }),
    {
        Self::from_rgb(T::BLACK, T::WHITE, T::BLACK)
    }

    pub fn blue() -> (c: Self)
        ensures
            c == (Color3T { r: T::BLACK, g: T::BLACK, b: T::WHITE }),
    {
        Self::from_rgb(T::BLACK, T::BLACK, T::WHITE)
    }
}

#[derive(Debug, Copy, Clone, PartialEq)]
pub struct Color4T<T> {
    pub r: T,
    pub g: T,
    pub b: T,
    pub a: T,
}

impl<T: ColorScalar + Copy> Color4T<T> {
    pub fn from_rgba(r: T, g: T, b: T, a: T) -> (c: Self)
        ensures
            c == (Color4T { r, g, b, a }),
    {
        Self { r, g, b, a }
    }

    /// The three channels of `rgb` with the opacity `a`.
    pub fn from_color3_alpha(rgb: Color3T<T>, a: T) -> (c: Self)
        ensures
            c == (Color4T { r: rgb.r, g: rgb.g, b: rgb.b, a }),
    {
        Self { r: rgb.r, g: rgb.g, b: rgb.b, a }
    }

    /// An opaque colour.
    pub fn from_rgb(r: T, g: T, b: T) -> (c: Self)
        ensures
            c == (Color4T { r, g, b, a: T::WHITE }),
    {
        Self { r, g, b, a: T::WHITE }
    }

    /// The three channels of `rgb`, opaque.
    pub fn from_color3(rgb: Color3T<T>) -> (c: Self)
        ensures
            c == (Color4T { r: rgb.r, g: rgb.g, b: rgb.b, a: T::WHITE }),
    {
        Self::from_color3_alpha(rgb, T::WHITE)
    }

    pub fn white() -> (c: Self)
        ensures
            c == (Color4T { r: T::WHITE, g: T::WHITE, b: T::WHITE, a: T::WHITE }),
    {
        Self::from_rgb(T::WHITE, T::WHITE, T::WHITE)
    }

    pub fn black() -> (c: Self)
        ensures
            c == (Color4T { r: T::BLACK, g: T::BLACK, b: T::BLACK, a: T::WHITE }),
    {
        Self::from_rgb(T::BLACK, T::BLACK, T::BLACK)
    }

    pub fn transparent_black() -> (c: Self)
        ensures
            c == (Color4T { r: T::BLACK, g: T::BLACK, b: T::BLACK, a: T::BLACK }),
    {
        Self::from_rgba(T::BLACK, T::BLACK, T::BLACK, T::BLACK)
    }

    pub fn red() -> (c: Self)
        ensures
            c == (Color4T { r: T::WHITE, g: T::BLACK, b: T::BLACK, a: T::WHITE }),
    {
        Self::from_rgb(T::WHITE, T::BLACK, T::BLACK)
    }

    pub fn green() -> (c: Self)
        ensures
            c == (Color4T { r: T::BLACK, g: T::WHITE, b: T::BLACK, a: T::WHITE }),
    {
        Self::from_rgb(T::BLACK, T::WHITE, T::BLACK)
    }

    pub fn blue() -> (c: Self)
        ensures
            c == (Color4T { r: T::BLACK, g: T::BLACK, b: T::WHITE, a: T::WHITE }),
    {
        Self::from_rgb(T::BLACK, T::BLACK, T::WHITE)
    }
}

pub type Color3 = Color3T<u8>;

pub type Color4 = Color4T<u8>;

pub type Color3F = Color3T<Float32>;

pub type Color4F = Color4T<Float32>;

} // verus!

//! Samplers: how a shader reads a texture between and beyond its pixels.
use vstd::prelude::*;
use crate::color::Color4F;
use crate::color::Color4T;
use crate::native::NativeReply;
use crate::native::ResourceError;
use crate::native;
use crate::numerics::Float32;
use crate::numerics::ONE;
use crate::numerics::ZERO;

verus! {

/// Sample interpolation options.
#[derive(Debug, Copy, Clone, PartialEq, Eq, Structural)]
pub enum SampleMode {
    Point,
    Linear,
    Anisotropic,
    ComparisonPoint,
    ComparisonLinear,
    ComparisonAnisotropic,
}

impl SampleMode {
    /// The native filter code.
    pub open spec fn native(self) -> u32 {
        match self {
            SampleMode::Point => 0,
            SampleMode::Linear => 0x15,
            SampleMode::Anisotropic => 0x55,
            SampleMode::ComparisonPoint => 0x80,
            SampleMode::ComparisonLinear => 0x95,
            SampleMode::ComparisonAnisotropic => 0xd5,
        }
    }

    pub fn to_native(self) -> (code: u32)
        ensures
            code == self.native(),
    {
        match self {
            SampleMode::Point => 0,
            SampleMode::Linear => 0x15,
            SampleMode::Anisotropic => 0x55,
            SampleMode::ComparisonPoint => 0x80,
            SampleMode::ComparisonLinear => 0x95,
            SampleMode::ComparisonAnisotropic => 0xd5,
        }
    }
}

/// How to handle going off the edge of the texture.
#[derive(Debug, Copy, Clone, PartialEq, Eq, Structural)]
pub enum AddressMode {
    Wrap,
    Mirror,
    Clamp,
    BorderColor,
    MirrorOnce,
}

impl AddressMode {
    /// The native address mode.
    pub open spec fn native(self) -> u32 {
        match self {
            AddressMode::Wrap => 1,
            AddressMode::Mirror => 2,
            AddressMode::Clamp => 3,
            AddressMode::BorderColor => 4,
            AddressMode::MirrorOnce => 5,
        }
    }

    pub fn to_native(self) -> (code: u32)
        ensures
            code == self.native(),
    {
        match self {
            AddressMode::Wrap => 1,
            AddressMode::Mirror => 2,
            AddressMode::Clamp => 3,
            AddressMode::BorderColor => 4,
            AddressMode::MirrorOnce => 5,
        }
    }
}

/// Sampler comparison function.
#[derive(Debug, Copy, Clone, PartialEq, Eq, Structural)]
pub enum ComparisonFunc {
    Never,
    LessThan,
    Equal,
    LessOrEqual,
    GreatherThan,
    NotEqual,
    GreaterOrEqual,
    Always,
}

impl ComparisonFunc {
    /// The native comparison function.
    pub open spec fn native(self) -> u32 {
        match self {
            ComparisonFunc::Never => 1,
            ComparisonFunc::LessThan => 2,
            ComparisonFunc::Equal => 3,
            ComparisonFunc::LessOrEqual => 4,
            ComparisonFunc::GreatherThan => 5,
            ComparisonFunc::NotEqual => 6,
            ComparisonFunc::GreaterOrEqual => 7,
            ComparisonFunc::Always => 8,
        }
    }

    pub fn to_native(self) -> (code: u32)
        ensures
            code == self.native(),
    {
        match self {
            ComparisonFunc::Never => 1,
            ComparisonFunc::LessThan => 2,
            ComparisonFunc::Equal => 3,
            ComparisonFunc::LessOrEqual => 4,
            ComparisonFunc::GreatherThan => 5,
            ComparisonFunc::NotEqual => 6,
            ComparisonFunc::GreaterOrEqual => 7,
            ComparisonFunc::Always => 8,
        }
    }
}

/// Border color options.
#[derive(Debug, Copy, Clone, PartialEq, Eq, Structural)]
pub enum BorderColor {
    OpaqueBlack,
    OpaqueWhite,
    TransparentBlack,
    TransparentWhite,
}

impl BorderColor {
    /// The colour itself, in single precision: black has its colour
    /// channels at zero and white at one; an opaque colour has alpha one
    /// and a transparent colour alpha zero.
    pub open spec fn color(self) -> Color4F {
        match self {
            BorderColor::OpaqueBlack => Color4T { r: ZERO, g: ZERO, b: ZERO, a: ONE },
            BorderColor::OpaqueWhite => Color4T { r: ONE, g: ONE, b: ONE, a: ONE },
            BorderColor::TransparentBlack => Color4T { r: ZERO, g: ZERO, b: ZERO, a: ZERO },
            BorderColor::TransparentWhite => Color4T { r: ONE, g: ONE, b: ONE, a: ZERO },
        }
    }

    pub fn to_color(self) -> (c: Color4F)
        ensures
            c == self.color(),
    {
        match self {
            BorderColor::OpaqueBlack => Color4T { r: ZERO, g: ZERO, b: ZERO, a: ONE },
            BorderColor::OpaqueWhite => Color4T { r: ONE, g: ONE, b: ONE, a: ONE },
            BorderColor::TransparentBlack => Color4T { r: ZERO, g: ZERO, b: ZERO, a: ZERO },
            BorderColor::TransparentWhite => Color4T { r: ONE, g: ONE, b: ONE, a: ZERO },
        }
    }
}

/// Data for the sampler.
#[derive(Debug, Copy, Clone, PartialEq)]
pub struct SamplerData {
    pub mode: SampleMode,
    pub address_u: AddressMode,
    pub address_v: AddressMode,
    pub address_w: AddressMode,
    pub comparison: ComparisonFunc,
    pub lod_bias: Float32,
    pub max_anisotropy: u32,
    pub border_color: BorderColor,
    pub min_lod: Float32,
    pub max_lod: Float32,
}

/// The description of a sampler, as the device takes it.
#[derive(Debug, Copy, Clone, PartialEq)]
pub struct SamplerDesc {
    pub filter: u32,
    pub address_u: u32,
    pub address_v: u32,
    pub address_w: u32,
    pub mip_lod_bias: Float32,
    pub max_anisotropy: u32,
    pub comparison_func: u32,
    pub border_color: Color4F,
    pub min_lod: Float32,
    pub max_lod: Float32,
}

impl SamplerData {
    /// The native description: every enum through its table, every number
    /// as it is.
    pub open spec fn desc(self) -> SamplerDesc {
        SamplerDesc {
            filter: self.mode.native(),
            address_u: self.address_u.native(),
            address_v: self.address_v.native(),
            address_w: self.address_w.native(),
            mip_lod_bias: self.lod_bias,
            max_anisotropy: self.max_anisotropy,
            comparison_func: self.comparison.native(),
            border_color: self.border_color.color(),
            min_lod: self.min_lod,
            max_lod: self.max_lod,
        }
    }
}

/// A sampler state of the device, with the data it was made from.
#[derive(Debug, PartialEq)]
pub struct Sampler {
    pub data: SamplerData,
    pub samp: u64,
}

impl Sampler {
    /// Describes the sampler for the device.
    pub fn request(data: SamplerData) -> (desc: SamplerDesc)
        ensures
            desc == data.desc(),
    {
        SamplerDesc {
            filter: data.mode.to_native(),
            address_u: data.address_u.to_native(),
            address_v: data.address_v.to_native(),
            address_w: data.address_w.to_native(),
            mip_lod_bias: data.lod_bias,
            max_anisotropy: data.max_anisotropy,
            comparison_func: data.comparison.to_native(),
            border_color: data.border_color.to_color(),
            min_lod: data.min_lod,
            max_lod: data.max_lod,
        }
    }

    /// Makes the sampler from what the device answered to `request`.
    pub fn new(data: SamplerData, reply: NativeReply) -> (r: Result<Sampler, ResourceError>)
        ensures
            !reply.succeeded() ==> r == Err::<Sampler, ResourceError>(
                ResourceError::Rejected(reply.status),
            ),
            reply.succeeded() ==> r == Ok::<Sampler, ResourceError>(
                Sampler { data, samp: reply.object },
            ),
    {
        if !reply.is_ok() {
            Err(ResourceError::Rejected(reply.status))
        } else {
            Ok(Sampler { data, samp: reply.object })
        }
    }

    /// Gives up the native sampler: the object to release, if the sampler
    /// still holds one. The sampler is empty afterwards.
    pub fn release(&mut self) -> (released: Option<u64>)
        ensures
            old(self).samp != 0 ==> released == Some(old(self).samp),
            old(self).samp == 0 ==> released is None,
            *final(self) == (Sampler { samp: 0, ..*old(self) }),
    {
        native::take_handle(&mut self.samp)
    }
}

} // verus!

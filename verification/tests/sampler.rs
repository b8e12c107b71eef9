use gfx::color::Color4T;
use gfx::native::NativeReply;
use gfx::native::ResourceError;
use gfx::sampler::AddressMode;
use gfx::sampler::BorderColor;
use gfx::sampler::ComparisonFunc;
use gfx::sampler::SampleMode;
use gfx::sampler::Sampler;
use gfx::sampler::SamplerData;
use gfx::sampler::SamplerDesc;

fn sampler_data() -> SamplerData {
    SamplerData {
        mode: SampleMode::Linear,
        address_u: AddressMode::Wrap,
        address_v: AddressMode::Clamp,
        address_w: AddressMode::MirrorOnce,
        comparison: ComparisonFunc::Never,
        lod_bias: 0.0f32.to_bits(),
        max_anisotropy: 1,
        border_color: BorderColor::OpaqueWhite,
        min_lod: (-f32::MAX).to_bits(),
        max_lod: f32::MAX.to_bits(),
    }
}

#[test]
fn sample_mode_codes() {
    assert_eq!(SampleMode::Point.to_native(), 0);
    assert_eq!(SampleMode::Linear.to_native(), 0x15);
    assert_eq!(SampleMode::Anisotropic.to_native(), 0x55);
    assert_eq!(SampleMode::ComparisonPoint.to_native(), 0x80);
    assert_eq!(SampleMode::ComparisonLinear.to_native(), 0x95);
    assert_eq!(SampleMode::ComparisonAnisotropic.to_native(), 0xd5);
}

#[test]
fn address_mode_codes() {
    assert_eq!(AddressMode::Wrap.to_native(), 1);
    assert_eq!(AddressMode::Mirror.to_native(), 2);
    assert_eq!(AddressMode::Clamp.to_native(), 3);
    assert_eq!(AddressMode::BorderColor.to_native(), 4);
    assert_eq!(AddressMode::MirrorOnce.to_native(), 5);
}

#[test]
fn comparison_codes() {
    assert_eq!(ComparisonFunc::Never.to_native(), 1);
    assert_eq!(ComparisonFunc::LessThan.to_native(), 2);
    assert_eq!(ComparisonFunc::Equal.to_native(), 3);
    assert_eq!(ComparisonFunc::LessOrEqual.to_native(), 4);
    assert_eq!(ComparisonFunc::GreatherThan.to_native(), 5);
    assert_eq!(ComparisonFunc::NotEqual.to_native(), 6);
    assert_eq!(ComparisonFunc::GreaterOrEqual.to_native(), 7);
    assert_eq!(ComparisonFunc::Always.to_native(), 8);
}

#[test]
fn border_colors() {
    let one = 1.0f32.to_bits();
    assert_eq!(BorderColor::OpaqueBlack.to_color(), Color4T { r: 0, g: 0, b: 0, a: one });
    assert_eq!(BorderColor::OpaqueWhite.to_color(), Color4T { r: one, g: one, b: one, a: one });
    assert_eq!(BorderColor::TransparentBlack.to_color(), Color4T { r: 0, g: 0, b: 0, a: 0 });
    assert_eq!(BorderColor::TransparentWhite.to_color(), Color4T { r: one, g: one, b: one, a: 0 });
}

#[test]
fn sampler_request_translates_the_data() {
    let one = 1.0f32.to_bits();
    assert_eq!(
        Sampler::request(sampler_data()),
        SamplerDesc {
            filter: 0x15,
            address_u: 1,
            address_v: 3,
            address_w: 5,
            mip_lod_bias: 0,
            max_anisotropy: 1,
            comparison_func: 1,
            border_color: Color4T { r: one, g: one, b: one, a: one },
            min_lod: (-f32::MAX).to_bits(),
            max_lod: f32::MAX.to_bits(),
        }
    );
}

#[test]
fn sampler_follows_the_device() {
    let made = Sampler::new(sampler_data(), NativeReply { status: 0, object: 0x55 }).unwrap();
    assert_eq!(made.samp, 0x55);
    assert_eq!(made.data, sampler_data());
    assert_eq!(
        Sampler::new(sampler_data(), NativeReply { status: -1, object: 0 }),
        Err(ResourceError::Rejected(-1))
    );
}

#[test]
fn sampler_release_is_idempotent() {
    let mut made = Sampler::new(sampler_data(), NativeReply { status: 0, object: 0x55 }).unwrap();
    assert_eq!(made.release(), Some(0x55));
    assert_eq!(made.release(), None);
    assert_eq!(made.data, sampler_data());
}

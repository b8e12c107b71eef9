use gfx::color::Color3;
use gfx::color::Color3F;
use gfx::color::Color3T;
use gfx::color::Color4;
use gfx::color::Color4F;
use gfx::color::Color4T;
use gfx::color::ColorScalar;

#[test]
fn channel_constants() {
    assert_eq!(<u8 as ColorScalar>::WHITE, 255);
    assert_eq!(<u8 as ColorScalar>::BLACK, 0);
    assert_eq!(f32::from_bits(<u32 as ColorScalar>::WHITE), 1.0f32);
    assert_eq!(f32::from_bits(<u32 as ColorScalar>::BLACK), 0.0f32);
}

#[test]
fn color3_constructors() {
    assert_eq!(Color3::from_rgb(1, 2, 3), Color3T { r: 1, g: 2, b: 3 });
    assert_eq!(Color3::white(), Color3T { r: 255, g: 255, b: 255 });
    assert_eq!(Color3::black(), Color3T { r: 0, g: 0, b: 0 });
    assert_eq!(Color3::red(), Color3T { r: 255, g: 0, b: 0 });
    assert_eq!(Color3::green(), Color3T { r: 0, g: 255, b: 0 });
    assert_eq!(Color3::blue(), Color3T { r: 0, g: 0, b: 255 });
}

#[test]
fn color3_in_single_precision() {
    let one = 1.0f32.to_bits();
    assert_eq!(Color3F::white(), Color3T { r: one, g: one, b: one });
    assert_eq!(Color3F::red(), Color3T { r: one, g: 0, b: 0 });
}

#[test]
fn color4_constructors() {
    assert_eq!(Color4::from_rgba(1, 2, 3, 4), Color4T { r: 1, g: 2, b: 3, a: 4 });
    assert_eq!(Color4::from_rgb(1, 2, 3), Color4T { r: 1, g: 2, b: 3, a: 255 });
    assert_eq!(Color4::white(), Color4T { r: 255, g: 255, b: 255, a: 255 });
    assert_eq!(Color4::black(), Color4T { r: 0, g: 0, b: 0, a: 255 });
    assert_eq!(Color4::transparent_black(), Color4T { r: 0, g: 0, b: 0, a: 0 });
    assert_eq!(Color4::red(), Color4T { r: 255, g: 0, b: 0, a: 255 });
    assert_eq!(Color4::green(), Color4T { r: 0, g: 255, b: 0, a: 255 });
    assert_eq!(Color4::blue(), Color4T { r: 0, g: 0, b: 255, a: 255 });
}

#[test]
fn color4_from_color3() {
    let rgb = Color3::from_rgb(10, 20, 30);
    assert_eq!(Color4::from_color3_alpha(rgb, 40), Color4T { r: 10, g: 20, b: 30, a: 40 });
    assert_eq!(Color4::from_color3(rgb), Color4T { r: 10, g: 20, b: 30, a: 255 });
    assert_eq!(Color4::from_color3(Color3::from_rgb(1, 2, 3)), Color4T { r: 1, g: 2, b: 3, a: 255 });
}

#[test]
fn color4_in_single_precision() {
    let one = 1.0f32.to_bits();
    assert_eq!(Color4F::black(), Color4T { r: 0, g: 0, b: 0, a: one });
    assert_eq!(Color4F::transparent_black(), Color4T { r: 0, g: 0, b: 0, a: 0 });
    let c = Color4F::from_rgba(0.3f32.to_bits(), 0.5f32.to_bits(), 0.25f32.to_bits(), one);
    assert_eq!(f32::from_bits(c.g), 0.5f32);
}

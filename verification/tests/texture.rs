use gfx::device::Event;
use gfx::device::Request;
use gfx::native::InitData;
use gfx::native::NativeReply;
use gfx::native::ResourceError;
use gfx::texture::expand_rgb;
use gfx::texture::Image;
use gfx::texture::LoadResult;
use gfx::texture::Pixels;
use gfx::texture::Texture;
use gfx::texture::Texture2dDesc;
use gfx::texture::TextureFormat;
use gfx::texture::TextureLoad;
use gfx::texture::TextureRequest;

#[test]
fn texture_format_codes() {
    assert_eq!(TextureFormat::R8UNorm.to_native(), 61);
    assert_eq!(TextureFormat::R8G8UNorm.to_native(), 49);
    assert_eq!(TextureFormat::R8G8B8A8UNorm.to_native(), 28);
    assert_eq!(TextureFormat::R8G8B8A8UNormSrgb.to_native(), 29);
    assert_eq!(TextureFormat::R32Float.to_native(), 41);
    assert_eq!(TextureFormat::R32G32Float.to_native(), 16);
    assert_eq!(TextureFormat::R32G32B32A32Float.to_native(), 2);
}

#[test]
fn texture_format_pixel_sizes() {
    assert_eq!(TextureFormat::R8UNorm.bytes_per_pixel(), 1);
    assert_eq!(TextureFormat::R8G8UNorm.bytes_per_pixel(), 2);
    assert_eq!(TextureFormat::R8G8B8A8UNorm.bytes_per_pixel(), 4);
    assert_eq!(TextureFormat::R8G8B8A8UNormSrgb.bytes_per_pixel(), 4);
    assert_eq!(TextureFormat::R32Float.bytes_per_pixel(), 4);
    assert_eq!(TextureFormat::R32G32Float.bytes_per_pixel(), 8);
    assert_eq!(TextureFormat::R32G32B32A32Float.bytes_per_pixel(), 16);
}

#[test]
fn format_follows_the_channel_count() {
    assert_eq!(TextureFormat::select(1, false), TextureFormat::R8UNorm);
    assert_eq!(TextureFormat::select(2, false), TextureFormat::R8G8UNorm);
    assert_eq!(TextureFormat::select(3, false), TextureFormat::R8G8B8A8UNormSrgb);
    assert_eq!(TextureFormat::select(4, false), TextureFormat::R8G8B8A8UNormSrgb);
    assert_eq!(TextureFormat::select(1, true), TextureFormat::R32Float);
    assert_eq!(TextureFormat::select(2, true), TextureFormat::R32G32Float);
    assert_eq!(TextureFormat::select(3, true), TextureFormat::R32G32B32A32Float);
    assert_eq!(TextureFormat::select(4, true), TextureFormat::R32G32B32A32Float);
}

#[test]
fn texture_request_describes_an_immutable_texture() {
    let request = Texture::request(TextureFormat::R8G8UNorm, 4, 3, 1, false, false, true).unwrap();
    assert_eq!(
        request,
        TextureRequest {
            desc: Texture2dDesc {
                width: 4,
                height: 3,
                mip_levels: 1,
                array_size: 1,
                format: 49,
                sample_count: 1,
                sample_quality: 0,
                usage: 1,
                bind_flags: 8,
                cpu_access_flags: 0,
                misc_flags: 0,
            },
            init: InitData { pitch: 8, slice_pitch: 24 },
        }
    );
}

#[test]
fn texture_request_flags() {
    let both = Texture::request(TextureFormat::R8UNorm, 1, 1, 15, true, true, true).unwrap();
    assert_eq!(both.desc.bind_flags, 0x28);
    assert_eq!(both.desc.misc_flags, 1);
    assert_eq!(both.desc.mip_levels, 15);
    let target = Texture::request(TextureFormat::R8UNorm, 1, 1, 1, false, true, false).unwrap();
    assert_eq!(target.desc.bind_flags, 0x20);
    let neither = Texture::request(TextureFormat::R8UNorm, 1, 1, 1, false, false, false).unwrap();
    assert_eq!(neither.desc.bind_flags, 0);
}

#[test]
fn texture_too_large_for_the_device() {
    assert_eq!(
        Texture::request(TextureFormat::R32G32B32A32Float, 0x1000_0000, 1, 1, false, false, true),
        Err(ResourceError::TooLarge)
    );
    assert_eq!(
        Texture::request(TextureFormat::R8UNorm, 0x10000, 0x10000, 1, false, false, true),
        Err(ResourceError::TooLarge)
    );
    assert!(Texture::request(TextureFormat::R8UNorm, 0xFFFF, 0x10001, 1, false, false, true).is_ok());
}

#[test]
fn texture_data_must_match_the_size() {
    let ok = NativeReply { status: 0, object: 5 };
    let data = [0u8; 24];
    assert_eq!(
        Texture::new_texture2d(TextureFormat::R8G8UNorm, 4, 3, 1, false, false, true, &data, ok),
        Ok(Texture { format: TextureFormat::R8G8UNorm, width: 4, height: 3, depth: 1, res: 5 })
    );
    assert_eq!(
        Texture::new_texture2d(TextureFormat::R8G8UNorm, 4, 3, 1, false, false, true, &data[..23], ok),
        Err(ResourceError::SizeMismatch)
    );
    assert_eq!(
        Texture::new_texture2d(TextureFormat::R8G8UNorm, 4, 4, 1, false, false, true, &data, ok),
        Err(ResourceError::SizeMismatch)
    );
    let words = [0u32; 6];
    assert!(Texture::new_texture2d(TextureFormat::R8G8UNorm, 4, 3, 1, false, false, true, &words, ok).is_ok());
}

#[test]
fn texture_follows_the_device() {
    let data = [0u8; 4];
    assert_eq!(
        Texture::new_texture2d(
            TextureFormat::R8G8B8A8UNorm, 1, 1, 1, false, false, true, &data,
            NativeReply { status: -3, object: 0 }
        ),
        Err(ResourceError::Rejected(-3))
    );
}

#[test]
fn texture_release_is_idempotent() {
    let mut t = Texture { format: TextureFormat::R8UNorm, width: 1, height: 1, depth: 1, res: 42 };
    assert_eq!(t.release(), Some(42));
    assert_eq!(t.release(), None);
    assert_eq!(t.res, 0);
    assert_eq!(t.width, 1);
}

#[test]
fn three_channels_become_four() {
    assert_eq!(expand_rgb(&[1u8, 2, 3, 4, 5, 6], 255), vec![1, 2, 3, 255, 4, 5, 6, 255]);
    assert_eq!(expand_rgb(&[1u8, 2, 3, 4, 5], 9), vec![1, 2, 3, 9]);
    assert_eq!(expand_rgb::<u8>(&[], 9), Vec::<u8>::new());
}

#[test]
fn image_well_formedness() {
    assert!(Image { width: 2, height: 2, depth: 3, data: vec![0u8; 12] }.is_wf());
    assert!(!Image { width: 2, height: 2, depth: 3, data: vec![0u8; 11] }.is_wf());
    assert!(!Image { width: 2, height: 2, depth: 0, data: Vec::<u8>::new() }.is_wf());
    assert!(!Image { width: 1, height: 1, depth: 5, data: vec![0u8; 5] }.is_wf());
    assert!(!Image { width: usize::MAX, height: 2, depth: 1, data: vec![0u8; 2] }.is_wf());
    assert!(LoadResult::Error("no".to_string()).is_wf());
}

#[test]
fn source_of_an_rgb_image_is_opaque_rgba() {
    let loaded = LoadResult::ImageU8(Image { width: 2, height: 1, depth: 3, data: vec![1, 2, 3, 4, 5, 6] });
    let source = Texture::source_from(loaded).unwrap();
    assert_eq!(source.format, TextureFormat::R8G8B8A8UNormSrgb);
    assert_eq!(source.width, 2);
    assert_eq!(source.height, 1);
    assert_eq!(source.pixels, Pixels::U8(vec![1, 2, 3, 255, 4, 5, 6, 255]));
}

#[test]
fn source_of_other_channel_counts_keeps_the_data() {
    let one = Texture::source_from(LoadResult::ImageU8(Image { width: 2, height: 2, depth: 1, data: vec![9, 8, 7, 6] })).unwrap();
    assert_eq!(one.format, TextureFormat::R8UNorm);
    assert_eq!(one.pixels, Pixels::U8(vec![9, 8, 7, 6]));
    let two = Texture::source_from(LoadResult::ImageU8(Image { width: 1, height: 1, depth: 2, data: vec![9, 8] })).unwrap();
    assert_eq!(two.format, TextureFormat::R8G8UNorm);
    let four = Texture::source_from(LoadResult::ImageU8(Image { width: 1, height: 1, depth: 4, data: vec![1, 2, 3, 4] })).unwrap();
    assert_eq!(four.format, TextureFormat::R8G8B8A8UNormSrgb);
    assert_eq!(four.pixels, Pixels::U8(vec![1, 2, 3, 4]));
}

#[test]
fn source_of_a_float_image() {
    let half = 0.5f32.to_bits();
    let one = 1.0f32.to_bits();
    let rgb = Texture::source_from(LoadResult::ImageF32(Image { width: 1, height: 1, depth: 3, data: vec![half, half, 0] })).unwrap();
    assert_eq!(rgb.format, TextureFormat::R32G32B32A32Float);
    assert_eq!(rgb.pixels, Pixels::F32(vec![half, half, 0, one]));
    let grey = Texture::source_from(LoadResult::ImageF32(Image { width: 2, height: 1, depth: 1, data: vec![half, one] })).unwrap();
    assert_eq!(grey.format, TextureFormat::R32Float);
    let pair = Texture::source_from(LoadResult::ImageF32(Image { width: 1, height: 1, depth: 2, data: vec![half, one] })).unwrap();
    assert_eq!(pair.format, TextureFormat::R32G32Float);
}

#[test]
fn source_of_a_failed_decoding() {
    assert_eq!(
        Texture::source_from(LoadResult::Error("stbi_load failed".to_string())),
        Err(ResourceError::Decode)
    );
}

#[test]
fn texture_load_runs_through_both_requests() {
    let load = TextureLoad::start("data\\objects\\wood.png");
    assert_eq!(load.request(), Some(Request::LoadImage { path: "data\\objects\\wood.png".to_string() }));
    let image = Event::Image(LoadResult::ImageU8(Image { width: 1, height: 2, depth: 3, data: vec![1, 2, 3, 4, 5, 6] }));
    assert!(load.request().unwrap().is_answered_by(&image));
    let load = load.advance(image);
    match load.request() {
        Some(Request::CreateTexture2d { desc, init }) => {
            assert_eq!(desc.width, 1);
            assert_eq!(desc.height, 2);
            assert_eq!(desc.mip_levels, 1);
            assert_eq!(desc.format, 29);
            assert_eq!(desc.bind_flags, 8);
            assert_eq!(desc.usage, 1);
            assert_eq!(desc.misc_flags, 0);
            assert_eq!(init, Some(InitData { pitch: 4, slice_pitch: 8 }));
        }
        other => panic!("unexpected request {:?}", other),
    }
    match &load {
        TextureLoad::CreateTexture { source, .. } => {
            assert_eq!(source.pixels, Pixels::U8(vec![1, 2, 3, 255, 4, 5, 6, 255]))
        }
        other => panic!("unexpected state {:?}", other),
    }
    let load = load.advance(Event::Object(NativeReply { status: 0, object: 0xABC }));
    assert_eq!(load.request(), None);
    assert_eq!(
        load,
        TextureLoad::Done(Ok(Texture {
            format: TextureFormat::R8G8B8A8UNormSrgb,
            width: 1,
            height: 2,
            depth: 1,
            res: 0xABC
        }))
    );
}

#[test]
fn texture_load_ends_where_decoding_fails() {
    let load = TextureLoad::start("missing.png").advance(Event::Image(LoadResult::Error("x".to_string())));
    assert_eq!(load, TextureLoad::Done(Err(ResourceError::Decode)));
}

#[test]
fn texture_load_ends_where_the_device_refuses() {
    let load = TextureLoad::start("a.png")
        .advance(Event::Image(LoadResult::ImageU8(Image { width: 1, height: 1, depth: 1, data: vec![1] })))
        .advance(Event::Object(NativeReply { status: -7, object: 0 }));
    assert_eq!(load, TextureLoad::Done(Err(ResourceError::Rejected(-7))));
}

#[test]
fn load_image_is_not_answered_by_a_malformed_image() {
    let request = Request::LoadImage { path: "a.png".to_string() };
    let bad = Event::Image(LoadResult::ImageU8(Image { width: 2, height: 2, depth: 3, data: vec![0; 5] }));
    assert!(!request.is_answered_by(&bad));
    assert!(!request.is_answered_by(&Event::Object(NativeReply { status: 0, object: 1 })));
}

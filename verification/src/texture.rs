//! Two-dimensional textures: their formats, the description handed to the
//! device, and the choice of a format for a decoded image.
use vstd::prelude::*;
use crate::device::Event;
use crate::device::Request;
use crate::native;
use crate::native::InitData;
use crate::native::NativeReply;
use crate::native::ResourceError;
use crate::numerics::Float32;
use crate::numerics::ONE;

verus! {

/// Texture formats.
#[derive(Debug, Copy, Clone, PartialEq, Eq, Structural)]
pub enum TextureFormat {
    R8UNorm,
    R8G8UNorm,
    R8G8B8A8UNorm,
    R8G8B8A8UNormSrgb,
    R32Float,
    R32G32Float,
    R32G32B32A32Float,
}

impl TextureFormat {
    /// The native code of the format: that of the native format of the
    /// same name.
    pub open spec fn native(self) -> u32 {
        match self {
            TextureFormat::R8UNorm => native::FORMAT_R8_UNORM,
            TextureFormat::R8G8UNorm => native::FORMAT_R8G8_UNORM,
            TextureFormat::R8G8B8A8UNorm => native::FORMAT_R8G8B8A8_UNORM,
            TextureFormat::R8G8B8A8UNormSrgb => native::FORMAT_R8G8B8A8_UNORM_SRGB,
            TextureFormat::R32Float => native::FORMAT_R32_FLOAT,
            TextureFormat::R32G32Float => native::FORMAT_R32G32_FLOAT,
            TextureFormat::R32G32B32A32Float => native::FORMAT_R32G32B32A32_FLOAT,
        }
    }

    pub fn to_native(self) -> (code: u32)
        ensures
            code == self.native(),
    {
        match self {
            TextureFormat::R8UNorm => native::FORMAT_R8_UNORM,
            TextureFormat::R8G8UNorm => native::FORMAT_R8G8_UNORM,
            TextureFormat::R8G8B8A8UNorm => native::FORMAT_R8G8B8A8_UNORM,
            TextureFormat::R8G8B8A8UNormSrgb => native::FORMAT_R8G8B8A8_UNORM_SRGB,
            TextureFormat::R32Float => native::FORMAT_R32_FLOAT,
            TextureFormat::R32G32Float => native::FORMAT_R32G32_FLOAT,
            TextureFormat::R32G32B32A32Float => native::FORMAT_R32G32B32A32_FLOAT,
        }
    }

    /// The bytes that one pixel takes.
    pub open spec fn pixel_size(self) -> u32 {
        match self {
            TextureFormat::R8UNorm => 1,
            TextureFormat::R8G8UNorm => 2,
            TextureFormat::R8G8B8A8UNorm => 4,
            TextureFormat::R8G8B8A8UNormSrgb => 4,
            TextureFormat::R32Float => 4,
            TextureFormat::R32G32Float => 8,
            TextureFormat::R32G32B32A32Float => 16,
        }
    }

    pub fn bytes_per_pixel(self) -> (size: u32)
        ensures
            size == self.pixel_size(),
    {
        match self {
            TextureFormat::R8UNorm => 1,
            TextureFormat::R8G8UNorm => 2,
            TextureFormat::R8G8B8A8UNorm => 4,
            TextureFormat::R8G8B8A8UNormSrgb => 4,
            TextureFormat::R32Float => 4,
            TextureFormat::R32G32Float => 8,
            TextureFormat::R32G32B32A32Float => 16,
        }
    }

    /// The format for a decoded image with `depth` channels: one and two
    /// channels keep their count, every other count is stored with four.
    pub open spec fn for_channels(depth: usize, float: bool) -> TextureFormat {
        if depth == 1 {
            if float {
                TextureFormat::R32Float
            } else {
                TextureFormat::R8UNorm
            }
        } else if depth == 2 {
            if float {
                TextureFormat::R32G32Float
            } else {
                TextureFormat::R8G8UNorm
            }
        } else {
            if float {
                TextureFormat::R32G32B32A32Float
            } else {
                TextureFormat::R8G8B8A8UNormSrgb
            }
        }
    }

    pub fn select(depth: usize, float: bool) -> (format: TextureFormat)
        ensures
            format == TextureFormat::for_channels(depth, float),
    {
        if depth == 1 {
            if float {
                TextureFormat::R32Float
            } else {
                TextureFormat::R8UNorm
            }
        } else if depth == 2 {
            if float {
                TextureFormat::R32G32Float
            } else {
                TextureFormat::R8G8UNorm
            }
        } else {
            if float {
                TextureFormat::R32G32B32A32Float
            } else {
                TextureFormat::R8G8B8A8UNormSrgb
            }
        }
    }
}

/// The description of a two-dimensional texture, as the device takes it.
#[derive(Debug, Copy, Clone, PartialEq, Eq, Structural)]
pub struct Texture2dDesc {
    pub width: u32,
    pub height: u32,
    pub mip_levels: u32,
    pub array_size: u32,
    pub format: u32,
    pub sample_count: u32,
    pub sample_quality: u32,
    pub usage: u32,
    pub bind_flags: u32,
    pub cpu_access_flags: u32,
    pub misc_flags: u32,
}

/// What is asked of the device to create a texture with initial data.
#[derive(Debug, Copy, Clone, PartialEq, Eq, Structural)]
pub struct TextureRequest {
    pub desc: Texture2dDesc,
    pub init: InitData,
}

/// The stages a texture is bound to; the two flags are distinct bits.
pub open spec fn texture_bind_flags(render_target: bool, shader_resource: bool) -> u32 {
    ((if render_target {
        native::BIND_RENDER_TARGET as int
    } else {
        0
    }) + (if shader_resource {
        native::BIND_SHADER_RESOURCE as int
    } else {
        0
    })) as u32
}

/// A texture resource.
#[derive(Debug, PartialEq)]
pub struct Texture {
    pub format: TextureFormat,
    pub width: u32,
    pub height: u32,
    pub depth: u32,
    pub res: u64,
}

impl Texture {
    /// The bytes of pixel data that an immutable texture of this format and
    /// size is created from.
    pub open spec fn data_size(format: TextureFormat, width: u32, height: u32) -> int {
        width * height * format.pixel_size()
    }

    /// The request for an immutable texture of one slice and one sample per
    /// pixel.
    pub open spec fn request_for(
        format: TextureFormat,
        width: u32,
        height: u32,
        mips: u32,
        generate_mips: bool,
        render_target: bool,
        shader_resource: bool,
    ) -> TextureRequest {
        TextureRequest {
            desc: Texture2dDesc {
                width,
                height,
                mip_levels: mips,
                array_size: 1,
                format: format.native(),
                sample_count: 1,
                sample_quality: 0,
                usage: native::USAGE_IMMUTABLE,
                bind_flags: texture_bind_flags(render_target, shader_resource),
                cpu_access_flags: 0,
                misc_flags: if generate_mips {
                    native::RESOURCE_MISC_GENERATE_MIPS
                } else {
                    0
                },
            },
            init: InitData {
                pitch: (width * format.pixel_size()) as u32,
                slice_pitch: Texture::data_size(format, width, height) as u32,
            },
        }
    }

    /// Whether a row of pixels and the whole image both fit the native
    /// 32-bit size fields.
    pub open spec fn fits(format: TextureFormat, width: u32, height: u32) -> bool {
        &&& width * format.pixel_size() <= u32::MAX
        &&& Texture::data_size(format, width, height) <= u32::MAX
    }

    /// Describes the texture for the device. The description exists exactly
    /// if the sizes fit.
    pub fn request(
        format: TextureFormat,
        width: u32,
        height: u32,
        mips: u32,
        generate_mips: bool,
        render_target: bool,
        shader_resource: bool,
    ) -> (r: Result<TextureRequest, ResourceError>)
        ensures
            !Texture::fits(format, width, height) ==> r == Err::<TextureRequest, ResourceError>(
                ResourceError::TooLarge,
            ),
            Texture::fits(format, width, height) ==> r == Ok::<TextureRequest, ResourceError>(
                Texture::request_for(
                    format,
                    width,
                    height,
                    mips,
                    generate_mips,
                    render_target,
                    shader_resource,
                ),
            ),
    {
        let pixel_size: u64 = format.bytes_per_pixel() as u64;
        let row: u64 = width as u64 * pixel_size;
        if row > u32::MAX as u64 {
            return Err(ResourceError::TooLarge);
        }
        assert(row * height <= 0xFFFF_FFFF * 0xFFFF_FFFF) by (nonlinear_arith)
            requires
                0 <= row <= 0xFFFF_FFFF,
                0 <= height <= 0xFFFF_FFFF,
        ;
        assert(width * height * format.pixel_size() == (width * format.pixel_size()) * height)
            by (nonlinear_arith);
        let total: u64 = row * height as u64;
        if total > u32::MAX as u64 {
            return Err(ResourceError::TooLarge);
        }
        let mut bind_flags: u32 = 0;
        if render_target {
            bind_flags = bind_flags + native::BIND_RENDER_TARGET;
        }
        if shader_resource {
            bind_flags = bind_flags + native::BIND_SHADER_RESOURCE;
        }
        let misc_flags: u32 = if generate_mips {
            native::RESOURCE_MISC_GENERATE_MIPS
        } else {
            0
        };
        Ok(
            TextureRequest {
                desc: Texture2dDesc {
                    width,
                    height,
                    mip_levels: mips,
                    array_size: 1,
                    format: format.to_native(),
                    sample_count: 1,
                    sample_quality: 0,
                    usage: native::USAGE_IMMUTABLE,
                    bind_flags,
                    cpu_access_flags: 0,
                    misc_flags,
                },
                init: InitData { pitch: row as u32, slice_pitch: total as u32 },
            },
        )
    }

    /// Makes the texture from what the device answered to `request`. The
    /// pixel data must hold exactly the bytes of the image.
    pub fn new_texture2d<T>(
        format: TextureFormat,
        width: u32,
        height: u32,
        mips: u32,
        generate_mips: bool,
        render_target: bool,
        shader_resource: bool,
        pixel_data: &[T],
        reply: NativeReply,
    ) -> (r: Result<Texture, ResourceError>)
        ensures
            !Texture::fits(format, width, height) ==> r == Err::<Texture, ResourceError>(
                ResourceError::TooLarge,
            ),
            Texture::fits(format, width, height) && pixel_data@.len() * vstd::layout::size_of::<T>()
                != Texture::data_size(format, width, height) ==> r == Err::<Texture, ResourceError>(
                ResourceError::SizeMismatch,
            ),
            Texture::fits(format, width, height) && pixel_data@.len() * vstd::layout::size_of::<T>()
                == Texture::data_size(format, width, height) && !reply.succeeded() ==> r == Err::<
                Texture,
                ResourceError,
            >(ResourceError::Rejected(reply.status)),
            Texture::fits(format, width, height) && pixel_data@.len() * vstd::layout::size_of::<T>()
                == Texture::data_size(format, width, height) && reply.succeeded() ==> r == Ok::<
                Texture,
                ResourceError,
            >(Texture { format, width, height, depth: 1, res: reply.object }),
    {
        let request = Texture::request(
            format,
            width,
            height,
            mips,
            generate_mips,
            render_target,
            shader_resource,
        );
        let request = match request {
            Ok(request) => request,
            Err(e) => {
                return Err(e);
            },
        };
        let len: usize = pixel_data.len();
        let matches = match len.checked_mul(core::mem::size_of::<T>()) {
            Some(bytes) => bytes as u64 == request.init.slice_pitch as u64,
            None => false,
        };
        if !matches {
            return Err(ResourceError::SizeMismatch);
        }
        if !reply.is_ok() {
            return Err(ResourceError::Rejected(reply.status));
        }
        Ok(Texture { format, width, height, depth: 1, res: reply.object })
    }

    /// Gives up the native texture: the object to release, if the texture
    /// still holds one. The texture is empty afterwards.
    pub fn release(&mut self) -> (released: Option<u64>)
        ensures
            old(self).res != 0 ==> released == Some(old(self).res),
            old(self).res == 0 ==> released is None,
            *final(self) == (Texture { res: 0, ..*old(self) }),
    {
        native::take_handle(&mut self.res)
    }
}

/// A decoded image: `depth` channels for each of `width` times `height`
/// pixels, one element of `data` per channel.
#[derive(Debug, PartialEq)]
pub struct Image<T> {
    pub width: usize,
    pub height: usize,
    pub depth: usize,
    pub data: Vec<T>,
}

impl<T> Image<T> {
    /// An image has one to four channels, and its data hold every channel of
    /// every pixel.
    pub open spec fn wf(&self) -> bool {
        &&& 1 <= self.depth <= 4
        &&& self.data@.len() == self.width * self.height * self.depth
    }

    pub fn is_wf(&self) -> (ok: bool)
        ensures
            ok == self.wf(),
    {
        if self.depth < 1 || self.depth > 4 {
            return false;
        }
        let held: usize = self.data.len();
        match self.width.checked_mul(self.height) {
            Some(pixels) => match pixels.checked_mul(self.depth) {
                Some(len) => held == len,
                None => false,
            },
            None => {
                assert(self.width * self.height * self.depth >= self.width * self.height)
                    by (nonlinear_arith)
                    requires
                        self.depth >= 1,
                        self.width * self.height >= 0,
                ;
                false
            },
        }
    }
}

/// What decoding an image file gave.
#[derive(Debug, PartialEq)]
pub enum LoadResult {
    Error(String),
    ImageU8(Image<u8>),
    ImageF32(Image<Float32>),
}

impl LoadResult {
    /// A decoding that gave an image gave a well-formed one.
    pub open spec fn wf(&self) -> bool {
        match self {
            LoadResult::Error(_) => true,
            LoadResult::ImageU8(img) => img.wf(),
            LoadResult::ImageF32(img) => img.wf(),
        }
    }

    pub fn is_wf(&self) -> (ok: bool)
        ensures
            ok == self.wf(),
    {
        match self {
            LoadResult::Error(_) => true,
            LoadResult::ImageU8(img) => img.is_wf(),
            LoadResult::ImageF32(img) => img.is_wf(),
        }
    }
}

/// Pixel data, eight bits or single precision per channel.
#[derive(Debug, PartialEq)]
pub enum Pixels {
    U8(Vec<u8>),
    F32(Vec<Float32>),
}

/// The values of pixel data.
pub enum PixelValues {
    U8(Seq<u8>),
    F32(Seq<Float32>),
}

impl PixelValues {
    /// The bytes that the values take.
    pub open spec fn byte_len(self) -> int {
        match self {
            PixelValues::U8(data) => data.len() as int,
            PixelValues::F32(data) => data.len() as int * 4,
        }
    }
}

impl View for Pixels {
    type V = PixelValues;

    open spec fn view(&self) -> PixelValues {
        match self {
            Pixels::U8(data) => PixelValues::U8(data@),
            Pixels::F32(data) => PixelValues::F32(data@),
        }
    }
}

/// All that a texture is created from: format, size and pixels.
#[derive(Debug, PartialEq)]
pub struct TextureSource {
    pub format: TextureFormat,
    pub width: u32,
    pub height: u32,
    pub pixels: Pixels,
}

/// The values of a texture source.
pub struct SourceValues {
    pub format: TextureFormat,
    pub width: u32,
    pub height: u32,
    pub pixels: PixelValues,
}

impl View for TextureSource {
    type V = SourceValues;

    open spec fn view(&self) -> SourceValues {
        SourceValues {
            format: self.format,
            width: self.width,
            height: self.height,
            pixels: self.pixels@,
        }
    }
}

/// Pixels of three channels with a fourth added: each pixel keeps its three
/// values in order and gets `alpha` behind them. Elements of `data` beyond
/// the last whole pixel are dropped.
pub open spec fn rgb_to_rgba<T>(data: Seq<T>, alpha: T) -> Seq<T> {
    Seq::new(
        (data.len() / 3 * 4) as nat,
        |k: int|
            if k % 4 == 3 {
                alpha
            } else {
                data[k / 4 * 3 + k % 4]
            },
    )
}

/// Adds a fourth channel of value `alpha` to pixels of three channels.
pub fn expand_rgb<T: Copy>(data: &[T], alpha: T) -> (out: Vec<T>)
    ensures
        out@ == rgb_to_rgba(data@, alpha),
{
    let pixels: usize = data.len() / 3;
    let mut out: Vec<T> = Vec::new();
    let mut i: usize = 0;
    while i < pixels
        invariant
            pixels == data@.len() / 3,
            pixels * 3 <= data@.len() <= usize::MAX,
            i <= pixels,
            out@.len() == 4 * i,
            forall|k: int| 0 <= k < out@.len() ==> out@[k] == rgb_to_rgba(data@, alpha)[k],
        decreases pixels - i,
    {
        out.push(data[i * 3]);
        out.push(data[i * 3 + 1]);
        out.push(data[i * 3 + 2]);
        out.push(alpha);
        i += 1;
    }
    assert(out@ =~= rgb_to_rgba(data@, alpha));
    out
}

impl Texture {
    /// What a decoded image is stored as. A failed decoding gives `Decode`;
    /// an image whose width or height does not fit 32 bits gives
    /// `TooLarge`. Otherwise the format follows the channel count and the
    /// pixels are those decoded, but that images of three channels get a
    /// fourth, opaque one.
    pub open spec fn source_of(loaded: LoadResult) -> Result<SourceValues, ResourceError> {
        match loaded {
            LoadResult::Error(_) => Err(ResourceError::Decode),
            LoadResult::ImageU8(img) => if img.width > u32::MAX || img.height > u32::MAX {
                Err(ResourceError::TooLarge)
            } else {
                Ok(
                    SourceValues {
                        format: TextureFormat::for_channels(img.depth, false),
                        width: img.width as u32,
                        height: img.height as u32,
                        pixels: PixelValues::U8(
                            if img.depth == 3 {
                                rgb_to_rgba(img.data@, 255u8)
                            } else {
                                img.data@
                            },
                        ),
                    },
                )
            },
            LoadResult::ImageF32(img) => if img.width > u32::MAX || img.height > u32::MAX {
                Err(ResourceError::TooLarge)
            } else {
                Ok(
                    SourceValues {
                        format: TextureFormat::for_channels(img.depth, true),
                        width: img.width as u32,
                        height: img.height as u32,
                        pixels: PixelValues::F32(
                            if img.depth == 3 {
                                rgb_to_rgba(img.data@, ONE)
                            } else {
                                img.data@
                            },
                        ),
                    },
                )
            },
        }
    }

    /// Chooses format and pixel data for a decoded image. The pixels chosen
    /// hold exactly the bytes of an image of that format and size.
    pub fn source_from(loaded: LoadResult) -> (r: Result<TextureSource, ResourceError>)
        requires
            loaded.wf(),
        ensures
            Texture::source_of(loaded) matches Err(e) ==> r == Err::<TextureSource, ResourceError>(
                e,
            ),
            Texture::source_of(loaded) matches Ok(values) ==> r matches Ok(source) && source@
                == values,
            r matches Ok(source) ==> source@.pixels.byte_len() == Texture::data_size(
                source.format,
                source.width,
                source.height,
            ),
    {
        match loaded {
            LoadResult::Error(_) => Err(ResourceError::Decode),
            LoadResult::ImageU8(img) => {
                if img.width > u32::MAX as usize || img.height > u32::MAX as usize {
                    return Err(ResourceError::TooLarge);
                }
                let format = TextureFormat::select(img.depth, false);
                proof {
                    lemma_channel_count(img.width * img.height, img.depth as int);
                }
                let data = if img.depth != 3 {
                    img.data
                } else {
                    expand_rgb(img.data.as_slice(), 255u8)
                };
                assert(data@.len() == img.width * img.height * format.pixel_size());
                Ok(
                    TextureSource {
                        format,
                        width: img.width as u32,
                        height: img.height as u32,
                        pixels: Pixels::U8(data),
                    },
                )
            },
            LoadResult::ImageF32(img) => {
                if img.width > u32::MAX as usize || img.height > u32::MAX as usize {
                    return Err(ResourceError::TooLarge);
                }
                let format = TextureFormat::select(img.depth, true);
                proof {
                    lemma_channel_count(img.width * img.height, img.depth as int);
                }
                let data = if img.depth != 3 {
                    img.data
                } else {
                    expand_rgb(img.data.as_slice(), ONE)
                };
                proof {
                    let stored: int = if img.depth == 3 {
                        4
                    } else {
                        img.depth as int
                    };
                    let pixels = img.width * img.height;
                    assert(data@.len() == stored * pixels);
                    assert(format.pixel_size() == stored * 4);
                    assert(stored * pixels * 4 == pixels * (stored * 4)) by (nonlinear_arith);
                }
                assert(data@.len() * 4 == img.width * img.height * format.pixel_size());
                Ok(
                    TextureSource {
                        format,
                        width: img.width as u32,
                        height: img.height as u32,
                        pixels: Pixels::F32(data),
                    },
                )
            },
        }
    }
}

/// The way from an image file to a texture that shaders read: first the
/// image is decoded, then the texture is created from it.
#[derive(Debug, PartialEq)]
pub enum TextureLoad {
    /// Waiting for the decoded image.
    LoadImage { path: String },
    /// Waiting for the texture; the load holds what it is created from.
    CreateTexture { source: TextureSource, request: TextureRequest },
    /// Finished, with the texture or the reason it could not be had.
    Done(Result<Texture, ResourceError>),
}

impl TextureLoad {
    /// Whether `event` answers what the load waits for: a well-formed
    /// decoding while it waits for the image, an object afterwards.
    pub open spec fn expects(self, event: Event) -> bool {
        match self {
            TextureLoad::LoadImage { .. } => event matches Event::Image(loaded) && loaded.wf(),
            TextureLoad::CreateTexture { .. } => event is Object,
            TextureLoad::Done(_) => false,
        }
    }

    /// A load that waits for its texture holds pixels of exactly the size
    /// the request describes.
    pub open spec fn wf(self) -> bool {
        self matches TextureLoad::CreateTexture { source, request } ==> {
            &&& Texture::fits(source.format, source.width, source.height)
            &&& source@.pixels.byte_len() == Texture::data_size(
                source.format,
                source.width,
                source.height,
            )
            &&& request == Texture::request_for(
                source.format,
                source.width,
                source.height,
                1,
                false,
                false,
                true,
            )
        }
    }

    /// Starts loading the texture in the file at `path`.
    pub fn start(path: &str) -> (load: TextureLoad)
        ensures
            load.wf(),
            load matches TextureLoad::LoadImage { path: p } && p@ == path@,
    {
        TextureLoad::LoadImage { path: path.to_owned() }
    }

    /// Whether `r` is the request that the load waits for: first the
    /// image in its file; then the texture, with one mip level, immutable,
    /// for shaders to read, its initial data being the pixels the load
    /// holds; and nothing at the end.
    pub open spec fn asks(self, r: Option<Request>) -> bool {
        match self {
            TextureLoad::LoadImage { path } => r matches Some(Request::LoadImage { path: p }) && p@
                == path@,
            TextureLoad::CreateTexture { request, .. } => r == Some(
                Request::CreateTexture2d { desc: request.desc, init: Some(request.init) },
            ),
            TextureLoad::Done(_) => r is None,
        }
    }

    /// The request to perform next; none once the load is done.
    pub fn request(&self) -> (r: Option<Request>)
        ensures
            self.asks(r),
            self is Done <==> r is None,
            r matches Some(request) ==> forall|event: Event|
                request.answered_by(event) == self.expects(event),
    {
        match self {
            TextureLoad::LoadImage { path } => Some(Request::LoadImage { path: path.clone() }),
            TextureLoad::CreateTexture { request, .. } => Some(
                Request::CreateTexture2d { desc: request.desc, init: Some(request.init) },
            ),
            TextureLoad::Done(_) => None,
        }
    }

    /// Whether `next` is the state that follows when `event` answers the
    /// pending request. A decoded image leads to the request for its
    /// texture, unless decoding failed or the image is too large; the
    /// device's answer to that request ends the load, with the texture
    /// exactly if the device made it.
    pub open spec fn step(self, event: Event, next: TextureLoad) -> bool {
        match self {
            TextureLoad::LoadImage { .. } => match Texture::source_of(event->Image_0) {
                Err(e) => next == TextureLoad::Done(Err(e)),
                Ok(values) => if Texture::fits(values.format, values.width, values.height) {
                    next matches TextureLoad::CreateTexture { source, .. } && source@ == values
                } else {
                    next == TextureLoad::Done(Err(ResourceError::TooLarge))
                },
            },
            TextureLoad::CreateTexture { source, .. } => next == TextureLoad::Done(
                if event->Object_0.succeeded() {
                    Ok(
                        Texture {
                            format: source.format,
                            width: source.width,
                            height: source.height,
                            depth: 1,
                            res: event->Object_0.object,
                        },
                    )
                } else {
                    Err(ResourceError::Rejected(event->Object_0.status))
                },
            ),
            TextureLoad::Done(_) => next == self,
        }
    }

    /// Takes the answer to the pending request.
    pub fn advance(self, event: Event) -> (next: TextureLoad)
        requires
            self.wf(),
            self.expects(event),
        ensures
            next.wf(),
            self.step(event, next),
    {
        match self {
            TextureLoad::LoadImage { .. } => {
                let loaded = match event {
                    Event::Image(loaded) => loaded,
                    _ => {
                        return self;
                    },
                };
                let source = match Texture::source_from(loaded) {
                    Ok(source) => source,
                    Err(e) => {
                        return TextureLoad::Done(Err(e));
                    },
                };
                match Texture::request(
                    source.format,
                    source.width,
                    source.height,
                    1,
                    false,
                    false,
                    true,
                ) {
                    Ok(request) => TextureLoad::CreateTexture { source, request },
                    Err(e) => TextureLoad::Done(Err(e)),
                }
            },
            TextureLoad::CreateTexture { source, .. } => {
                let reply = match event {
                    Event::Object(reply) => reply,
                    _ => {
                        return TextureLoad::Done(Err(ResourceError::Decode));
                    },
                };
                let made = match &source.pixels {
                    Pixels::U8(data) => Texture::new_texture2d(
                        source.format,
                        source.width,
                        source.height,
                        1,
                        false,
                        false,
                        true,
                        data.as_slice(),
                        reply,
                    ),
                    Pixels::F32(data) => Texture::new_texture2d(
                        source.format,
                        source.width,
                        source.height,
                        1,
                        false,
                        false,
                        true,
                        data.as_slice(),
                        reply,
                    ),
                };
                TextureLoad::Done(made)
            },
            TextureLoad::Done(result) => TextureLoad::Done(result),
        }
    }
}

/// The element count of `pixels` pixels with `depth` channels, for each
/// channel count an image can have.
proof fn lemma_channel_count(pixels: int, depth: int)
    requires
        0 <= pixels,
        1 <= depth <= 4,
    ensures
        depth == 1 ==> pixels * depth == pixels,
        depth == 2 ==> pixels * depth == 2 * pixels,
        depth == 3 ==> pixels * depth == 3 * pixels,
        depth == 4 ==> pixels * depth == 4 * pixels,
{
    assert(depth == 1 ==> pixels * depth == pixels) by (nonlinear_arith);
    assert(depth == 2 ==> pixels * depth == 2 * pixels) by (nonlinear_arith);
    assert(depth == 3 ==> pixels * depth == 3 * pixels) by (nonlinear_arith);
    assert(depth == 4 ==> pixels * depth == 4 * pixels) by (nonlinear_arith);
}

} // verus!

//! The conversation with the host. A *request* is a native call whose answer
//! the library needs before it can go on; the host performs it and reports
//! the answer as an *event*. Calls whose answer nobody waits for are
//! commands, see the graphics module.
use vstd::prelude::*;
use crate::display::SwapChainDesc;
use crate::input_layout::InputElementDesc;
use crate::native::BufferRequest;
use crate::native::InitData;
use crate::native::NativeReply;
use crate::sampler::SamplerDesc;
use crate::shader_compiler::CompileReply;
use crate::shader_compiler::CompileRequest;
use crate::texture::LoadResult;
use crate::texture::Texture2dDesc;

verus! {

/// The interfaces an object can be asked for.
#[derive(Debug, Copy, Clone, PartialEq, Eq, Structural)]
pub enum Interface {
    DxgiDevice,
    Debug,
    InfoQueue,
}

/// A native call whose answer the library needs.
#[derive(Debug, PartialEq)]
pub enum Request {
    /// Create the device and its immediate context on the hardware driver.
    CreateDevice { flags: u32, feature_level: u32, sdk_version: u32 },
    /// Ask `object` for another of its interfaces.
    QueryInterface { object: u64, interface: Interface },
    /// Ask a DXGI device for the adapter it runs on.
    GetAdapter { dxgi_device: u64 },
    /// Ask an adapter for the factory it came from.
    GetFactory { adapter: u64 },
    /// Ask a window for the size of its client area.
    GetClientRect { window: u64 },
    CreateSwapChain { factory: u64, device: u64, desc: SwapChainDesc },
    /// Ask a swap chain for its first buffer.
    GetBackBuffer { swap_chain: u64 },
    CreateRenderTargetView { resource: u64 },
    CreateDepthStencilView { resource: u64 },
    CreateShaderResourceView { resource: u64 },
    CreateTexture2d { desc: Texture2dDesc, init: Option<InitData> },
    CreateBuffer { request: BufferRequest },
    CreateSamplerState { desc: SamplerDesc },
    CreateVertexShader { code: u64 },
    CreatePixelShader { code: u64 },
    CreateInputLayout { elements: Vec<InputElementDesc>, code: u64 },
    /// Compile a shader from its source file.
    Compile(CompileRequest),
    /// Read and decode an image file.
    LoadImage { path: String },
    /// Map a dynamic buffer for writing, discarding what it held.
    MapBuffer { buffer: u64, map_type: u32 },
}

/// The answer to a request.
#[derive(Debug, PartialEq)]
pub enum Event {
    /// A call that hands out one object returned.
    Object(NativeReply),
    /// Device creation returned.
    Device { status: i32, device: u64, context: u64 },
    /// The size of a window's client area.
    ClientRect { width: u32, height: u32 },
    /// The shader compiler returned.
    Compiled(CompileReply),
    /// An image file was read, or could not be.
    Image(LoadResult),
    /// Mapping a buffer returned: where its memory lies and how many bytes
    /// a row of it holds.
    Mapped { status: i32, data: u64, row_pitch: u32 },
}

impl Request {
    /// Whether `event` is an answer to this request: each kind of request
    /// has one kind of answer, and a decoded image is well-formed.
    pub open spec fn answered_by(self, event: Event) -> bool {
        match self {
            Request::CreateDevice { .. } => event is Device,
            Request::GetClientRect { .. } => event is ClientRect,
            Request::Compile(_) => event is Compiled,
            Request::LoadImage { .. } => event matches Event::Image(loaded) && loaded.wf(),
            Request::MapBuffer { .. } => event is Mapped,
            _ => event is Object,
        }
    }

    pub fn is_answered_by(&self, event: &Event) -> (ok: bool)
        ensures
            ok == self.answered_by(*event),
    {
        match self {
            Request::CreateDevice { .. } => match event {
                Event::Device { .. } => true,
                _ => false,
            },
            Request::GetClientRect { .. } => match event {
                Event::ClientRect { .. } => true,
                _ => false,
            },
            Request::Compile(_) => match event {
                Event::Compiled(_) => true,
                _ => false,
            },
            Request::LoadImage { .. } => match event {
                Event::Image(loaded) => loaded.is_wf(),
                _ => false,
            },
            Request::MapBuffer { .. } => match event {
                Event::Mapped { .. } => true,
                _ => false,
            },
            _ => match event {
                Event::Object(_) => true,
                _ => false,
            },
        }
    }
}

} // verus!

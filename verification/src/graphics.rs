//! The graphics context: the one place through which pipeline state is
//! set and draws are issued. The context records each such call as a
//! command; the host performs the commands in the order recorded.
use vstd::prelude::*;
use crate::color::Color4F;
use crate::depth_stencil_target::DepthStencilFormat;
use crate::depth_stencil_target::DepthStencilSetup;
use crate::depth_stencil_target::DepthStencilTarget;
use crate::device::Event;
use crate::device::Interface;
use crate::device::Request;
use crate::display::Display;
use crate::display::DisplaySetup;
use crate::index_buffer::IndexBuffer;
use crate::input_layout::InputElementDesc;
use crate::input_layout::InputLayout;
use crate::input_layout::translatable;
use crate::native;
use crate::native::DeviceError;
use crate::native::DeviceStage;
use crate::native::NativeReply;
use crate::native::ResourceError;
use crate::numerics::Float32;
use crate::render_target::RenderTarget;
use crate::render_target::RenderTargetSetup;
use crate::sampler::Sampler;
use crate::sampler::SamplerData;
use crate::shader::Shader;
use crate::shader_buffer::ShaderBuffer;
use crate::shader_compiler::ShaderCode;
use crate::shader_input::ShaderInput;
use crate::texture::Texture;
use crate::texture::TextureFormat;
use crate::texture::TextureLoad;
use crate::vertex_buffer::VertexBuffer;
use crate::vertex_format::VertexFormat;

verus! {

/// How vertices are assembled into primitives.
#[derive(Debug, Copy, Clone, PartialEq, Eq, Structural)]
pub enum PrimitiveTopology {
    PointList,
    LineList,
    LineStrip,
    TriangleList,
    TriangleStrip,
}

impl PrimitiveTopology {
    /// The native topology code.
    pub open spec fn native(self) -> u32 {
        match self {
            PrimitiveTopology::PointList => 1,
            PrimitiveTopology::LineList => 2,
            PrimitiveTopology::LineStrip => 3,
            PrimitiveTopology::TriangleList => 4,
            PrimitiveTopology::TriangleStrip => 5,
        }
    }

    pub fn to_native(self) -> (code: u32)
        ensures
            code == self.native(),
    {
        match self {
            PrimitiveTopology::PointList => 1,
            PrimitiveTopology::LineList => 2,
            PrimitiveTopology::LineStrip => 3,
            PrimitiveTopology::TriangleList => 4,
            PrimitiveTopology::TriangleStrip => 5,
        }
    }
}

/// A native call whose answer nobody waits for. Objects are given by their
/// addresses, enums by their native codes.
#[derive(Debug, PartialEq)]
pub enum Command {
    ClearRenderTarget { view: u64, color: Color4F },
    ClearDepthStencil { view: u64, flags: u32, depth: Float32, stencil: u8 },
    /// Bind the first `count` (none or one) colour targets and the depth
    /// target; a null depth target binds none.
    SetRenderTargets { count: u32, color: u64, depth: u64 },
    SetViewport {
        x: Float32,
        y: Float32,
        width: Float32,
        height: Float32,
        min_depth: Float32,
        max_depth: Float32,
    },
    SetPrimitiveTopology { topology: u32 },
    SetInputLayout { layout: u64 },
    SetVertexBuffer { slot: u32, buffer: u64, stride: u32, offset: u32 },
    SetIndexBuffer { buffer: u64, format: u32, offset: u32 },
    SetVertexShader { shader: u64 },
    SetVsConstantBuffer { slot: u32, buffer: u64 },
    SetVsShaderInput { slot: u32, view: u64 },
    SetVsSampler { slot: u32, sampler: u64 },
    SetPixelShader { shader: u64 },
    SetPsConstantBuffer { slot: u32, buffer: u64 },
    SetPsShaderInput { slot: u32, view: u64 },
    SetPsSampler { slot: u32, sampler: u64 },
    Draw { vertex_count: u32, start_vertex: u32 },
    DrawIndexed { index_count: u32, start_index: u32, base_vertex: i32 },
    /// Copy the first `size` bytes of the value being uploaded to mapped
    /// memory at `dest`.
    WriteMapped { dest: u64, size: usize },
    Unmap { buffer: u64 },
    Present { swap_chain: u64, sync_interval: u32, flags: u32 },
    /// Make the debugger break on messages of this severity.
    SetBreakOnSeverity { info_queue: u64, severity: u32 },
    Release { object: u64 },
}

/// A release command for each object, in order.
pub open spec fn releases(objects: Seq<u64>) -> Seq<Command> {
    objects.map_values(|object: u64| Command::Release { object })
}

/// The targets bound once `commands` have been performed on a context that
/// had none bound: those of the last command that binds targets. The pair
/// is colour and depth target; null stands for none.
pub open spec fn bound_targets(commands: Seq<Command>) -> (u64, u64)
    decreases commands.len(),
{
    if commands.len() == 0 {
        (0, 0)
    } else {
        match commands.last() {
            Command::SetRenderTargets { count, color, depth } => if count == 0 {
                (0, 0)
            } else {
                (color, depth)
            },
            _ => bound_targets(commands.drop_last()),
        }
    }
}

/// The flags of a depth-stencil clear; the two flags are distinct bits.
pub open spec fn clear_flags(clear_depth: bool, clear_stencil: bool) -> u32 {
    ((if clear_depth {
        native::CLEAR_DEPTH as int
    } else {
        0
    }) + (if clear_stencil {
        native::CLEAR_STENCIL as int
    } else {
        0
    })) as u32
}

/// The way to a device. With `diagnostic` set, the device is created with
/// its debug layer and made to break on corruption, errors and warnings,
/// as far as the device offers the interfaces for it.
#[derive(Debug, PartialEq)]
pub enum GraphicsSetup {
    /// Waiting for the device and its context.
    CreateDevice { diagnostic: bool },
    /// Waiting for the debug interface of the device.
    QueryDebug { device: u64, context: u64 },
    /// Waiting for the message queue of the debug interface; the setup
    /// holds the debug interface.
    QueryInfoQueue { device: u64, context: u64, debug: u64 },
    /// Finished, with device and context or the status of the failure.
    Done(Result<(u64, u64), DeviceError>),
}

impl GraphicsSetup {
    /// The request whose answer the setup waits for; none once it is done.
    pub open spec fn pending(self) -> Option<Request> {
        match self {
            GraphicsSetup::CreateDevice { diagnostic } => Some(
                Request::CreateDevice {
                    flags: if diagnostic {
                        native::CREATE_DEVICE_DEBUG
                    } else {
                        0
                    },
                    feature_level: native::FEATURE_LEVEL_11_0,
                    sdk_version: native::SDK_VERSION,
                },
            ),
            GraphicsSetup::QueryDebug { device, .. } => Some(
                Request::QueryInterface { object: device, interface: Interface::Debug },
            ),
            GraphicsSetup::QueryInfoQueue { debug, .. } => Some(
                Request::QueryInterface { object: debug, interface: Interface::InfoQueue },
            ),
            GraphicsSetup::Done(_) => None,
        }
    }

    /// What is done with a message queue: breaking is switched on for the
    /// three severities, then the queue is released.
    pub open spec fn arm(info_queue: u64) -> Seq<Command> {
        seq![
            Command::SetBreakOnSeverity {
                info_queue,
                severity: native::MESSAGE_SEVERITY_CORRUPTION,
            },
            Command::SetBreakOnSeverity { info_queue, severity: native::MESSAGE_SEVERITY_ERROR },
            Command::SetBreakOnSeverity { info_queue, severity: native::MESSAGE_SEVERITY_WARNING },
            Command::Release { object: info_queue },
        ]
    }

    /// The state that follows when `event` answers the pending request, and
    /// the commands to perform on the way. Only the creation of the device
    /// can fail the setup: an interface that cannot be had ends it with the
    /// device as it is.
    pub open spec fn next(self, event: Event) -> (GraphicsSetup, Seq<Command>) {
        match self {
            GraphicsSetup::CreateDevice { diagnostic } => {
                let status = event->Device_status;
                let device = event->Device_device;
                let context = event->Device_context;
                if status != native::S_OK {
                    (
                        GraphicsSetup::Done(
                            Err(DeviceError { stage: DeviceStage::Device, status }),
                        ),
                        Seq::empty(),
                    )
                } else if diagnostic {
                    (GraphicsSetup::QueryDebug { device, context }, Seq::empty())
                } else {
                    (GraphicsSetup::Done(Ok((device, context))), Seq::empty())
                }
            },
            GraphicsSetup::QueryDebug { device, context } => {
                let reply = event->Object_0;
                if reply.succeeded() && reply.object != 0 {
                    (
                        GraphicsSetup::QueryInfoQueue { device, context, debug: reply.object },
                        Seq::empty(),
                    )
                } else {
                    (GraphicsSetup::Done(Ok((device, context))), Seq::empty())
                }
            },
            GraphicsSetup::QueryInfoQueue { device, context, debug } => {
                let reply = event->Object_0;
                let armed = if reply.succeeded() && reply.object != 0 {
                    GraphicsSetup::arm(reply.object)
                } else {
                    Seq::empty()
                };
                (
                    GraphicsSetup::Done(Ok((device, context))),
                    armed.push(Command::Release { object: debug }),
                )
            },
            GraphicsSetup::Done(_) => (self, Seq::empty()),
        }
    }

    /// Starts the setup of a device.
    pub fn start(diagnostic: bool) -> (setup: GraphicsSetup)
        ensures
            setup == (GraphicsSetup::CreateDevice { diagnostic }),
    {
        GraphicsSetup::CreateDevice { diagnostic }
    }

    /// The request to perform next; none once the setup is done.
    pub fn request(&self) -> (r: Option<Request>)
        ensures
            r == self.pending(),
    {
        match self {
            GraphicsSetup::CreateDevice { diagnostic } => Some(
                Request::CreateDevice {
                    flags: if *diagnostic {
                        native::CREATE_DEVICE_DEBUG
                    } else {
                        0
                    },
                    feature_level: native::FEATURE_LEVEL_11_0,
                    sdk_version: native::SDK_VERSION,
                },
            ),
            GraphicsSetup::QueryDebug { device, .. } => Some(
                Request::QueryInterface { object: *device, interface: Interface::Debug },
            ),
            GraphicsSetup::QueryInfoQueue { debug, .. } => Some(
                Request::QueryInterface { object: *debug, interface: Interface::InfoQueue },
            ),
            GraphicsSetup::Done(_) => None,
        }
    }

    /// Takes the answer to the pending request.
    pub fn advance(self, event: Event) -> (out: (GraphicsSetup, Vec<Command>))
        requires
            self.pending() matches Some(request) && request.answered_by(event),
        ensures
            (out.0, out.1@) == self.next(event),
    {
        let mut commands: Vec<Command> = Vec::new();
        let next = match self {
            GraphicsSetup::CreateDevice { diagnostic } => {
                let (status, device, context) = match event {
                    Event::Device { status, device, context } => (status, device, context),
                    _ => {
                        return (self, commands);
                    },
                };
                if status != native::S_OK {
                    GraphicsSetup::Done(Err(DeviceError { stage: DeviceStage::Device, status }))
                } else if diagnostic {
                    GraphicsSetup::QueryDebug { device, context }
                } else {
                    GraphicsSetup::Done(Ok((device, context)))
                }
            },
            GraphicsSetup::QueryDebug { device, context } => {
                let reply = match event {
                    Event::Object(reply) => reply,
                    _ => {
                        return (self, commands);
                    },
                };
                if reply.is_ok() && reply.object != 0 {
                    GraphicsSetup::QueryInfoQueue { device, context, debug: reply.object }
                } else {
                    GraphicsSetup::Done(Ok((device, context)))
                }
            },
            GraphicsSetup::QueryInfoQueue { device, context, debug } => {
                let reply = match event {
                    Event::Object(reply) => reply,
                    _ => {
                        return (self, commands);
                    },
                };
                if reply.is_ok() && reply.object != 0 {
                    let info_queue: u64 = reply.object;
                    commands.push(
                        Command::SetBreakOnSeverity {
                            info_queue,
                            severity: native::MESSAGE_SEVERITY_CORRUPTION,
                        },
                    );
                    commands.push(
                        Command::SetBreakOnSeverity {
                            info_queue,
                            severity: native::MESSAGE_SEVERITY_ERROR,
                        },
                    );
                    commands.push(
                        Command::SetBreakOnSeverity {
                            info_queue,
                            severity: native::MESSAGE_SEVERITY_WARNING,
                        },
                    );
                    commands.push(Command::Release { object: info_queue });
                }
                commands.push(Command::Release { object: debug });
                GraphicsSetup::Done(Ok((device, context)))
            },
            GraphicsSetup::Done(result) => GraphicsSetup::Done(result),
        };
        assert(commands@ =~= self.next(event).1);
        (next, commands)
    }
}

/// Main abstraction layer for graphics device and functionality. `commands`
/// holds what was issued and not yet handed to the host, oldest first.
#[derive(Debug, PartialEq)]
pub struct Graphics {
    pub device: u64,
    pub context: u64,
    pub commands: Vec<Command>,
}

impl Graphics {
    /// Whether the call left device and context alone and recorded exactly
    /// `issued` behind what was recorded before.
    pub open spec fn issued(self, before: Graphics, issued: Seq<Command>) -> bool {
        &&& self.device == before.device
        &&& self.context == before.context
        &&& self.commands@ == before.commands@ + issued
    }

    /// The graphics context that a finished setup gives; nothing is
    /// recorded in it yet.
    pub fn new(setup: GraphicsSetup) -> (r: Result<Graphics, DeviceError>)
        requires
            setup is Done,
        ensures
            setup->Done_0 matches Err(e) ==> r == Err::<Graphics, DeviceError>(e),
            setup->Done_0 matches Ok(made) ==> {
                &&& r matches Ok(gfx)
                &&& gfx.device == made.0
                &&& gfx.context == made.1
                &&& gfx.commands@ == Seq::<Command>::empty()
            },
    {
        match setup {
            GraphicsSetup::Done(Ok((device, context))) => Ok(
                Graphics { device, context, commands: Vec::new() },
            ),
            GraphicsSetup::Done(Err(e)) => Err(e),
            _ => Err(DeviceError { stage: DeviceStage::Device, status: native::S_OK }),
        }
    }

    /// Hands the recorded commands over, oldest first, and starts recording
    /// anew.
    pub fn take_commands(&mut self) -> (commands: Vec<Command>)
        ensures
            commands@ == old(self).commands@,
            final(self).device == old(self).device,
            final(self).context == old(self).context,
            final(self).commands@ == Seq::<Command>::empty(),
    {
        let mut commands: Vec<Command> = Vec::new();
        core::mem::swap(&mut commands, &mut self.commands);
        commands
    }

    /// Gives up device and context: the objects to release, the device
    /// first, each only if still held. The context is empty afterwards.
    pub fn release(&mut self) -> (released: (Option<u64>, Option<u64>))
        ensures
            old(self).device != 0 ==> released.0 == Some(old(self).device),
            old(self).device == 0 ==> released.0 is None,
            old(self).context != 0 ==> released.1 == Some(old(self).context),
            old(self).context == 0 ==> released.1 is None,
            final(self).device == 0,
            final(self).context == 0,
            final(self).commands@ == old(self).commands@,
    {
        let device = native::take_handle(&mut self.device);
        let context = native::take_handle(&mut self.context);
        (device, context)
    }

    /// Starts the setup of a display for the specified window handle.
    pub fn create_display(&self, hwnd: u64) -> (setup: DisplaySetup)
        ensures
            setup == (DisplaySetup::QueryDevice { device: self.device, window: hwnd }),
    {
        DisplaySetup::start(self.device, hwnd)
    }

    /// Creates a new texture from memory.
    pub fn create_texture2d<T>(
        &self,
        format: TextureFormat,
        width: u32,
        height: u32,
        mips: u32,
        generate_mips: bool,
        render_target: bool,
        shader_resource: bool,
        pixel_data: &[T],
        reply: NativeReply,
    ) -> (r: Result<Texture, ResourceError>)
        ensures
            !Texture::fits(format, width, height) ==> r == Err::<Texture, ResourceError>(
                ResourceError::TooLarge,
            ),
            Texture::fits(format, width, height) && pixel_data@.len() * vstd::layout::size_of::<T>()
                != Texture::data_size(format, width, height) ==> r == Err::<Texture, ResourceError>(
                ResourceError::SizeMismatch,
            ),
            Texture::fits(format, width, height) && pixel_data@.len() * vstd::layout::size_of::<T>()
                == Texture::data_size(format, width, height) && !reply.succeeded() ==> r == Err::<
                Texture,
                ResourceError,
            >(ResourceError::Rejected(reply.status)),
            Texture::fits(format, width, height) && pixel_data@.len() * vstd::layout::size_of::<T>()
                == Texture::data_size(format, width, height) && reply.succeeded() ==> r == Ok::<
                Texture,
                ResourceError,
            >(Texture { format, width, height, depth: 1, res: reply.object }),
    {
        Texture::new_texture2d(
            format,
            width,
            height,
            mips,
            generate_mips,
            render_target,
            shader_resource,
            pixel_data,
            reply,
        )
    }

    /// Starts loading a texture from file.
    pub fn load_texture_from_file(&self, path: &str) -> (load: TextureLoad)
        ensures
            load matches TextureLoad::LoadImage { path: p } && p@ == path@,
    {
        TextureLoad::start(path)
    }

    /// Creates a sampler.
    pub fn create_sampler(&self, data: SamplerData, reply: NativeReply) -> (r: Result<
        Sampler,
        ResourceError,
    >)
        ensures
            !reply.succeeded() ==> r == Err::<Sampler, ResourceError>(
                ResourceError::Rejected(reply.status),
            ),
            reply.succeeded() ==> r == Ok::<Sampler, ResourceError>(
                Sampler { data, samp: reply.object },
            ),
    {
        Sampler::new(data, reply)
    }

    /// Starts the setup of a render target for the specified display.
    pub fn create_render_target(&self, display: &Display) -> (setup: RenderTargetSetup)
        ensures
            setup == (RenderTargetSetup::GetBuffer { swap_chain: display.swap_chain }),
    {
        RenderTargetSetup::start(display.swap_chain)
    }

    /// Starts the setup of a new depth stencil target.
    pub fn create_depth_stencil_target(&self, format: DepthStencilFormat, width: u32, height: u32)
        -> (setup: DepthStencilSetup)
        ensures
            setup == (DepthStencilSetup::CreateTexture {
                desc: DepthStencilSetup::texture_desc(format, width, height),
            }),
    {
        DepthStencilSetup::start(format, width, height)
    }

    /// Creates a vertex buffer with one vertex for each element of `data`.
    /// More vertices than a 32-bit count holds are refused as too large.
    pub fn create_vertex_buffer<T>(&self, format: &VertexFormat, data: &[T], reply: NativeReply)
        -> (r: Result<VertexBuffer, ResourceError>)
        ensures
            data@.len() > u32::MAX ==> r == Err::<VertexBuffer, ResourceError>(
                ResourceError::TooLarge,
            ),
            data@.len() <= u32::MAX ==> (VertexBuffer::checked(format.stride, data@.len() as u32)
                matches Err(e) ==> r == Err::<VertexBuffer, ResourceError>(e)),
            data@.len() <= u32::MAX && VertexBuffer::checked(format.stride, data@.len() as u32)
                is Ok && !reply.succeeded() ==> r == Err::<VertexBuffer, ResourceError>(
                ResourceError::Rejected(reply.status),
            ),
            data@.len() <= u32::MAX && VertexBuffer::checked(format.stride, data@.len() as u32)
                is Ok && reply.succeeded() ==> r == Ok::<VertexBuffer, ResourceError>(
                VertexBuffer { format: *format, buff: reply.object },
            ),
    {
        let count: usize = data.len();
        if count > u32::MAX as usize {
            return Err(ResourceError::TooLarge);
        }
        VertexBuffer::new(format, count as u32, reply)
    }

    /// Creates an index buffer.
    pub fn create_index_buffer(&self, indices: &[u32], reply: NativeReply) -> (r: Result<
        IndexBuffer,
        ResourceError,
    >)
        ensures
            IndexBuffer::checked(indices@.len() as int) matches Err(e) ==> r == Err::<
                IndexBuffer,
                ResourceError,
            >(e),
            IndexBuffer::checked(indices@.len() as int) is Ok && !reply.succeeded() ==> r == Err::<
                IndexBuffer,
                ResourceError,
            >(ResourceError::Rejected(reply.status)),
            IndexBuffer::checked(indices@.len() as int) is Ok && reply.succeeded() ==> r == Ok::<
                IndexBuffer,
                ResourceError,
            >(IndexBuffer { buff: reply.object, num_indices: indices@.len() as u32 }),
    {
        IndexBuffer::new(indices, reply)
    }

    /// Creates a dynamic constant buffer.
    pub fn create_constant_buffer(&self, size: usize, reply: NativeReply) -> (r: Result<
        ShaderBuffer,
        ResourceError,
    >)
        ensures
            ShaderBuffer::checked(size as int) matches Err(e) ==> r == Err::<
                ShaderBuffer,
                ResourceError,
            >(e),
            ShaderBuffer::checked(size as int) is Ok && !reply.succeeded() ==> r == Err::<
                ShaderBuffer,
                ResourceError,
            >(ResourceError::Rejected(reply.status)),
            ShaderBuffer::checked(size as int) is Ok && reply.succeeded() ==> r == Ok::<
                ShaderBuffer,
                ResourceError,
            >(
                ShaderBuffer {
                    buff: reply.object,
                    size: crate::shader_buffer::aligned_size(size as int) as u32,
                },
            ),
            r matches Ok(buffer) ==> buffer.size % 16 == 0 && buffer.size >= size,
    {
        ShaderBuffer::new_constant_buffer(size, reply)
    }

    /// Creates a shader input from a texture; the device was asked for a
    /// view of `tex.res`.
    pub fn create_texture_shader_input(&self, tex: &Texture, reply: NativeReply) -> (r: Result<
        ShaderInput,
        ResourceError,
    >)
        ensures
            !reply.succeeded() ==> r == Err::<ShaderInput, ResourceError>(
                ResourceError::Rejected(reply.status),
            ),
            reply.succeeded() ==> r == Ok::<ShaderInput, ResourceError>(
                ShaderInput { srv: reply.object },
            ),
    {
        ShaderInput::new(reply)
    }

    /// Creates a vertex shader for the specified code. Code that holds
    /// nothing is refused as empty.
    pub fn create_vertex_shader(&self, code: &ShaderCode, reply: NativeReply) -> (r: Result<
        Shader,
        ResourceError,
    >)
        ensures
            code.data == 0 ==> r == Err::<Shader, ResourceError>(ResourceError::EmptyInput),
            code.data != 0 && !reply.succeeded() ==> r == Err::<Shader, ResourceError>(
                ResourceError::Rejected(reply.status),
            ),
            code.data != 0 && reply.succeeded() ==> r == Ok::<Shader, ResourceError>(
                Shader::Vertex(reply.object),
            ),
    {
        if code.data == 0 {
            Err(ResourceError::EmptyInput)
        } else if !reply.is_ok() {
            Err(ResourceError::Rejected(reply.status))
        } else {
            Ok(Shader::Vertex(reply.object))
        }
    }

    /// Creates a pixel shader for the specified code. Code that holds
    /// nothing is refused as empty.
    pub fn create_pixel_shader(&self, code: &ShaderCode, reply: NativeReply) -> (r: Result<
        Shader,
        ResourceError,
    >)
        ensures
            code.data == 0 ==> r == Err::<Shader, ResourceError>(ResourceError::EmptyInput),
            code.data != 0 && !reply.succeeded() ==> r == Err::<Shader, ResourceError>(
                ResourceError::Rejected(reply.status),
            ),
            code.data != 0 && reply.succeeded() ==> r == Ok::<Shader, ResourceError>(
                Shader::Pixel(reply.object),
            ),
    {
        if code.data == 0 {
            Err(ResourceError::EmptyInput)
        } else if !reply.is_ok() {
            Err(ResourceError::Rejected(reply.status))
        } else {
            Ok(Shader::Pixel(reply.object))
        }
    }

    /// Creates an input layout from the specified vertex format and vertex
    /// shader code; the device was asked with the elements that
    /// `InputLayout::elements` gives for the format.
    pub fn create_input_layout(&self, format: &VertexFormat, vs_code: &ShaderCode, reply: NativeReply)
        -> (r: Result<InputLayout, ResourceError>)
        ensures
            !translatable(*format) ==> r == Err::<InputLayout, ResourceError>(
                ResourceError::InvalidFormat,
            ),
            translatable(*format) && vs_code.data == 0 ==> r == Err::<InputLayout, ResourceError>(
                ResourceError::EmptyInput,
            ),
            translatable(*format) && vs_code.data != 0 && !reply.succeeded() ==> r == Err::<
                InputLayout,
                ResourceError,
            >(ResourceError::Rejected(reply.status)),
            translatable(*format) && vs_code.data != 0 && reply.succeeded() ==> r == Ok::<
                InputLayout,
                ResourceError,
            >(InputLayout { data: reply.object }),
    {
        match InputLayout::elements(format) {
            Err(e) => Err(e),
            Ok(_) => {
                if vs_code.data == 0 {
                    Err(ResourceError::EmptyInput)
                } else if !reply.is_ok() {
                    Err(ResourceError::Rejected(reply.status))
                } else {
                    Ok(InputLayout { data: reply.object })
                }
            },
        }
    }

    /// The request that maps a buffer for writing.
    pub fn map_request(&self, buffer: &ShaderBuffer) -> (r: Request)
        ensures
            r == (Request::MapBuffer { buffer: buffer.buff, map_type: native::MAP_WRITE_DISCARD }),
    {
        Request::MapBuffer { buffer: buffer.buff, map_type: native::MAP_WRITE_DISCARD }
    }

    /// Reads the answer to a map request: where the buffer's memory lies
    /// and how many bytes it holds, or null and zero where mapping failed.
    pub fn map_buffer_unsafe(&self, buffer: &ShaderBuffer, status: i32, data: u64, row_pitch: u32)
        -> (mapped: (u64, usize))
        ensures
            status != native::S_OK ==> mapped == (0u64, 0usize),
            status == native::S_OK ==> mapped == (data, row_pitch as usize),
    {
        if status != native::S_OK {
            (0, 0)
        } else {
            (data, row_pitch as usize)
        }
    }

    /// Unmaps the buffer and uploads the contents to the device.
    pub fn unmap_buffer_unsafe(&mut self, buffer: &ShaderBuffer)
        ensures
            final(self).issued(*old(self), seq![Command::Unmap { buffer: buffer.buff }]),
    {
        self.commands.push(Command::Unmap { buffer: buffer.buff });
        assert(self.commands@ =~= old(self).commands@ + seq![Command::Unmap { buffer: buffer.buff }]);
    }

    /// Sets the contents of the dynamic buffer, which was mapped at
    /// `mapped`: the value is copied there whole, then the buffer is
    /// unmapped. The mapping must have succeeded and be large enough for
    /// the value.
    pub fn map_and_set_buffer_data<T>(&mut self, buffer: &ShaderBuffer, data: &T, mapped: (u64, usize))
        requires
            mapped.0 != 0,
            vstd::layout::size_of::<T>() <= mapped.1,
        ensures
            final(self).issued(
                *old(self),
                seq![
                    Command::WriteMapped {
                        dest: mapped.0,
                        size: vstd::layout::size_of::<T>() as usize,
                    },
                    Command::Unmap { buffer: buffer.buff },
                ],
            ),
    {
        let size: usize = core::mem::size_of::<T>();
        self.commands.push(Command::WriteMapped { dest: mapped.0, size });
        self.unmap_buffer_unsafe(buffer);
        assert(self.commands@ =~= old(self).commands@ + seq![
            Command::WriteMapped { dest: mapped.0, size },
            Command::Unmap { buffer: buffer.buff },
        ]);
    }

    /// Records one command behind those recorded.
    fn issue(&mut self, command: Command)
        ensures
            final(self).issued(*old(self), seq![command]),
    {
        self.commands.push(command);
        assert(self.commands@ =~= old(self).commands@ + seq![command]);
    }

    /// Clears the specified render target to the specified color.
    pub fn clear_render_target(&mut self, rt: &RenderTarget, rgba: &Color4F)
        ensures
            final(self).issued(
                *old(self),
                seq![Command::ClearRenderTarget { view: rt.rtv, color: *rgba }],
            ),
    {
        self.issue(Command::ClearRenderTarget { view: rt.rtv, color: *rgba });
    }

    /// Clears the specified depth target to the specified values. Nothing
    /// is issued where neither depth nor stencil is to be cleared.
    pub fn clear_depth_stencil_target(
        &mut self,
        ds: &DepthStencilTarget,
        clear_depth: bool,
        depth: Float32,
        clear_stencil: bool,
        stencil: u8,
    )
        ensures
            !clear_depth && !clear_stencil ==> final(self).issued(*old(self), Seq::empty()),
            clear_depth || clear_stencil ==> final(self).issued(
                *old(self),
                seq![
                    Command::ClearDepthStencil {
                        view: ds.dsv,
                        flags: clear_flags(clear_depth, clear_stencil),
                        depth,
                        stencil,
                    },
                ],
            ),
    {
        let mut flags: u32 = 0;
        if clear_depth {
            flags = flags + native::CLEAR_DEPTH;
        }
        if clear_stencil {
            flags = flags + native::CLEAR_STENCIL;
        }
        if flags != 0 {
            self.issue(Command::ClearDepthStencil { view: ds.dsv, flags, depth, stencil });
        } else {
            assert(self.commands@ =~= old(self).commands@ + Seq::<Command>::empty());
        }
    }

    /// Sets the current render targets.
    pub fn set_render_target(&mut self, rt: &RenderTarget)
        ensures
            final(self).issued(
                *old(self),
                seq![Command::SetRenderTargets { count: 1, color: rt.rtv, depth: 0 }],
            ),
    {
        self.issue(Command::SetRenderTargets { count: 1, color: rt.rtv, depth: 0 });
    }

    /// Sets the current render target and depth buffer.
    pub fn set_render_target_and_depth(&mut self, rt: &RenderTarget, ds: &DepthStencilTarget)
        ensures
            final(self).issued(
                *old(self),
                seq![Command::SetRenderTargets { count: 1, color: rt.rtv, depth: ds.dsv }],
            ),
    {
        self.issue(Command::SetRenderTargets { count: 1, color: rt.rtv, depth: ds.dsv });
    }

    /// Unbinds all render targets.
    pub fn unbind_render_targets(&mut self)
        ensures
            final(self).issued(
                *old(self),
                seq![Command::SetRenderTargets { count: 0, color: 0, depth: 0 }],
            ),
    {
        self.issue(Command::SetRenderTargets { count: 0, color: 0, depth: 0 });
    }

    /// Sets the viewport setup.
    pub fn set_viewport(
        &mut self,
        x: Float32,
        y: Float32,
        w: Float32,
        h: Float32,
        min_z: Float32,
        max_z: Float32,
    )
        ensures
            final(self).issued(
                *old(self),
                seq![
                    Command::SetViewport {
                        x,
                        y,
                        width: w,
                        height: h,
                        min_depth: min_z,
                        max_depth: max_z,
                    },
                ],
            ),
    {
        self.issue(
            Command::SetViewport { x, y, width: w, height: h, min_depth: min_z, max_depth: max_z },
        );
    }

    /// Sets the current primitive topology.
    pub fn set_primitive_topology(&mut self, topology: PrimitiveTopology)
        ensures
            final(self).issued(
                *old(self),
                seq![Command::SetPrimitiveTopology { topology: topology.native() }],
            ),
    {
        self.issue(Command::SetPrimitiveTopology { topology: topology.to_native() });
    }

    /// Sets the current input layout.
    pub fn set_input_layout(&mut self, layout: &InputLayout)
        ensures
            final(self).issued(*old(self), seq![Command::SetInputLayout { layout: layout.data }]),
    {
        self.issue(Command::SetInputLayout { layout: layout.data });
    }

    /// Sets the current vertex buffer, read from its start with the stride
    /// of its format.
    pub fn set_vertex_buffer(&mut self, vb: &VertexBuffer, slot: u32)
        ensures
            final(self).issued(
                *old(self),
                seq![
                    Command::SetVertexBuffer {
                        slot,
                        buffer: vb.buff,
                        stride: vb.format.stride,
                        offset: 0,
                    },
                ],
            ),
    {
        self.issue(
            Command::SetVertexBuffer { slot, buffer: vb.buff, stride: vb.format.stride, offset: 0 },
        );
    }

    /// Sets the current index buffer, read from its start as 32-bit indices.
    pub fn set_index_buffer(&mut self, ib: &IndexBuffer)
        ensures
            final(self).issued(
                *old(self),
                seq![
                    Command::SetIndexBuffer {
                        buffer: ib.buff,
                        format: native::FORMAT_R32_UINT,
                        offset: 0,
                    },
                ],
            ),
    {
        self.issue(
            Command::SetIndexBuffer { buffer: ib.buff, format: native::FORMAT_R32_UINT, offset: 0 },
        );
    }

    /// Sets the current vertex shader. A shader of another stage must not
    /// be passed.
    pub fn set_vertex_shader(&mut self, shader: &Shader)
        requires
            shader is Vertex,
        ensures
            final(self).issued(*old(self), seq![Command::SetVertexShader { shader: shader->Vertex_0 }]),
    {
        let object: u64 = shader.handle();
        self.issue(Command::SetVertexShader { shader: object });
    }

    /// Sets a vertex shader constant buffer.
    pub fn set_vs_constant_buffer(&mut self, slot: u32, buffer: &ShaderBuffer)
        ensures
            final(self).issued(
                *old(self),
                seq![Command::SetVsConstantBuffer { slot, buffer: buffer.buff }],
            ),
    {
        self.issue(Command::SetVsConstantBuffer { slot, buffer: buffer.buff });
    }

    /// Sets a vertex shader input.
    pub fn set_vs_shader_input(&mut self, slot: u32, input: &ShaderInput)
        ensures
            final(self).issued(*old(self), seq![Command::SetVsShaderInput { slot, view: input.srv }]),
    {
        self.issue(Command::SetVsShaderInput { slot, view: input.srv });
    }

    /// Sets a vertex sampler.
    pub fn set_vs_sampler(&mut self, slot: u32, input: &Sampler)
        ensures
            final(self).issued(*old(self), seq![Command::SetVsSampler { slot, sampler: input.samp }]),
    {
        self.issue(Command::SetVsSampler { slot, sampler: input.samp });
    }

    /// Sets the current pixel shader. A shader of another stage must not
    /// be passed.
    pub fn set_pixel_shader(&mut self, shader: &Shader)
        requires
            shader is Pixel,
        ensures
            final(self).issued(*old(self), seq![Command::SetPixelShader { shader: shader->Pixel_0 }]),
    {
        let object: u64 = shader.handle();
        self.issue(Command::SetPixelShader { shader: object });
    }

    /// Sets a pixel shader constant buffer.
    pub fn set_ps_constant_buffer(&mut self, slot: u32, buffer: &ShaderBuffer)
        ensures
            final(self).issued(
                *old(self),
                seq![Command::SetPsConstantBuffer { slot, buffer: buffer.buff }],
            ),
    {
        self.issue(Command::SetPsConstantBuffer { slot, buffer: buffer.buff });
    }

    /// Sets a pixel shader input.
    pub fn set_ps_shader_input(&mut self, slot: u32, input: &ShaderInput)
        ensures
            final(self).issued(*old(self), seq![Command::SetPsShaderInput { slot, view: input.srv }]),
    {
        self.issue(Command::SetPsShaderInput { slot, view: input.srv });
    }

    /// Sets a pixel sampler.
    pub fn set_ps_sampler(&mut self, slot: u32, input: &Sampler)
        ensures
            final(self).issued(*old(self), seq![Command::SetPsSampler { slot, sampler: input.samp }]),
    {
        self.issue(Command::SetPsSampler { slot, sampler: input.samp });
    }

    /// Draws the specified vertex range.
    pub fn draw(&mut self, num_verts: u32, start_vert: u32)
        ensures
            final(self).issued(
                *old(self),
                seq![Command::Draw { vertex_count: num_verts, start_vertex: start_vert }],
            ),
    {
        self.issue(Command::Draw { vertex_count: num_verts, start_vertex: start_vert });
    }

    /// Draws the specified index range.
    pub fn draw_indexed(&mut self, num_indices: u32, start_index: u32)
        ensures
            final(self).issued(
                *old(self),
                seq![
                    Command::DrawIndexed { index_count: num_indices, start_index, base_vertex: 0 },
                ],
            ),
    {
        self.issue(Command::DrawIndexed { index_count: num_indices, start_index, base_vertex: 0 });
    }
}

} // verus!

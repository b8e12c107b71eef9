//! Depth-stencil targets: a depth texture and the view through which the
//! pipeline writes it.
use vstd::prelude::*;
use crate::device::Event;
use crate::device::Request;
use crate::graphics::Command;
use crate::native;
use crate::native::ResourceError;
use crate::texture::Texture2dDesc;

verus! {

/// Formats of a depth-stencil texture.
#[derive(Debug, Copy, Clone, PartialEq, Eq, Structural)]
pub enum DepthStencilFormat {
    D16UNorm,
    D24UNormS8,
    D32Float,
}

impl DepthStencilFormat {
    /// The native code of the format.
    pub open spec fn native(self) -> u32 {
        match self {
            DepthStencilFormat::D16UNorm => native::FORMAT_D16_UNORM,
            DepthStencilFormat::D24UNormS8 => native::FORMAT_D24_UNORM_S8_UINT,
            DepthStencilFormat::D32Float => native::FORMAT_D32_FLOAT,
        }
    }

    pub fn to_native(self) -> (code: u32)
        ensures
            code == self.native(),
    {
        match self {
            DepthStencilFormat::D16UNorm => native::FORMAT_D16_UNORM,
            DepthStencilFormat::D24UNormS8 => native::FORMAT_D24_UNORM_S8_UINT,
            DepthStencilFormat::D32Float => native::FORMAT_D32_FLOAT,
        }
    }
}

/// The way to a depth-stencil target: first the texture, then its view.
#[derive(Debug, PartialEq)]
pub enum DepthStencilSetup {
    /// Waiting for the depth texture.
    CreateTexture { desc: Texture2dDesc },
    /// Waiting for the view of the texture; the setup holds the texture.
    CreateView { texture: u64 },
    /// Finished, with view and texture or the reason they could not be had.
    Done(Result<(u64, u64), ResourceError>),
}

impl DepthStencilSetup {
    /// The description of a depth texture: one level, one slice, one sample
    /// per pixel, written by the device alone.
    pub open spec fn texture_desc(format: DepthStencilFormat, width: u32, height: u32)
        -> Texture2dDesc {
        Texture2dDesc {
            width,
            height,
            mip_levels: 1,
            array_size: 1,
            format: format.native(),
            sample_count: 1,
            sample_quality: 0,
            usage: native::USAGE_DEFAULT,
            bind_flags: native::BIND_DEPTH_STENCIL,
            cpu_access_flags: 0,
            misc_flags: 0,
        }
    }

    /// The request whose answer the setup waits for; none once it is done.
    pub open spec fn pending(self) -> Option<Request> {
        match self {
            DepthStencilSetup::CreateTexture { desc } => Some(
                Request::CreateTexture2d { desc, init: None },
            ),
            DepthStencilSetup::CreateView { texture } => Some(
                Request::CreateDepthStencilView { resource: texture },
            ),
            DepthStencilSetup::Done(_) => None,
        }
    }

    /// The state that follows when `event` answers the pending request, and
    /// the commands to perform on the way. Where the view cannot be had the
    /// texture is released.
    pub open spec fn next(self, event: Event) -> (DepthStencilSetup, Seq<Command>) {
        let reply = event->Object_0;
        match self {
            DepthStencilSetup::CreateTexture { .. } => if reply.succeeded() {
                (DepthStencilSetup::CreateView { texture: reply.object }, Seq::empty())
            } else {
                (
                    DepthStencilSetup::Done(Err(ResourceError::Rejected(reply.status))),
                    Seq::empty(),
                )
            },
            DepthStencilSetup::CreateView { texture } => if reply.succeeded() {
                (DepthStencilSetup::Done(Ok((reply.object, texture))), Seq::empty())
            } else {
                (
                    DepthStencilSetup::Done(Err(ResourceError::Rejected(reply.status))),
                    seq![Command::Release { object: texture }],
                )
            },
            DepthStencilSetup::Done(_) => (self, Seq::empty()),
        }
    }

    /// Starts the setup of a depth-stencil target of the given size.
    pub fn start(format: DepthStencilFormat, width: u32, height: u32) -> (setup: DepthStencilSetup)
        ensures
            setup == (DepthStencilSetup::CreateTexture {
                desc: DepthStencilSetup::texture_desc(format, width, height),
            }),
    {
        DepthStencilSetup::CreateTexture {
            desc: Texture2dDesc {
                width,
                height,
                mip_levels: 1,
                array_size: 1,
                format: format.to_native(),
                sample_count: 1,
                sample_quality: 0,
                usage: native::USAGE_DEFAULT,
                bind_flags: native::BIND_DEPTH_STENCIL,
                cpu_access_flags: 0,
                misc_flags: 0,
            },
        }
    }

    /// The request to perform next; none once the setup is done.
    pub fn request(&self) -> (r: Option<Request>)
        ensures
            r == self.pending(),
    {
        match self {
            DepthStencilSetup::CreateTexture { desc } => Some(
                Request::CreateTexture2d { desc: *desc, init: None },
            ),
            DepthStencilSetup::CreateView { texture } => Some(
                Request::CreateDepthStencilView { resource: *texture },
            ),
            DepthStencilSetup::Done(_) => None,
        }
    }

    /// Takes the answer to the pending request.
    pub fn advance(self, event: Event) -> (out: (DepthStencilSetup, Vec<Command>))
        requires
            self.pending() matches Some(request) && request.answered_by(event),
        ensures
            (out.0, out.1@) == self.next(event),
    {
        let mut commands: Vec<Command> = Vec::new();
        let reply = match event {
            Event::Object(reply) => reply,
            _ => {
                return (self, commands);
            },
        };
        let next = match self {
            DepthStencilSetup::CreateTexture { .. } => {
                if reply.is_ok() {
                    DepthStencilSetup::CreateView { texture: reply.object }
                } else {
                    DepthStencilSetup::Done(Err(ResourceError::Rejected(reply.status)))
                }
            },
            DepthStencilSetup::CreateView { texture } => {
                if reply.is_ok() {
                    DepthStencilSetup::Done(Ok((reply.object, texture)))
                } else {
                    commands.push(Command::Release { object: texture });
                    DepthStencilSetup::Done(Err(ResourceError::Rejected(reply.status)))
                }
            },
            DepthStencilSetup::Done(result) => DepthStencilSetup::Done(result),
        };
        assert(commands@ =~= self.next(event).1);
        (next, commands)
    }
}

/// Interface for a depth-stencil target.
#[derive(Debug, PartialEq)]
pub struct DepthStencilTarget {
    pub dsv: u64,
    pub res: u64,
}

impl DepthStencilTarget {
    /// The target that a finished setup gives.
    pub fn new(setup: DepthStencilSetup) -> (r: Result<DepthStencilTarget, ResourceError>)
        requires
            setup is Done,
        ensures
            setup->Done_0 matches Ok(made) ==> r == Ok::<DepthStencilTarget, ResourceError>(
                DepthStencilTarget { dsv: made.0, res: made.1 },
            ),
            setup->Done_0 matches Err(e) ==> r == Err::<DepthStencilTarget, ResourceError>(e),
    {
        match setup {
            DepthStencilSetup::Done(Ok((dsv, res))) => Ok(DepthStencilTarget { dsv, res }),
            DepthStencilSetup::Done(Err(e)) => Err(e),
            _ => Err(ResourceError::EmptyInput),
        }
    }

    /// Gives up view and texture: the objects to release, the view first,
    /// each only if the target still holds it. The target is empty
    /// afterwards.
    pub fn release(&mut self) -> (released: (Option<u64>, Option<u64>))
        ensures
            old(self).dsv != 0 ==> released.0 == Some(old(self).dsv),
            old(self).dsv == 0 ==> released.0 is None,
            old(self).res != 0 ==> released.1 == Some(old(self).res),
            old(self).res == 0 ==> released.1 is None,
            *final(self) == (DepthStencilTarget { dsv: 0, res: 0 }),
    {
        let view = native::take_handle(&mut self.dsv);
        let texture = native::take_handle(&mut self.res);
        (view, texture)
    }
}

} // verus!

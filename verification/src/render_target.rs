//! Render targets: views through which the pipeline writes colour.
use vstd::prelude::*;
use crate::device::Event;
use crate::device::Request;
use crate::graphics::Command;
use crate::native;
use crate::native::ResourceError;

verus! {

/// The way from a swap chain to a view of its first buffer.
#[derive(Debug, PartialEq)]
pub enum RenderTargetSetup {
    /// Waiting for the buffer of the swap chain.
    GetBuffer { swap_chain: u64 },
    /// Waiting for the view of the buffer; the setup holds the buffer.
    CreateView { buffer: u64 },
    /// Finished, with the view or the reason it could not be had.
    Done(Result<u64, ResourceError>),
}

impl RenderTargetSetup {
    /// The request whose answer the setup waits for; none once it is done.
    pub open spec fn pending(self) -> Option<Request> {
        match self {
            RenderTargetSetup::GetBuffer { swap_chain } => Some(
                Request::GetBackBuffer { swap_chain },
            ),
            RenderTargetSetup::CreateView { buffer } => Some(
                Request::CreateRenderTargetView { resource: buffer },
            ),
            RenderTargetSetup::Done(_) => None,
        }
    }

    /// The state that follows when `event` answers the pending request, and
    /// the commands to perform on the way. The buffer is released as soon as
    /// the device has answered the request for its view, whatever the
    /// answer: the view keeps the buffer alive.
    pub open spec fn next(self, event: Event) -> (RenderTargetSetup, Seq<Command>) {
        let reply = event->Object_0;
        match self {
            RenderTargetSetup::GetBuffer { .. } => if reply.succeeded() {
                (RenderTargetSetup::CreateView { buffer: reply.object }, Seq::empty())
            } else {
                (
                    RenderTargetSetup::Done(Err(ResourceError::Rejected(reply.status))),
                    Seq::empty(),
                )
            },
            RenderTargetSetup::CreateView { buffer } => (
                RenderTargetSetup::Done(
                    if reply.succeeded() {
                        Ok(reply.object)
                    } else {
                        Err(ResourceError::Rejected(reply.status))
                    },
                ),
                seq![Command::Release { object: buffer }],
            ),
            RenderTargetSetup::Done(_) => (self, Seq::empty()),
        }
    }

    /// Starts the setup of a render target for the display's swap chain.
    pub fn start(swap_chain: u64) -> (setup: RenderTargetSetup)
        ensures
            setup == (RenderTargetSetup::GetBuffer { swap_chain }),
    {
        RenderTargetSetup::GetBuffer { swap_chain }
    }

    /// The request to perform next; none once the setup is done.
    pub fn request(&self) -> (r: Option<Request>)
        ensures
            r == self.pending(),
    {
        match self {
            RenderTargetSetup::GetBuffer { swap_chain } => Some(
                Request::GetBackBuffer { swap_chain: *swap_chain },
            ),
            RenderTargetSetup::CreateView { buffer } => Some(
                Request::CreateRenderTargetView { resource: *buffer },
            ),
            RenderTargetSetup::Done(_) => None,
        }
    }

    /// Takes the answer to the pending request.
    pub fn advance(self, event: Event) -> (out: (RenderTargetSetup, Vec<Command>))
        requires
            self.pending() matches Some(request) && request.answered_by(event),
        ensures
            (out.0, out.1@) == self.next(event),
    {
        let mut commands: Vec<Command> = Vec::new();
        let reply = match event {
            Event::Object(reply) => reply,
            _ => {
                return (self, commands);
            },
        };
        let next = match self {
            RenderTargetSetup::GetBuffer { .. } => {
                if reply.is_ok() {
                    RenderTargetSetup::CreateView { buffer: reply.object }
                } else {
                    RenderTargetSetup::Done(Err(ResourceError::Rejected(reply.status)))
                }
            },
            RenderTargetSetup::CreateView { buffer } => {
                commands.push(Command::Release { object: buffer });
                if reply.is_ok() {
                    RenderTargetSetup::Done(Ok(reply.object))
                } else {
                    RenderTargetSetup::Done(Err(ResourceError::Rejected(reply.status)))
                }
            },
            RenderTargetSetup::Done(result) => RenderTargetSetup::Done(result),
        };
        assert(commands@ =~= self.next(event).1);
        (next, commands)
    }
}

/// Interface for a graphics render target.
#[derive(Debug, PartialEq)]
pub struct RenderTarget {
    pub rtv: u64,
}

impl RenderTarget {
    /// The render target that a finished setup gives.
    pub fn from_display(setup: RenderTargetSetup) -> (r: Result<RenderTarget, ResourceError>)
        requires
            setup is Done,
        ensures
            setup->Done_0 matches Ok(rtv) ==> r == Ok::<RenderTarget, ResourceError>(
                RenderTarget { rtv },
            ),
            setup->Done_0 matches Err(e) ==> r == Err::<RenderTarget, ResourceError>(e),
    {
        match setup {
            RenderTargetSetup::Done(Ok(rtv)) => Ok(RenderTarget { rtv }),
            RenderTargetSetup::Done(Err(e)) => Err(e),
            _ => Err(ResourceError::EmptyInput),
        }
    }

    /// Gives up the native view: the object to release, if the target still
    /// holds one. The target is empty afterwards.
    pub fn release(&mut self) -> (released: Option<u64>)
        ensures
            old(self).rtv != 0 ==> released == Some(old(self).rtv),
            old(self).rtv == 0 ==> released is None,
            final(self).rtv == 0,
    {
        native::take_handle(&mut self.rtv)
    }
}

} // verus!

//! The display: the swap chain through which frames reach a window, and the
//! chain of device calls that leads to it.
use vstd::prelude::*;
use crate::device::Event;
use crate::device::Interface;
use crate::device::Request;
use crate::graphics::Command;
use crate::graphics::Graphics;
use crate::graphics::releases;
use crate::native;
use crate::native::DeviceError;
use crate::native::DeviceStage;

verus! {

/// The description of a swap chain, as the device takes it.
#[derive(Debug, Copy, Clone, PartialEq, Eq, Structural)]
pub struct SwapChainDesc {
    pub width: u32,
    pub height: u32,
    pub refresh_numerator: u32,
    pub refresh_denominator: u32,
    pub format: u32,
    pub scanline_ordering: u32,
    pub scaling: u32,
    pub sample_count: u32,
    pub sample_quality: u32,
    pub buffer_usage: u32,
    pub buffer_count: u32,
    pub output_window: u64,
    pub windowed: bool,
    pub swap_effect: u32,
    pub flags: u32,
}

impl SwapChainDesc {
    /// One windowed back buffer of the given size in sRGB, for output as a
    /// render target, presented by discarding; the refresh rate is given
    /// as 1 over 60.
    pub open spec fn for_window(window: u64, width: u32, height: u32) -> SwapChainDesc {
        SwapChainDesc {
            width,
            height,
            refresh_numerator: 1,
            refresh_denominator: 60,
            format: native::FORMAT_R8G8B8A8_UNORM_SRGB,
            scanline_ordering: 0,
            scaling: 0,
            sample_count: 1,
            sample_quality: 0,
            buffer_usage: 0x60,
            buffer_count: 1,
            output_window: window,
            windowed: true,
            swap_effect: native::SWAP_EFFECT_DISCARD,
            flags: 0,
        }
    }

    pub fn new(window: u64, width: u32, height: u32) -> (desc: SwapChainDesc)
        ensures
            desc == SwapChainDesc::for_window(window, width, height),
    {
        SwapChainDesc {
            width,
            height,
            refresh_numerator: 1,
            refresh_denominator: 60,
            format: native::FORMAT_R8G8B8A8_UNORM_SRGB,
            scanline_ordering: 0,
            scaling: 0,
            sample_count: 1,
            sample_quality: 0,
            buffer_usage: native::USAGE_BACK_BUFFER + native::USAGE_RENDER_TARGET_OUTPUT,
            buffer_count: 1,
            output_window: window,
            windowed: true,
            swap_effect: native::SWAP_EFFECT_DISCARD,
            flags: 0,
        }
    }
}

/// The way from a device to a swap chain for a window. Each state but the
/// last waits for the answer to one request and holds the interfaces
/// obtained so far.
#[derive(Debug, PartialEq)]
pub enum DisplaySetup {
    /// Waiting for the device's DXGI interface.
    QueryDevice { device: u64, window: u64 },
    /// Waiting for the adapter the device runs on.
    GetAdapter { device: u64, window: u64, dxgi_device: u64 },
    /// Waiting for the factory the adapter came from.
    GetFactory { device: u64, window: u64, dxgi_device: u64, adapter: u64 },
    /// Waiting for the size of the window.
    GetClientRect { device: u64, window: u64, dxgi_device: u64, adapter: u64, factory: u64 },
    /// Waiting for the swap chain.
    CreateSwapChain {
        device: u64,
        window: u64,
        dxgi_device: u64,
        adapter: u64,
        factory: u64,
        desc: SwapChainDesc,
    },
    /// Finished, with the swap chain or the link that failed.
    Done(Result<u64, DeviceError>),
}

impl DisplaySetup {
    /// The request whose answer the setup waits for; none once it is done.
    pub open spec fn pending(self) -> Option<Request> {
        match self {
            DisplaySetup::QueryDevice { device, .. } => Some(
                Request::QueryInterface { object: device, interface: Interface::DxgiDevice },
            ),
            DisplaySetup::GetAdapter { dxgi_device, .. } => Some(
                Request::GetAdapter { dxgi_device },
            ),
            DisplaySetup::GetFactory { adapter, .. } => Some(Request::GetFactory { adapter }),
            DisplaySetup::GetClientRect { window, .. } => Some(Request::GetClientRect { window }),
            DisplaySetup::CreateSwapChain { device, factory, desc, .. } => Some(
                Request::CreateSwapChain { factory, device, desc },
            ),
            DisplaySetup::Done(_) => None,
        }
    }

    /// The intermediate interfaces that the setup holds, in the order in
    /// which it obtained them. The device is the caller's, and the swap
    /// chain is the result: neither is among them.
    pub open spec fn held(self) -> Seq<u64> {
        match self {
            DisplaySetup::QueryDevice { .. } => Seq::empty(),
            DisplaySetup::GetAdapter { dxgi_device, .. } => seq![dxgi_device],
            DisplaySetup::GetFactory { dxgi_device, adapter, .. } => seq![dxgi_device, adapter],
            DisplaySetup::GetClientRect { dxgi_device, adapter, factory, .. } => seq![
                dxgi_device,
                adapter,
                factory,
            ],
            DisplaySetup::CreateSwapChain { dxgi_device, adapter, factory, .. } => seq![
                dxgi_device,
                adapter,
                factory,
            ],
            DisplaySetup::Done(_) => Seq::empty(),
        }
    }

    /// The state that follows when `event` answers the pending request, and
    /// the commands to perform on the way. A link that fails ends the setup
    /// with that link and its status; the last link ends it with the swap
    /// chain. Whenever the setup ends, everything it held is released.
    pub open spec fn next(self, event: Event) -> (DisplaySetup, Seq<Command>) {
        match self {
            DisplaySetup::QueryDevice { device, window } => {
                let reply = event->Object_0;
                if reply.succeeded() {
                    (
                        DisplaySetup::GetAdapter { device, window, dxgi_device: reply.object },
                        Seq::empty(),
                    )
                } else {
                    (
                        DisplaySetup::Done(
                            Err(DeviceError { stage: DeviceStage::DxgiDevice, status: reply.status }),
                        ),
                        Seq::empty(),
                    )
                }
            },
            DisplaySetup::GetAdapter { device, window, dxgi_device } => {
                let reply = event->Object_0;
                if reply.succeeded() {
                    (
                        DisplaySetup::GetFactory {
                            device,
                            window,
                            dxgi_device,
                            adapter: reply.object,
                        },
                        Seq::empty(),
                    )
                } else {
                    (
                        DisplaySetup::Done(
                            Err(DeviceError { stage: DeviceStage::Adapter, status: reply.status }),
                        ),
                        releases(self.held()),
                    )
                }
            },
            DisplaySetup::GetFactory { device, window, dxgi_device, adapter } => {
                let reply = event->Object_0;
                if reply.succeeded() {
                    (
                        DisplaySetup::GetClientRect {
                            device,
                            window,
                            dxgi_device,
                            adapter,
                            factory: reply.object,
                        },
                        Seq::empty(),
                    )
                } else {
                    (
                        DisplaySetup::Done(
                            Err(DeviceError { stage: DeviceStage::Factory, status: reply.status }),
                        ),
                        releases(self.held()),
                    )
                }
            },
            DisplaySetup::GetClientRect { device, window, dxgi_device, adapter, factory } => (
                DisplaySetup::CreateSwapChain {
                    device,
                    window,
                    dxgi_device,
                    adapter,
                    factory,
                    desc: SwapChainDesc::for_window(
                        window,
                        event->ClientRect_width,
                        event->ClientRect_height,
                    ),
                },
                Seq::empty(),
            ),
            DisplaySetup::CreateSwapChain { .. } => {
                let reply = event->Object_0;
                if reply.succeeded() {
                    (DisplaySetup::Done(Ok(reply.object)), releases(self.held()))
                } else {
                    (
                        DisplaySetup::Done(
                            Err(DeviceError { stage: DeviceStage::SwapChain, status: reply.status }),
                        ),
                        releases(self.held()),
                    )
                }
            },
            DisplaySetup::Done(result) => (self, Seq::empty()),
        }
    }

    /// Starts the setup of a display for `window` on `device`.
    pub fn start(device: u64, window: u64) -> (setup: DisplaySetup)
        ensures
            setup == (DisplaySetup::QueryDevice { device, window }),
    {
        DisplaySetup::QueryDevice { device, window }
    }

    /// The request to perform next; none once the setup is done.
    pub fn request(&self) -> (r: Option<Request>)
        ensures
            r == self.pending(),
    {
        match self {
            DisplaySetup::QueryDevice { device, .. } => Some(
                Request::QueryInterface { object: *device, interface: Interface::DxgiDevice },
            ),
            DisplaySetup::GetAdapter { dxgi_device, .. } => Some(
                Request::GetAdapter { dxgi_device: *dxgi_device },
            ),
            DisplaySetup::GetFactory { adapter, .. } => Some(
                Request::GetFactory { adapter: *adapter },
            ),
            DisplaySetup::GetClientRect { window, .. } => Some(
                Request::GetClientRect { window: *window },
            ),
            DisplaySetup::CreateSwapChain { device, factory, desc, .. } => Some(
                Request::CreateSwapChain { factory: *factory, device: *device, desc: *desc },
            ),
            DisplaySetup::Done(_) => None,
        }
    }

    /// Takes the answer to the pending request.
    pub fn advance(self, event: Event) -> (out: (DisplaySetup, Vec<Command>))
        requires
            self.pending() matches Some(request) && request.answered_by(event),
        ensures
            (out.0, out.1@) == self.next(event),
    {
        let mut commands: Vec<Command> = Vec::new();
        let next = match self {
            DisplaySetup::QueryDevice { device, window } => {
                let reply = match event {
                    Event::Object(reply) => reply,
                    _ => {
                        return (self, commands);
                    },
                };
                if reply.is_ok() {
                    DisplaySetup::GetAdapter { device, window, dxgi_device: reply.object }
                } else {
                    DisplaySetup::Done(
                        Err(DeviceError { stage: DeviceStage::DxgiDevice, status: reply.status }),
                    )
                }
            },
            DisplaySetup::GetAdapter { device, window, dxgi_device } => {
                let reply = match event {
                    Event::Object(reply) => reply,
                    _ => {
                        return (self, commands);
                    },
                };
                if reply.is_ok() {
                    DisplaySetup::GetFactory { device, window, dxgi_device, adapter: reply.object }
                } else {
                    commands.push(Command::Release { object: dxgi_device });
                    DisplaySetup::Done(
                        Err(DeviceError { stage: DeviceStage::Adapter, status: reply.status }),
                    )
                }
            },
            DisplaySetup::GetFactory { device, window, dxgi_device, adapter } => {
                let reply = match event {
                    Event::Object(reply) => reply,
                    _ => {
                        return (self, commands);
                    },
                };
                if reply.is_ok() {
                    DisplaySetup::GetClientRect {
                        device,
                        window,
                        dxgi_device,
                        adapter,
                        factory: reply.object,
                    }
                } else {
                    commands.push(Command::Release { object: dxgi_device });
                    commands.push(Command::Release { object: adapter });
                    DisplaySetup::Done(
                        Err(DeviceError { stage: DeviceStage::Factory, status: reply.status }),
                    )
                }
            },
            DisplaySetup::GetClientRect { device, window, dxgi_device, adapter, factory } => {
                let (width, height) = match event {
                    Event::ClientRect { width, height } => (width, height),
                    _ => {
                        return (self, commands);
                    },
                };
                DisplaySetup::CreateSwapChain {
                    device,
                    window,
                    dxgi_device,
                    adapter,
                    factory,
                    desc: SwapChainDesc::new(window, width, height),
                }
            },
            DisplaySetup::CreateSwapChain { dxgi_device, adapter, factory, .. } => {
                let reply = match event {
                    Event::Object(reply) => reply,
                    _ => {
                        return (self, commands);
                    },
                };
                commands.push(Command::Release { object: dxgi_device });
                commands.push(Command::Release { object: adapter });
                commands.push(Command::Release { object: factory });
                if reply.is_ok() {
                    DisplaySetup::Done(Ok(reply.object))
                } else {
                    DisplaySetup::Done(
                        Err(DeviceError { stage: DeviceStage::SwapChain, status: reply.status }),
                    )
                }
            },
            DisplaySetup::Done(result) => DisplaySetup::Done(result),
        };
        assert(commands@ =~= self.next(event).1);
        (next, commands)
    }
}

/// Implements functionality for a graphics display.
#[derive(Debug, PartialEq)]
pub struct Display {
    pub swap_chain: u64,
}

impl Display {
    /// The display that a finished setup gives.
    pub fn new(setup: DisplaySetup) -> (r: Result<Display, DeviceError>)
        requires
            setup is Done,
        ensures
            setup->Done_0 matches Ok(swap_chain) ==> r == Ok::<Display, DeviceError>(
                Display { swap_chain },
            ),
            setup->Done_0 matches Err(e) ==> r == Err::<Display, DeviceError>(e),
    {
        match setup {
            DisplaySetup::Done(Ok(swap_chain)) => Ok(Display { swap_chain }),
            DisplaySetup::Done(Err(e)) => Err(e),
            _ => Err(DeviceError { stage: DeviceStage::SwapChain, status: native::S_OK }),
        }
    }

    /// Updates the image on the physical display, waiting for the next
    /// vertical blank.
    pub fn present(&self, gfx: &mut Graphics)
        ensures
            final(gfx).issued(
                *old(gfx),
                seq![Command::Present { swap_chain: self.swap_chain, sync_interval: 1, flags: 0 }],
            ),
    {
        gfx.commands.push(
            Command::Present { swap_chain: self.swap_chain, sync_interval: 1, flags: 0 },
        );
        assert(gfx.commands@ =~= old(gfx).commands@ + seq![
            Command::Present { swap_chain: self.swap_chain, sync_interval: 1, flags: 0 },
        ]);
    }

    /// Gives up the swap chain: the object to release, if the display still
    /// holds one. The display is empty afterwards.
    pub fn release(&mut self) -> (released: Option<u64>)
        ensures
            old(self).swap_chain != 0 ==> released == Some(old(self).swap_chain),
            old(self).swap_chain == 0 ==> released is None,
            final(self).swap_chain == 0,
    {
        native::take_handle(&mut self.swap_chain)
    }
}

} // verus!

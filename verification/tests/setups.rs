use gfx::depth_stencil_target::DepthStencilFormat;
use gfx::depth_stencil_target::DepthStencilSetup;
use gfx::depth_stencil_target::DepthStencilTarget;
use gfx::device::Event;
use gfx::device::Interface;
use gfx::device::Request;
use gfx::display::Display;
use gfx::display::DisplaySetup;
use gfx::display::SwapChainDesc;
use gfx::graphics::Command;
use gfx::graphics::Graphics;
use gfx::graphics::GraphicsSetup;
use gfx::native::DeviceError;
use gfx::native::DeviceStage;
use gfx::native::NativeReply;
use gfx::native::ResourceError;
use gfx::render_target::RenderTarget;
use gfx::render_target::RenderTargetSetup;
use gfx::texture::Texture2dDesc;

fn setups_ok(object: u64) -> Event {
    Event::Object(NativeReply { status: 0, object })
}

fn setups_failed(status: i32) -> Event {
    Event::Object(NativeReply { status, object: 0 })
}

#[test]
fn swap_chain_description() {
    assert_eq!(
        SwapChainDesc::new(0xBEEF, 1280, 720),
        SwapChainDesc {
            width: 1280,
            height: 720,
            refresh_numerator: 1,
            refresh_denominator: 60,
            format: 29,
            scanline_ordering: 0,
            scaling: 0,
            sample_count: 1,
            sample_quality: 0,
            buffer_usage: 0x60,
            buffer_count: 1,
            output_window: 0xBEEF,
            windowed: true,
            swap_effect: 0,
            flags: 0,
        }
    );
}

#[test]
fn display_setup_walks_the_chain() {
    let setup = DisplaySetup::start(0xD, 0xBEEF);
    assert_eq!(setup.request(), Some(Request::QueryInterface { object: 0xD, interface: Interface::DxgiDevice }));
    let (setup, commands) = setup.advance(setups_ok(0x1));
    assert!(commands.is_empty());
    assert_eq!(setup.request(), Some(Request::GetAdapter { dxgi_device: 0x1 }));
    let (setup, commands) = setup.advance(setups_ok(0x2));
    assert!(commands.is_empty());
    assert_eq!(setup.request(), Some(Request::GetFactory { adapter: 0x2 }));
    let (setup, commands) = setup.advance(setups_ok(0x3));
    assert!(commands.is_empty());
    assert_eq!(setup.request(), Some(Request::GetClientRect { window: 0xBEEF }));
    let (setup, commands) = setup.advance(Event::ClientRect { width: 800, height: 600 });
    assert!(commands.is_empty());
    assert_eq!(
        setup.request(),
        Some(Request::CreateSwapChain { factory: 0x3, device: 0xD, desc: SwapChainDesc::new(0xBEEF, 800, 600) })
    );
    let (setup, commands) = setup.advance(setups_ok(0x4));
    assert_eq!(
        commands,
        vec![
            Command::Release { object: 0x1 },
            Command::Release { object: 0x2 },
            Command::Release { object: 0x3 },
        ]
    );
    assert_eq!(setup.request(), None);
    assert_eq!(Display::new(setup), Ok(Display { swap_chain: 0x4 }));
}

#[test]
fn display_setup_fails_at_the_first_link() {
    let (setup, commands) = DisplaySetup::start(0xD, 0xBEEF).advance(setups_failed(-11));
    assert!(commands.is_empty());
    assert_eq!(setup.request(), None);
    assert_eq!(Display::new(setup), Err(DeviceError { stage: DeviceStage::DxgiDevice, status: -11 }));
}

#[test]
fn display_setup_fails_at_the_adapter() {
    let (setup, _) = DisplaySetup::start(0xD, 0xBEEF).advance(setups_ok(0x1));
    let (setup, commands) = setup.advance(setups_failed(-12));
    assert_eq!(commands, vec![Command::Release { object: 0x1 }]);
    assert_eq!(Display::new(setup), Err(DeviceError { stage: DeviceStage::Adapter, status: -12 }));
}

#[test]
fn display_setup_fails_at_the_factory() {
    let (setup, _) = DisplaySetup::start(0xD, 0xBEEF).advance(setups_ok(0x1));
    let (setup, _) = setup.advance(setups_ok(0x2));
    let (setup, commands) = setup.advance(setups_failed(-13));
    assert_eq!(commands, vec![Command::Release { object: 0x1 }, Command::Release { object: 0x2 }]);
    assert_eq!(Display::new(setup), Err(DeviceError { stage: DeviceStage::Factory, status: -13 }));
}

#[test]
fn display_setup_fails_at_the_swap_chain() {
    let (setup, _) = DisplaySetup::start(0xD, 0xBEEF).advance(setups_ok(0x1));
    let (setup, _) = setup.advance(setups_ok(0x2));
    let (setup, _) = setup.advance(setups_ok(0x3));
    let (setup, _) = setup.advance(Event::ClientRect { width: 1, height: 1 });
    let (setup, commands) = setup.advance(setups_failed(-14));
    assert_eq!(
        commands,
        vec![
            Command::Release { object: 0x1 },
            Command::Release { object: 0x2 },
            Command::Release { object: 0x3 },
        ]
    );
    assert_eq!(Display::new(setup), Err(DeviceError { stage: DeviceStage::SwapChain, status: -14 }));
}

#[test]
fn display_release_is_idempotent() {
    let mut display = Display { swap_chain: 9 };
    assert_eq!(display.release(), Some(9));
    assert_eq!(display.release(), None);
}

#[test]
fn render_target_setup_releases_the_buffer() {
    let setup = RenderTargetSetup::start(0x4);
    assert_eq!(setup.request(), Some(Request::GetBackBuffer { swap_chain: 0x4 }));
    let (setup, commands) = setup.advance(setups_ok(0x5));
    assert!(commands.is_empty());
    assert_eq!(setup.request(), Some(Request::CreateRenderTargetView { resource: 0x5 }));
    let (setup, commands) = setup.advance(setups_ok(0x6));
    assert_eq!(commands, vec![Command::Release { object: 0x5 }]);
    assert_eq!(setup.request(), None);
    assert_eq!(RenderTarget::from_display(setup), Ok(RenderTarget { rtv: 0x6 }));
}

#[test]
fn render_target_setup_failures() {
    let (setup, commands) = RenderTargetSetup::start(0x4).advance(setups_failed(-1));
    assert!(commands.is_empty());
    assert_eq!(RenderTarget::from_display(setup), Err(ResourceError::Rejected(-1)));
    let (setup, _) = RenderTargetSetup::start(0x4).advance(setups_ok(0x5));
    let (setup, commands) = setup.advance(setups_failed(-2));
    assert_eq!(commands, vec![Command::Release { object: 0x5 }]);
    assert_eq!(RenderTarget::from_display(setup), Err(ResourceError::Rejected(-2)));
}

#[test]
fn render_target_release_is_idempotent() {
    let mut rt = RenderTarget { rtv: 6 };
    assert_eq!(rt.release(), Some(6));
    assert_eq!(rt.release(), None);
}

#[test]
fn depth_format_codes() {
    assert_eq!(DepthStencilFormat::D16UNorm.to_native(), 55);
    assert_eq!(DepthStencilFormat::D24UNormS8.to_native(), 45);
    assert_eq!(DepthStencilFormat::D32Float.to_native(), 40);
}

#[test]
fn depth_stencil_setup_makes_texture_and_view() {
    let setup = DepthStencilSetup::start(DepthStencilFormat::D24UNormS8, 1280, 720);
    assert_eq!(
        setup.request(),
        Some(Request::CreateTexture2d {
            desc: Texture2dDesc {
                width: 1280,
                height: 720,
                mip_levels: 1,
                array_size: 1,
                format: 45,
                sample_count: 1,
                sample_quality: 0,
                usage: 0,
                bind_flags: 0x40,
                cpu_access_flags: 0,
                misc_flags: 0,
            },
            init: None,
        })
    );
    let (setup, commands) = setup.advance(setups_ok(0x7));
    assert!(commands.is_empty());
    assert_eq!(setup.request(), Some(Request::CreateDepthStencilView { resource: 0x7 }));
    let (setup, commands) = setup.advance(setups_ok(0x8));
    assert!(commands.is_empty());
    assert_eq!(DepthStencilTarget::new(setup), Ok(DepthStencilTarget { dsv: 0x8, res: 0x7 }));
}

#[test]
fn depth_stencil_setup_failures() {
    let (setup, commands) = DepthStencilSetup::start(DepthStencilFormat::D32Float, 1, 1).advance(setups_failed(-1));
    assert!(commands.is_empty());
    assert_eq!(DepthStencilTarget::new(setup), Err(ResourceError::Rejected(-1)));
    let (setup, _) = DepthStencilSetup::start(DepthStencilFormat::D32Float, 1, 1).advance(setups_ok(0x7));
    let (setup, commands) = setup.advance(setups_failed(-2));
    assert_eq!(commands, vec![Command::Release { object: 0x7 }]);
    assert_eq!(DepthStencilTarget::new(setup), Err(ResourceError::Rejected(-2)));
}

#[test]
fn depth_stencil_release_gives_view_then_texture() {
    let mut ds = DepthStencilTarget { dsv: 8, res: 7 };
    assert_eq!(ds.release(), (Some(8), Some(7)));
    assert_eq!(ds.release(), (None, None));
    let mut half = DepthStencilTarget { dsv: 0, res: 7 };
    assert_eq!(half.release(), (None, Some(7)));
}

#[test]
fn graphics_setup_without_diagnostics() {
    let setup = GraphicsSetup::start(false);
    assert_eq!(
        setup.request(),
        Some(Request::CreateDevice { flags: 0, feature_level: 0xb000, sdk_version: 7 })
    );
    let (setup, commands) = setup.advance(Event::Device { status: 0, device: 0xD, context: 0xC });
    assert!(commands.is_empty());
    assert_eq!(setup.request(), None);
    let gfx = Graphics::new(setup).unwrap();
    assert_eq!(gfx.device, 0xD);
    assert_eq!(gfx.context, 0xC);
    assert!(gfx.commands.is_empty());
}

#[test]
fn graphics_setup_fails_with_the_device() {
    let (setup, commands) = GraphicsSetup::start(true).advance(Event::Device { status: -5, device: 0, context: 0 });
    assert!(commands.is_empty());
    assert_eq!(Graphics::new(setup), Err(DeviceError { stage: DeviceStage::Device, status: -5 }));
}

#[test]
fn graphics_setup_arms_the_debug_layer() {
    let setup = GraphicsSetup::start(true);
    assert_eq!(
        setup.request(),
        Some(Request::CreateDevice { flags: 2, feature_level: 0xb000, sdk_version: 7 })
    );
    let (setup, _) = setup.advance(Event::Device { status: 0, device: 0xD, context: 0xC });
    assert_eq!(setup.request(), Some(Request::QueryInterface { object: 0xD, interface: Interface::Debug }));
    let (setup, commands) = setup.advance(setups_ok(0xDB));
    assert!(commands.is_empty());
    assert_eq!(setup.request(), Some(Request::QueryInterface { object: 0xDB, interface: Interface::InfoQueue }));
    let (setup, commands) = setup.advance(setups_ok(0x1F));
    assert_eq!(
        commands,
        vec![
            Command::SetBreakOnSeverity { info_queue: 0x1F, severity: 0 },
            Command::SetBreakOnSeverity { info_queue: 0x1F, severity: 1 },
            Command::SetBreakOnSeverity { info_queue: 0x1F, severity: 2 },
            Command::Release { object: 0x1F },
            Command::Release { object: 0xDB },
        ]
    );
    assert!(Graphics::new(setup).is_ok());
}

#[test]
fn graphics_setup_goes_on_without_the_debug_interfaces() {
    let (setup, _) = GraphicsSetup::start(true).advance(Event::Device { status: 0, device: 0xD, context: 0xC });
    let (setup, commands) = setup.advance(setups_failed(-1));
    assert!(commands.is_empty());
    assert_eq!(Graphics::new(setup).unwrap().device, 0xD);

    let (setup, _) = GraphicsSetup::start(true).advance(Event::Device { status: 0, device: 0xD, context: 0xC });
    let (setup, _) = setup.advance(setups_ok(0xDB));
    let (setup, commands) = setup.advance(setups_failed(-1));
    assert_eq!(commands, vec![Command::Release { object: 0xDB }]);
    assert_eq!(Graphics::new(setup).unwrap().context, 0xC);

    let (setup, _) = GraphicsSetup::start(true).advance(Event::Device { status: 0, device: 0xD, context: 0xC });
    let (setup, commands) = setup.advance(setups_ok(0));
    assert!(commands.is_empty());
    assert_eq!(setup.request(), None);
}

#[test]
fn graphics_release_gives_device_then_context() {
    let mut gfx = Graphics { device: 0xD, context: 0xC, commands: Vec::new() };
    assert_eq!(gfx.release(), (Some(0xD), Some(0xC)));
    assert_eq!(gfx.release(), (None, None));
}

#[test]
fn graphics_starts_the_setups() {
    let gfx = Graphics { device: 0xD, context: 0xC, commands: Vec::new() };
    assert_eq!(gfx.create_display(0xBEEF), DisplaySetup::QueryDevice { device: 0xD, window: 0xBEEF });
    assert_eq!(
        gfx.create_render_target(&Display { swap_chain: 4 }),
        RenderTargetSetup::GetBuffer { swap_chain: 4 }
    );
    assert_eq!(
        gfx.create_depth_stencil_target(DepthStencilFormat::D16UNorm, 2, 3),
        DepthStencilSetup::start(DepthStencilFormat::D16UNorm, 2, 3)
    );
}

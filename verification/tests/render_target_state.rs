use gfx::color::Color4F;
use gfx::color::Color4T;
use gfx::depth_stencil_target::DepthStencilTarget;
use gfx::graphics::Command;
use gfx::graphics::Graphics;
use gfx::render_target::RenderTarget;
use gfx::render_target_state::RenderTargetState;

fn rts_graphics() -> Graphics {
    Graphics { device: 0xD, context: 0xC, commands: Vec::new() }
}

fn rts_with_depth() -> RenderTargetState {
    RenderTargetState::new(RenderTarget { rtv: 0x20 }, Some(DepthStencilTarget { dsv: 0x21, res: 0x22 }))
}

fn rts_is_bound(commands: &[Command]) -> bool {
    let mut bound = false;
    for command in commands {
        if let Command::SetRenderTargets { count, .. } = command {
            bound = *count != 0;
        }
    }
    bound
}

#[test]
fn new_state_clears_nothing() {
    let state = rts_with_depth();
    assert_eq!(state.flags, 0);
    assert_eq!(state.clear_color, Color4T { r: 0, g: 0, b: 0, a: 0 });
    assert_eq!(state.clear_depth, 0);
    let mut gfx = rts_graphics();
    state.begin(&mut gfx);
    assert_eq!(gfx.commands, vec![Command::SetRenderTargets { count: 1, color: 0x20, depth: 0x21 }]);
}

#[test]
fn the_two_flags_are_independent() {
    assert_ne!(RenderTargetState::CLEAR_COLOR, RenderTargetState::CLEAR_Z);
    let mut state = rts_with_depth();
    state.enable_clear_depth(1.0f32.to_bits());
    assert_eq!(state.flags & RenderTargetState::CLEAR_COLOR, 0);
    assert_ne!(state.flags & RenderTargetState::CLEAR_Z, 0);
    state.enable_clear_color(Color4F::black());
    assert_ne!(state.flags & RenderTargetState::CLEAR_COLOR, 0);
    state.disable_clear_depth();
    assert_ne!(state.flags & RenderTargetState::CLEAR_COLOR, 0);
    assert_eq!(state.flags & RenderTargetState::CLEAR_Z, 0);
    state.disable_clear_color();
    assert_eq!(state.flags, 0);
    assert_eq!(state.clear_color, Color4F::black());
    assert_eq!(state.clear_depth, 1.0f32.to_bits());
}

#[test]
fn begin_without_color_clear_leaves_the_target_alone() {
    let mut state = rts_with_depth();
    state.enable_clear_depth(1.0f32.to_bits());
    let mut gfx = rts_graphics();
    state.begin(&mut gfx);
    assert!(gfx.commands.iter().all(|c| !matches!(c, Command::ClearRenderTarget { .. })));
    assert_eq!(
        gfx.commands,
        vec![
            Command::ClearDepthStencil { view: 0x21, flags: 1, depth: 1.0f32.to_bits(), stencil: 0 },
            Command::SetRenderTargets { count: 1, color: 0x20, depth: 0x21 },
        ]
    );
    let mut again = rts_with_depth();
    again.enable_clear_color(Color4F::black());
    again.disable_clear_color();
    let mut gfx = rts_graphics();
    again.begin(&mut gfx);
    assert_eq!(gfx.commands, vec![Command::SetRenderTargets { count: 1, color: 0x20, depth: 0x21 }]);
}

#[test]
fn begin_then_end_with_both_clears() {
    let mut state = rts_with_depth();
    state.enable_clear_color(Color4F::black());
    state.enable_clear_depth(1.0f32.to_bits());
    let mut gfx = rts_graphics();
    state.begin(&mut gfx);
    assert!(rts_is_bound(&gfx.commands));
    state.end(&mut gfx);
    assert!(!rts_is_bound(&gfx.commands));
    assert_eq!(
        gfx.commands,
        vec![
            Command::ClearRenderTarget {
                view: 0x20,
                color: Color4T { r: 0, g: 0, b: 0, a: 1.0f32.to_bits() },
            },
            Command::ClearDepthStencil { view: 0x21, flags: 1, depth: 1.0f32.to_bits(), stencil: 0 },
            Command::SetRenderTargets { count: 1, color: 0x20, depth: 0x21 },
            Command::SetRenderTargets { count: 0, color: 0, depth: 0 },
        ]
    );
}

#[test]
fn without_a_depth_target_only_color_is_bound() {
    let mut state = RenderTargetState::new(RenderTarget { rtv: 0x20 }, None);
    state.enable_clear_color(Color4F::white());
    state.enable_clear_depth(1.0f32.to_bits());
    let mut gfx = rts_graphics();
    state.begin(&mut gfx);
    state.end(&mut gfx);
    let one = 1.0f32.to_bits();
    assert_eq!(
        gfx.commands,
        vec![
            Command::ClearRenderTarget { view: 0x20, color: Color4T { r: one, g: one, b: one, a: one } },
            Command::SetRenderTargets { count: 1, color: 0x20, depth: 0 },
            Command::SetRenderTargets { count: 0, color: 0, depth: 0 },
        ]
    );
}

#[test]
fn begin_and_end_are_not_guarded() {
    let state = rts_with_depth();
    let mut gfx = rts_graphics();
    state.end(&mut gfx);
    state.begin(&mut gfx);
    state.begin(&mut gfx);
    assert_eq!(gfx.commands.len(), 3);
    assert!(rts_is_bound(&gfx.commands));
}

#[test]
fn destroying_the_state_hands_out_its_objects() {
    assert_eq!(rts_with_depth().destroy(), vec![0x20, 0x21, 0x22]);
    assert_eq!(RenderTargetState::new(RenderTarget { rtv: 0x20 }, None).destroy(), vec![0x20]);
    assert_eq!(
        RenderTargetState::new(RenderTarget { rtv: 0 }, Some(DepthStencilTarget { dsv: 0, res: 0x22 })).destroy(),
        vec![0x22]
    );
}

#[test]
fn the_setters_touch_their_own_bit_only() {
    let mut state = rts_with_depth();
    state.flags = 0x10;
    state.enable_clear_color(Color4F::white());
    assert_eq!(state.flags, 0x11);
    state.enable_clear_depth(0);
    assert_eq!(state.flags, 0x13);
    state.disable_clear_color();
    assert_eq!(state.flags, 0x12);
    state.disable_clear_depth();
    assert_eq!(state.flags, 0x10);
    assert_eq!(state.rt, RenderTarget { rtv: 0x20 });
}

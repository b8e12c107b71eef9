//! The render target state: which targets a pass renders to, and whether
//! and to what each is cleared when the pass begins.
use vstd::prelude::*;
use crate::color::Color4F;
use crate::color::Color4T;
use crate::depth_stencil_target::DepthStencilTarget;
use crate::graphics::Command;
use crate::graphics::Graphics;
use crate::graphics::bound_targets;
use crate::native;
use crate::native::held;
use crate::numerics::Float32;
use crate::numerics::ZERO;
use crate::render_target::RenderTarget;

verus! {

/// Handles binding render targets to the graphics pipeline. In `flags`,
/// `CLEAR_COLOR` says that a pass begins by clearing the colour target and
/// `CLEAR_Z` that it begins by clearing the depth target.
#[derive(Debug, PartialEq)]
pub struct RenderTargetState {
    pub rt: RenderTarget,
    pub ds: Option<DepthStencilTarget>,
    pub clear_color: Color4F,
    pub clear_depth: Float32,
    pub flags: u32,
}

impl RenderTargetState {
    pub const CLEAR_COLOR: u32 = 1;

    pub const CLEAR_Z: u32 = 2;

    /// Whether a pass begins by clearing the colour target.
    pub open spec fn clear_color_enabled(&self) -> bool {
        self.flags & 1 != 0
    }

    /// Whether a pass begins by clearing the depth target, if there is one.
    pub open spec fn clear_depth_enabled(&self) -> bool {
        self.flags & 2 != 0
    }

    /// What beginning a pass issues: the clear of the colour target if
    /// enabled; the clear of the depth target, depth only, if enabled and
    /// there is one; then the binding of the colour target, together with
    /// the depth target if there is one.
    pub open spec fn begin_commands(&self) -> Seq<Command> {
        let color = if self.clear_color_enabled() {
            seq![Command::ClearRenderTarget { view: self.rt.rtv, color: self.clear_color }]
        } else {
            Seq::empty()
        };
        match self.ds {
            Some(ds) => {
                let depth = if self.clear_depth_enabled() {
                    seq![
                        Command::ClearDepthStencil {
                            view: ds.dsv,
                            flags: native::CLEAR_DEPTH,
                            depth: self.clear_depth,
                            stencil: 0,
                        },
                    ]
                } else {
                    Seq::empty()
                };
                color + depth + seq![
                    Command::SetRenderTargets { count: 1, color: self.rt.rtv, depth: ds.dsv },
                ]
            },
            None => color + seq![
                Command::SetRenderTargets { count: 1, color: self.rt.rtv, depth: 0 },
            ],
        }
    }

    /// What ending a pass issues: all targets are unbound.
    pub open spec fn end_commands() -> Seq<Command> {
        seq![Command::SetRenderTargets { count: 0, color: 0, depth: 0 }]
    }

    /// Creates a new render target state with default settings: nothing is
    /// cleared.
    pub fn new(rt: RenderTarget, ds: Option<DepthStencilTarget>) -> (state: RenderTargetState)
        ensures
            state == (RenderTargetState {
                rt,
                ds,
                clear_color: Color4T { r: ZERO, g: ZERO, b: ZERO, a: ZERO },
                clear_depth: ZERO,
                flags: 0,
            }),
            !state.clear_color_enabled(),
            !state.clear_depth_enabled(),
    {
        assert(0u32 & 1 == 0 && 0u32 & 2 == 0) by (bit_vector);
        RenderTargetState {
            rt,
            ds,
            clear_color: Color4T { r: ZERO, g: ZERO, b: ZERO, a: ZERO },
            clear_depth: ZERO,
            flags: 0,
        }
    }

    /// Sets the color to clear the render target to.
    pub fn enable_clear_color(&mut self, color: Color4F)
        ensures
            final(self).clear_color_enabled(),
            final(self).clear_depth_enabled() == old(self).clear_depth_enabled(),
            *final(self) == (RenderTargetState {
                clear_color: color,
                flags: old(self).flags | 1,
                ..*old(self)
            }),
    {
        let flags: u32 = self.flags;
        assert((flags | 1) & 1 != 0 && (((flags | 1) & 2 != 0) == (flags & 2 != 0)))
            by (bit_vector);
        self.flags = flags | Self::CLEAR_COLOR;
        self.clear_color = color;
    }

    /// Disables clearing of the render target state.
    pub fn disable_clear_color(&mut self)
        ensures
            !final(self).clear_color_enabled(),
            final(self).clear_depth_enabled() == old(self).clear_depth_enabled(),
            *final(self) == (RenderTargetState { flags: old(self).flags & !1u32, ..*old(self) }),
    {
        let flags: u32 = self.flags;
        assert((flags & !1u32) & 1 == 0 && (((flags & !1u32) & 2 != 0) == (flags & 2 != 0)))
            by (bit_vector);
        self.flags = flags & !Self::CLEAR_COLOR;
    }

    /// Enables clearing of the depth buffer.
    pub fn enable_clear_depth(&mut self, depth: Float32)
        ensures
            final(self).clear_depth_enabled(),
            final(self).clear_color_enabled() == old(self).clear_color_enabled(),
            *final(self) == (RenderTargetState {
                clear_depth: depth,
                flags: old(self).flags | 2,
                ..*old(self)
            }),
    {
        let flags: u32 = self.flags;
        assert((flags | 2) & 2 != 0 && (((flags | 2) & 1 != 0) == (flags & 1 != 0)))
            by (bit_vector);
        self.flags = flags | Self::CLEAR_Z;
        self.clear_depth = depth;
    }

    /// Disables clearing of the depth buffer.
    pub fn disable_clear_depth(&mut self)
        ensures
            !final(self).clear_depth_enabled(),
            final(self).clear_color_enabled() == old(self).clear_color_enabled(),
            *final(self) == (RenderTargetState { flags: old(self).flags & !2u32, ..*old(self) }),
    {
        let flags: u32 = self.flags;
        assert((flags & !2u32) & 2 == 0 && (((flags & !2u32) & 1 != 0) == (flags & 1 != 0)))
            by (bit_vector);
        self.flags = flags & !Self::CLEAR_Z;
    }

    /// Begins rendering to the render target state.
    pub fn begin(&self, gfx: &mut Graphics)
        ensures
            final(gfx).issued(*old(gfx), self.begin_commands()),
    {
        if (self.flags & Self::CLEAR_COLOR) != 0 {
            gfx.clear_render_target(&self.rt, &self.clear_color);
        }
        match &self.ds {
            Some(ds) => {
                if (self.flags & Self::CLEAR_Z) != 0 {
                    gfx.clear_depth_stencil_target(ds, true, self.clear_depth, false, 0);
                }
                gfx.set_render_target_and_depth(&self.rt, ds);
            },
            None => {
                gfx.set_render_target(&self.rt);
            },
        }
        assert(gfx.commands@ =~= old(gfx).commands@ + self.begin_commands());
    }

    /// Finishes rendering to the render target state.
    pub fn end(&self, gfx: &mut Graphics)
        ensures
            final(gfx).issued(*old(gfx), RenderTargetState::end_commands()),
    {
        gfx.unbind_render_targets();
    }

    /// Every native object the state owns: the colour view, then the depth
    /// view and its texture.
    pub open spec fn objects(&self) -> Seq<u64> {
        match self.ds {
            Some(ds) => seq![self.rt.rtv, ds.dsv, ds.res],
            None => seq![self.rt.rtv],
        }
    }

    /// Takes the state apart and hands over the native objects it owned,
    /// each to be released once; null objects are left out.
    pub fn destroy(self) -> (released: Vec<u64>)
        ensures
            released@ == held(self.objects()),
    {
        let mut released: Vec<u64> = Vec::new();
        let ghost all = self.objects();
        assert(all.take(0) =~= Seq::<u64>::empty());
        native::push_held(&mut released, self.rt.rtv, Ghost(all), Ghost(0));
        match self.ds {
            Some(ds) => {
                native::push_held(&mut released, ds.dsv, Ghost(all), Ghost(1));
                native::push_held(&mut released, ds.res, Ghost(all), Ghost(2));
                assert(all.take(3) =~= all);
            },
            None => {
                assert(all.take(1) =~= all);
            },
        }
        released
    }
}

/// A pass that begins with the clearing of colour disabled issues no clear
/// of a colour target: what the target held stays until it is drawn over.
pub proof fn lemma_begin_keeps_color(state: RenderTargetState)
    requires
        !state.clear_color_enabled(),
    ensures
        forall|i: int|
            0 <= i < state.begin_commands().len() ==> !(#[trigger] state.begin_commands()[i]
                is ClearRenderTarget),
{
}

/// A pass that begins binds the colour target of the state, together with
/// its depth target if it has one.
pub proof fn lemma_begin_binds(state: RenderTargetState, before: Seq<Command>)
    ensures
        bound_targets(before + state.begin_commands()) == (
            state.rt.rtv,
            match state.ds {
                Some(ds) => ds.dsv,
                None => 0u64,
            },
        ),
{
    let all = before + state.begin_commands();
    assert(all.last() == state.begin_commands().last());
}

/// After a pass has begun and ended, no render target is bound, whatever
/// was issued before the pass and between its begin and its end.
pub proof fn lemma_begin_end_unbinds(
    state: RenderTargetState,
    before: Seq<Command>,
    between: Seq<Command>,
)
    ensures
        bound_targets(
            before + state.begin_commands() + between + RenderTargetState::end_commands(),
        ) == (0u64, 0u64),
{
    let all = before + state.begin_commands() + between + RenderTargetState::end_commands();
    assert(all.last() == RenderTargetState::end_commands().last());
}

} // verus!

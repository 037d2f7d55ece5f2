//! Programs: the units of application behaviour that draw on renderers.

use vstd::prelude::*;
use crate::appmgmt::{EventLoopAction, WindowEvent};
use crate::renderobj::RenderObject;
use crate::texturerenderer::TextureRenderer;
use crate::timing::Timing;

verus! {

/// One indexed draw of a model with a pipeline and a bind group, as recorded
/// into a render pass.
#[derive(Clone, Copy, Debug, PartialEq, Eq, Structural)]
pub struct DrawCall {
    pub pipeline: usize,
    pub bind_group: usize,
    pub model: usize,
}

/// The recorder that a program's `render` writes its draws into. The
/// dispatcher opens it against the renderer's target; a program can record
/// draws and nothing else: it cannot acquire or present a target.
#[derive(Debug)]
pub struct RenderPass {
    pub calls: Vec<DrawCall>,
}

impl RenderPass {
    pub fn new() -> (p: RenderPass)
        ensures
            p.calls@ == Seq::<DrawCall>::empty(),
    {
        RenderPass { calls: Vec::new() }
    }

    /// Records one draw after those already recorded.
    pub fn draw(&mut self, call: DrawCall)
        ensures
            final(self).calls@ == old(self).calls@.push(call),
    {
        self.calls.push(call);
    }
}

impl RenderObject {
    /// The draw that renders this object.
    pub open spec fn draw_call(self) -> DrawCall {
        DrawCall { pipeline: self.pipeline, bind_group: self.bind_group, model: self.model }
    }

    /// Records the draw of this object into `render_pass`.
    pub fn render_this(&self, render_pass: &mut RenderPass)
        ensures
            final(render_pass).calls@ == old(render_pass).calls@.push(self.draw_call()),
    {
        render_pass.draw(
            DrawCall { pipeline: self.pipeline, bind_group: self.bind_group, model: self.model },
        );
    }
}

/// An applet that can be rendered to a texture.
///
/// Every capability but `hook_renderer` has a default, so a program writes
/// only what it needs: many programs only update, or only render.
pub trait ProgramHook {
    type Message;

    type Context;

    /// Called once, right after the program was paired with `renderer` and
    /// before any other call. This is where a program sets the timing of its
    /// updates and draws; a program that sets none is never scheduled.
    fn init(&mut self, renderer: &mut TextureRenderer, state: &mut Self::Context)
        default_ensures
            *final(renderer) == (TextureRenderer {
                updatef_status: Timing::Disabled,
                drawf_status: Timing::Disabled,
                ..*old(renderer)
            }),
    {
        renderer.set_update_timing(Timing::Disabled);
        renderer.set_render_timing(Timing::Disabled);
    }

    /// Tells the program the index of the renderer it is paired with.
    fn hook_renderer(&mut self, renderer_id: usize);

    /// Records the program's draws into the pass that the dispatcher opened
    /// on the renderer's target.
    fn render(&self, renderer: &mut TextureRenderer, state: &mut Self::Context, render_pass: &mut RenderPass)
        default_ensures
            *final(renderer) == *old(renderer),
            *final(render_pass) == *old(render_pass),
    {
    }

    /// Updates the program's data, at the rate of the renderer's update
    /// timing.
    fn update(&mut self, renderer: &mut TextureRenderer, state: &mut Self::Context) -> (action: EventLoopAction<Self::Message>)
        default_ensures
            action is Nothing,
            *final(renderer) == *old(renderer),
    {
        EventLoopAction::Nothing
    }

    /// Receives a window event that the conductor passed on.
    fn input(&mut self, renderer: &mut TextureRenderer, state: &mut Self::Context, event: &WindowEvent) -> (action: EventLoopAction<Self::Message>)
        default_ensures
            action is Nothing,
            *final(renderer) == *old(renderer),
    {
        EventLoopAction::Nothing
    }

    /// Tells the program that it is about to be stopped.
    fn stop_program(&mut self, renderer: &mut TextureRenderer, state: &mut Self::Context)
        default_ensures
            *final(renderer) == *old(renderer),
    {
    }
}

} // verus!

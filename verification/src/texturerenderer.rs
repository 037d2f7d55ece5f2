//! Renderer slots: one render target each, with the schedule of its
//! program's updates and draws.

use vstd::prelude::*;
use crate::renderobj::RenderObject;
use crate::timing::{Timestamp, Timing};

verus! {

/// Where a renderer draws.
#[derive(Clone, Copy, Debug, PartialEq, Eq, Structural)]
pub enum TextureIndex {
    /// The shared display surface.
    Surface,
    /// The offscreen texture at this index of the context's texture table.
    Index(usize),
}

/// How the view of a renderer's target is to be had.
#[derive(Clone, Copy, Debug, PartialEq, Eq, Structural)]
pub enum TextureViewQuery {
    /// The target is the shared surface: its view is acquired once per tick.
    RequestSurfaceView,
    /// A view of the offscreen texture at this index.
    View(usize),
}

/// A colour with eight bits per channel.
#[derive(Clone, Copy, Debug, PartialEq, Eq, Structural)]
pub struct Color {
    pub r: u8,
    pub g: u8,
    pub b: u8,
    pub a: u8,
}

/// What happens to a target's contents when a draw starts.
#[derive(Clone, Copy, Debug, PartialEq, Eq, Structural)]
pub enum LoadOp {
    /// Keep what is there.
    Load,
    /// Fill the target with one colour.
    Clear(Color),
}

/// Why the display surface could not be acquired.
#[derive(Clone, Copy, Debug, PartialEq, Eq, Structural)]
pub enum SurfaceFailure {
    /// The next frame did not become free in time.
    Timeout,
    /// The surface has changed and must be configured anew.
    Outdated,
    /// The surface is lost and must be created anew.
    Lost,
    /// No memory is left for a new frame.
    OutOfMemory,
}

/// Why a renderer could not be drawn.
#[derive(Clone, Copy, Debug, PartialEq, Eq, Structural)]
pub enum RenderError {
    /// The renderer's offscreen texture is not in the texture table. Only
    /// this renderer's draw is lost, and only for this tick.
    TargetUnavailable,
    /// The display surface could not be acquired. The whole frame is lost.
    SurfaceAcquisitionFailed(SurfaceFailure),
    /// A renderer names a program that is not registered.
    DanglingPairing,
}

/// The bridge between a texture and the program that draws on it.
#[derive(Debug)]
pub struct TextureRenderer {
    pub name: String,
    pub texture: TextureIndex,
    pub clear_or_load: LoadOp,
    pub my_objects: Vec<RenderObject>,
    /// The index of the program paired with this renderer.
    pub program_id: Option<usize>,
    /// When the renderer is next drawn.
    pub drawf_status: Timing,
    /// When the renderer's program is next updated.
    pub updatef_status: Timing,
}

impl TextureRenderer {
    /// Whether the renderer is to be drawn at `now`: it is when a redraw was
    /// requested and it draws on the surface, or when its draw policy is due.
    /// A redraw request never forces an offscreen renderer.
    pub open spec fn draw_due(self, now: Timestamp, redraw_request: bool) -> bool {
        (redraw_request && self.texture == TextureIndex::Surface) || self.drawf_status.due(now)
    }

    /// Whether the renderer's program is to be updated at `now`.
    pub open spec fn update_due(self, now: Timestamp) -> bool {
        self.updatef_status.due(now)
    }

    /// What `get_textureview` answers against a table of `textures` textures.
    pub open spec fn target(self, textures: nat) -> Result<TextureViewQuery, RenderError> {
        match self.texture {
            TextureIndex::Surface => Ok(TextureViewQuery::RequestSurfaceView),
            TextureIndex::Index(i) => if i < textures {
                Ok(TextureViewQuery::View(i))
            } else {
                Err(RenderError::TargetUnavailable)
            },
        }
    }

    /// The renderer after it was drawn at `now`.
    pub open spec fn drawn(self, now: Timestamp) -> TextureRenderer {
        TextureRenderer { drawf_status: self.drawf_status.fired(now), ..self }
    }

    /// The renderer after its program was updated at `now`.
    pub open spec fn updated(self, now: Timestamp) -> TextureRenderer {
        TextureRenderer { updatef_status: self.updatef_status.fired(now), ..self }
    }

    /// A renderer for `tex_index` that preserves its target, owns no objects
    /// and is scheduled for nothing until its program says otherwise.
    pub fn new(nametag: &str, program_id: Option<usize>, tex_index: TextureIndex) -> (r: TextureRenderer)
        ensures
            r.name@ == nametag@,
            r.texture == tex_index,
            r.clear_or_load == LoadOp::Load,
            r.my_objects@ == Seq::<RenderObject>::empty(),
            r.program_id == program_id,
            r.drawf_status == Timing::Disabled,
            r.updatef_status == Timing::Disabled,
    {
        TextureRenderer {
            name: nametag.to_owned(),
            texture: tex_index,
            clear_or_load: LoadOp::Load,
            my_objects: Vec::new(),
            program_id,
            drawf_status: Timing::Disabled,
            updatef_status: Timing::Disabled,
        }
    }

    pub fn should_call_drawf(&self, now: Timestamp, redraw_request: bool) -> (b: bool)
        ensures
            b == self.draw_due(now, redraw_request),
    {
        if redraw_request {
            match self.texture {
                TextureIndex::Surface => {
                    return true;
                },
                TextureIndex::Index(_) => {},
            }
        }
        self.drawf_status.is_due(now)
    }

    pub fn should_call_updatef(&self, now: Timestamp) -> (b: bool)
        ensures
            b == self.update_due(now),
    {
        self.updatef_status.is_due(now)
    }

    pub fn hook_program(&mut self, program_id: usize)
        ensures
            *final(self) == (TextureRenderer { program_id: Some(program_id), ..*old(self) }),
    {
        self.program_id = Some(program_id);
    }

    pub fn set_clear(&mut self, loadop: LoadOp)
        ensures
            *final(self) == (TextureRenderer { clear_or_load: loadop, ..*old(self) }),
    {
        self.clear_or_load = loadop;
    }

    /// How to get the view of this renderer's target, given the number of
    /// textures in the context's table.
    pub fn get_textureview(&self, textures: usize) -> (r: Result<TextureViewQuery, RenderError>)
        ensures
            r == self.target(textures as nat),
    {
        match self.texture {
            TextureIndex::Surface => Ok(TextureViewQuery::RequestSurfaceView),
            TextureIndex::Index(i) => {
                if i < textures {
                    Ok(TextureViewQuery::View(i))
                } else {
                    Err(RenderError::TargetUnavailable)
                }
            },
        }
    }

    pub fn set_update_timing(&mut self, timing: Timing)
        ensures
            *final(self) == (TextureRenderer { updatef_status: timing, ..*old(self) }),
    {
        self.updatef_status = timing;
    }

    pub fn set_render_timing(&mut self, timing: Timing)
        ensures
            *final(self) == (TextureRenderer { drawf_status: timing, ..*old(self) }),
    {
        self.drawf_status = timing;
    }

    /// Sets the draw policy directly.
    pub fn set_draw_status(&mut self, rs: Timing)
        ensures
            *final(self) == (TextureRenderer { drawf_status: rs, ..*old(self) }),
    {
        self.drawf_status = rs;
    }

    /// The draw policy, to be changed in place.
    pub fn mut_draw_status(&mut self) -> (rs: &mut Timing)
        ensures
            *rs == old(self).drawf_status,
            *final(self) == (TextureRenderer { drawf_status: *final(rs), ..*old(self) }),
    {
        &mut self.drawf_status
    }

    /// The draw policy.
    pub fn ref_draw_status(&self) -> (rs: &Timing)
        ensures
            *rs == self.drawf_status,
    {
        &self.drawf_status
    }

    /// The update policy.
    pub fn ref_update_status(&self) -> (rs: &Timing)
        ensures
            *rs == self.updatef_status,
    {
        &self.updatef_status
    }

    /// Records that the renderer was drawn at `now`.
    pub fn mark_drawn(&mut self, now: Timestamp)
        ensures
            *final(self) == old(self).drawn(now),
    {
        self.drawf_status.just_called(now);
    }

    /// Records that the renderer's program was updated at `now`.
    pub fn mark_updated(&mut self, now: Timestamp)
        ensures
            *final(self) == old(self).updated(now),
    {
        self.updatef_status.just_called(now);
    }
}

/// The two predicates read the renderer's target and policies and nothing
/// else, and change nothing: asked again at the same time with no firing in
/// between, each gives the answer it gave before.
pub proof fn lemma_predicates_are_stable(
    a: TextureRenderer,
    b: TextureRenderer,
    now: Timestamp,
    redraw_request: bool,
)
    requires
        a.texture == b.texture,
        a.drawf_status == b.drawf_status,
        a.updatef_status == b.updatef_status,
    ensures
        a.draw_due(now, redraw_request) == b.draw_due(now, redraw_request),
        a.update_due(now) == b.update_due(now),
{
}

/// A redraw request alone never makes an offscreen renderer due: with or
/// without it, the answer is that of the draw policy.
pub proof fn lemma_offscreen_ignores_redraw_request(r: TextureRenderer, now: Timestamp, redraw_request: bool)
    requires
        r.texture != TextureIndex::Surface,
    ensures
        r.draw_due(now, redraw_request) == r.drawf_status.due(now),
{
}

} // verus!

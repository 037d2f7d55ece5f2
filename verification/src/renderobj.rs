//! What a renderer draws: objects that name their GPU resources by id.

use vstd::prelude::*;

verus! {

/// A point in world space, in thousandths of a world unit.
#[derive(Clone, Copy, Debug, PartialEq, Eq, Structural)]
pub struct Position {
    pub x: i32,
    pub y: i32,
    pub z: i32,
}

impl Position {
    pub fn new(x: i32, y: i32, z: i32) -> (p: Position)
        ensures
            p == (Position { x, y, z }),
    {
        Position { x, y, z }
    }
}

/// Data for a renderable object. The ids index the shared context's tables
/// of pipelines, bind groups, models and uniform buffers.
#[derive(Debug)]
pub struct RenderObject {
    pub position: Position,
    pub pipeline: usize,
    pub bind_group: usize,
    pub model: usize,
    pub uniforms: Vec<usize>,
}

impl RenderObject {
    /// The object that every constructor starts from: at the origin, with
    /// the first pipeline, bind group and model, and no uniforms.
    pub open spec fn is_placeholder(self) -> bool {
        &&& self.position == (Position { x: 0, y: 0, z: 0 })
        &&& self.pipeline == 0
        &&& self.bind_group == 0
        &&& self.model == 0
        &&& self.uniforms@ == Seq::<usize>::empty()
    }

    /// Whether every resource that the object names exists in tables of the
    /// given sizes, so that it can be recorded into a render pass.
    pub open spec fn drawable_with(self, pipelines: nat, bind_groups: nat, models: nat) -> bool {
        self.pipeline < pipelines && self.bind_group < bind_groups && self.model < models
    }

    pub fn new() -> (o: RenderObject)
        ensures
            o.is_placeholder(),
    {
        RenderObject {
            position: Position::new(0, 0, 0),
            pipeline: 0,
            bind_group: 0,
            model: 0,
            uniforms: Vec::new(),
        }
    }

    /// The default textured rectangle at the origin.
    pub fn new_placeholder_rect() -> (o: RenderObject)
        ensures
            o.is_placeholder(),
    {
        RenderObject {
            position: Position::new(0, 0, 0),
            pipeline: 0,
            bind_group: 0,
            model: 0,
            uniforms: Vec::new(),
        }
    }

    /// An object that draws `model` with `pipeline` and `bind_group`.
    pub fn with_resources(pipeline: usize, model: usize, bind_group: usize) -> (o: RenderObject)
        ensures
            o.position == (Position { x: 0, y: 0, z: 0 }),
            o.pipeline == pipeline,
            o.bind_group == bind_group,
            o.model == model,
            o.uniforms@ == Seq::<usize>::empty(),
    {
        RenderObject {
            position: Position::new(0, 0, 0),
            pipeline,
            bind_group,
            model,
            uniforms: Vec::new(),
        }
    }

    /// Whether the object can be recorded against tables of these sizes.
    pub fn can_render(&self, pipelines: usize, bind_groups: usize, models: usize) -> (b: bool)
        ensures
            b == self.drawable_with(pipelines as nat, bind_groups as nat, models as nat),
    {
        self.pipeline < pipelines && self.bind_group < bind_groups && self.model < models
    }
}

} // verus!

//! The shared GPU context as the scheduler sees it: the sizes of its
//! tables, the names of its pipelines and models, the size of the surface
//! and the cap on the loop's rate. The GPU objects themselves stay with
//! the host, in tables of the same order.

use vstd::prelude::*;
use crate::modelbuffers::{holds_word, IndexData, IndexFormat, Model, ModelBuilder};
use crate::renderobj::{Position, RenderObject};
use crate::timing::FrameRate;

verus! {

/// A pipeline and the layout of its bind groups, by their ids.
#[derive(Clone, Copy, Debug, PartialEq, Eq, Structural)]
pub struct Pipeline {
    pub pipeline: usize,
    pub bindgrouplayout: usize,
}

/// A pipeline under its name.
#[derive(Debug)]
pub struct NamedPipeline {
    pub name: String,
    pub entry: Pipeline,
}

/// A model under its name.
#[derive(Debug)]
pub struct NamedModel {
    pub name: String,
    pub model: usize,
}

/// The size of the surface in pixels.
#[derive(Clone, Copy, Debug, PartialEq, Eq, Structural)]
pub struct PhysicalSize {
    pub width: u32,
    pub height: u32,
}

/// The tables of the shared context. Every table only grows, so an id that
/// was handed out stays valid and is never handed out again.
#[derive(Debug)]
pub struct State {
    pub size: PhysicalSize,
    /// The number of pipelines that were created.
    pub render_pipelines: usize,
    /// The number of bind group layouts that were created.
    pub bindgroup_layouts: usize,
    /// The number of bind groups that were created.
    pub bind_groups: usize,
    /// The number of buffers that were created.
    pub buffers: usize,
    /// The number of textures that were loaded.
    pub textures: usize,
    pub models: Vec<Model>,
    /// The pipelines by name, oldest first. The latest entry of a name
    /// counts.
    pub pipeline_map: Vec<NamedPipeline>,
    /// The models by name, oldest first.
    pub model_map: Vec<NamedModel>,
    /// The cap on the rate of the event loop, if there is one.
    pub loop_fps: Option<FrameRate>,
}

/// The pipeline that the latest of the first `n` entries gives `name`.
pub open spec fn find_pipeline(entries: Seq<NamedPipeline>, name: Seq<char>, n: nat) -> Option<Pipeline>
    decreases n,
{
    if n == 0 {
        None
    } else if entries[n - 1].name@ == name {
        Some(entries[n - 1].entry)
    } else {
        find_pipeline(entries, name, (n - 1) as nat)
    }
}

impl PhysicalSize {
    /// One coordinate of a pixel in world space, in thousandths: -1000 at
    /// pixel 0, 1000 at the far edge `extent`, and the far edge for every
    /// pixel beyond it. An empty extent has only the middle.
    pub open spec fn axis(pixel: u32, extent: u32) -> int {
        if extent == 0 {
            0
        } else if pixel >= extent {
            1000
        } else {
            (2000 * pixel) / (extent as int) - 1000
        }
    }

    /// The point of world space under the pixel at `x`, `y` of a surface of
    /// this size.
    pub fn world_point(&self, x: u32, y: u32) -> (p: Position)
        ensures
            p.x == Self::axis(x, self.width),
            p.y == Self::axis(y, self.height),
            p.z == 0,
            -1000 <= p.x <= 1000,
            -1000 <= p.y <= 1000,
    {
        Position { x: Self::world_axis(x, self.width), y: Self::world_axis(y, self.height), z: 0 }
    }

    fn world_axis(pixel: u32, extent: u32) -> (w: i32)
        ensures
            w == Self::axis(pixel, extent),
            -1000 <= w <= 1000,
    {
        if extent == 0 {
            0
        } else if pixel >= extent {
            1000
        } else {
            let scaled: u64 = 2000 * (pixel as u64);
            let cell: u64 = scaled / (extent as u64);
            assert(cell < 2000) by (nonlinear_arith)
                requires
                    cell == (2000 * pixel) / (extent as int),
                    0 <= pixel < extent,
            ;
            (cell as i32) - 1000
        }
    }
}

impl State {
    /// The pipeline registered under `name`, if there is one.
    pub open spec fn pipeline_named(self, name: Seq<char>) -> Option<Pipeline> {
        find_pipeline(self.pipeline_map@, name, self.pipeline_map@.len())
    }

    /// A context with empty tables for a surface of `size`.
    pub fn new(size: PhysicalSize) -> (s: State)
        ensures
            s.size == size,
            s.render_pipelines == 0,
            s.bindgroup_layouts == 0,
            s.bind_groups == 0,
            s.buffers == 0,
            s.textures == 0,
            s.models@.len() == 0,
            s.pipeline_map@.len() == 0,
            s.model_map@.len() == 0,
            s.loop_fps.is_none(),
    {
        State {
            size,
            render_pipelines: 0,
            bindgroup_layouts: 0,
            bind_groups: 0,
            buffers: 0,
            textures: 0,
            models: Vec::new(),
            pipeline_map: Vec::new(),
            model_map: Vec::new(),
            loop_fps: None,
        }
    }

    /// The pipeline registered under `name`; `None` where there is none.
    pub fn get_pipeline(&self, name: &str) -> (p: Option<Pipeline>)
        ensures
            p == self.pipeline_named(name@),
    {
        let key: String = name.to_owned();
        let mut n: usize = self.pipeline_map.len();
        while n > 0
            invariant
                n <= self.pipeline_map@.len(),
                key@ == name@,
                self.pipeline_named(name@) == find_pipeline(self.pipeline_map@, name@, n as nat),
            decreases n,
        {
            if self.pipeline_map[n - 1].name == key {
                return Some(self.pipeline_map[n - 1].entry);
            }
            n -= 1;
        }
        None
    }

    /// Notes a new pipeline and its bind group layout under `name`, and
    /// returns their ids: the next free id of each table.
    pub fn add_pipeline(&mut self, name: &str) -> (p: Pipeline)
        requires
            old(self).render_pipelines < usize::MAX,
            old(self).bindgroup_layouts < usize::MAX,
        ensures
            p.pipeline == old(self).render_pipelines,
            p.bindgrouplayout == old(self).bindgroup_layouts,
            final(self).render_pipelines == old(self).render_pipelines + 1,
            final(self).bindgroup_layouts == old(self).bindgroup_layouts + 1,
            final(self).pipeline_map@.len() == old(self).pipeline_map@.len() + 1,
            final(self).pipeline_map@.take(old(self).pipeline_map@.len() as int) == old(self).pipeline_map@,
            final(self).pipeline_named(name@) == Some(p),
            final(self).size == old(self).size,
            final(self).bind_groups == old(self).bind_groups,
            final(self).buffers == old(self).buffers,
            final(self).textures == old(self).textures,
            final(self).models == old(self).models,
            final(self).model_map == old(self).model_map,
            final(self).loop_fps == old(self).loop_fps,
    {
        let p = Pipeline { pipeline: self.render_pipelines, bindgrouplayout: self.bindgroup_layouts };
        self.render_pipelines = self.render_pipelines + 1;
        self.bindgroup_layouts = self.bindgroup_layouts + 1;
        self.pipeline_map.push(NamedPipeline { name: name.to_owned(), entry: p });
        assert(self.pipeline_map@.take(old(self).pipeline_map@.len() as int) =~= old(self).pipeline_map@);
        p
    }

    /// Notes a new bind group for the pipeline called `pipeline` and
    /// returns its id and the id of the layout it is made with. `None`, and
    /// nothing noted, where no pipeline has that name.
    pub fn create_bindgroup(&mut self, pipeline: &str) -> (ids: Option<(usize, usize)>)
        requires
            old(self).bind_groups < usize::MAX,
        ensures
            ids.is_some() <==> old(self).pipeline_named(pipeline@).is_some(),
            ids.is_none() ==> *final(self) == *old(self),
            ids matches Some(found) ==> found.0 == old(self).bind_groups && found.1 == old(self).pipeline_named(
                pipeline@,
            ).unwrap().bindgrouplayout && *final(self) == (State {
                bind_groups: (old(self).bind_groups + 1) as usize,
                ..*old(self)
            }),
    {
        match self.get_pipeline(pipeline) {
            None => None,
            Some(p) => {
                let id: usize = self.bind_groups;
                self.bind_groups = id + 1;
                Some((id, p.bindgrouplayout))
            },
        }
    }

    /// Notes a new model called `name` with the given indices: three new
    /// buffers, for its vertices, its indices and its offset, and the model
    /// that names them. Returns the model's id and what goes into the index
    /// buffer. `None`, and nothing noted, where there are more indices than
    /// a draw can count.
    pub fn build_model(&mut self, name: &str, indices: &Vec<u16>) -> (built: Option<(usize, IndexData)>)
        requires
            old(self).buffers <= usize::MAX - 3,
        ensures
            built.is_some() <==> indices@.len() <= u32::MAX,
            built.is_none() ==> *final(self) == *old(self),
            built matches Some(b) ==> {
                &&& b.0 == old(self).models@.len()
                &&& b.1.num_indices == indices@.len()
                &&& b.1.bytes@.len() == 2 * indices@.len()
                &&& forall|i: int|
                    0 <= i < indices@.len() ==> holds_word(
                        b.1.bytes@[2 * i],
                        b.1.bytes@[2 * i + 1],
                        #[trigger] indices@[i],
                    )
                &&& final(self).models@ == old(self).models@.push(
                    Model {
                        vertex_buffer: old(self).buffers,
                        index_buffer: (old(self).buffers + 1) as usize,
                        index_format: IndexFormat::Uint16,
                        offset_buffer: (old(self).buffers + 2) as usize,
                        num_indices: indices@.len() as u32,
                    },
                )
                &&& final(self).buffers == old(self).buffers + 3
                &&& final(self).model_map@.len() == old(self).model_map@.len() + 1
                &&& final(self).model_map@.last().name@ == name@
                &&& final(self).model_map@.last().model == b.0
                &&& final(self).model_map@.take(old(self).model_map@.len() as int) == old(self).model_map@
                &&& final(self).pipeline_map == old(self).pipeline_map
                &&& final(self).textures == old(self).textures
                &&& final(self).bind_groups == old(self).bind_groups
                &&& final(self).render_pipelines == old(self).render_pipelines
            },
    {
        let builder: ModelBuilder = Model::new();
        match builder.index_data(indices) {
            None => None,
            Some(data) => {
                let model_id: usize = self.models.len();
                let first: usize = self.buffers;
                self.models.push(
                    Model {
                        vertex_buffer: first,
                        index_buffer: first + 1,
                        index_format: IndexFormat::Uint16,
                        offset_buffer: first + 2,
                        num_indices: data.num_indices,
                    },
                );
                self.buffers = first + 3;
                self.model_map.push(NamedModel { name: name.to_owned(), model: model_id });
                assert(self.model_map@.take(old(self).model_map@.len() as int) =~= old(self).model_map@);
                Some((model_id, data))
            },
        }
    }

    /// An object at the origin that draws `model` with the pipeline called
    /// `pipeline` and with `bind_group`. `None` where no pipeline has that
    /// name or the model does not exist.
    pub fn create_renderobj(&self, pipeline: &str, model: usize, bind_group: usize) -> (o: Option<RenderObject>)
        ensures
            o.is_some() <==> self.pipeline_named(pipeline@).is_some() && model < self.models@.len(),
            o matches Some(obj) ==> {
                &&& obj.position == (Position { x: 0, y: 0, z: 0 })
                &&& obj.pipeline == self.pipeline_named(pipeline@).unwrap().pipeline
                &&& obj.bind_group == bind_group
                &&& obj.model == model
                &&& obj.uniforms@.len() == 0
            },
    {
        match self.get_pipeline(pipeline) {
            None => None,
            Some(p) => {
                if model < self.models.len() {
                    Some(RenderObject::with_resources(p.pipeline, model, bind_group))
                } else {
                    None
                }
            },
        }
    }

    /// Notes a new texture and returns its id.
    pub fn add_texture(&mut self) -> (id: usize)
        requires
            old(self).textures < usize::MAX,
        ensures
            id == old(self).textures,
            *final(self) == (State { textures: (old(self).textures + 1) as usize, ..*old(self) }),
    {
        let id: usize = self.textures;
        self.textures = id + 1;
        id
    }

    /// The cap on the rate of the event loop.
    pub fn get_fps(&self) -> (fps: Option<FrameRate>)
        ensures
            fps == self.loop_fps,
    {
        self.loop_fps
    }

    /// Sets or lifts the cap on the rate of the event loop.
    pub fn set_fps(&mut self, fps: Option<FrameRate>)
        ensures
            *final(self) == (State { loop_fps: fps, ..*old(self) }),
    {
        self.loop_fps = fps;
    }

    /// Takes the new size of the window. An empty size is ignored. Says
    /// whether the surface is to be configured anew.
    pub fn resize(&mut self, new_size: PhysicalSize) -> (changed: bool)
        ensures
            changed == (new_size.width > 0 && new_size.height > 0),
            changed ==> *final(self) == (State { size: new_size, ..*old(self) }),
            !changed ==> *final(self) == *old(self),
    {
        if new_size.width > 0 && new_size.height > 0 {
            self.size = new_size;
            true
        } else {
            false
        }
    }
}

} // verus!

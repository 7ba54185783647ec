use vstd::prelude::*;
use crate::pipeline::{
    draw_unindexed, is_terrain_pipeline, ranges_valid, terrain_layout, terrain_pipeline_desc,
    terrain_ranges, DrawCall, LayoutDesc, PipelineDesc,
};

verus! {

/// Where the terrain pipeline stands.
#[derive(Clone, Copy, Debug, PartialEq, Eq, Structural)]
pub enum PipelineState {
    Uncompiled,
    /// A shader module is ready; no pipeline has been built.
    Compiled,
    /// Built for color targets of the given format.
    Built(u32),
    /// Built for the given format, which the surface no longer has.
    Stale(u32),
}

/// What a frame needs from the terrain: the pipeline to build first, if
/// any, and the draw to record.
#[derive(Clone, Debug)]
pub struct FramePlan {
    pub rebuild: Option<PipelineDesc>,
    pub draw: DrawCall,
}

/// The terrain renderer: its shader modules and the state of its pipeline.
pub struct Terrain {
    modules: u64,
    state: PipelineState,
}

/// `t1` is `t0` after a compile that handed out module `id`.
pub open spec fn compile_step(t0: Terrain, t1: Terrain, id: u64) -> bool {
    &&& id as nat == t0.module_count()
    &&& t1.module_count() == t0.module_count() + 1
    &&& t1.state() == (if t0.state() == PipelineState::Uncompiled {
        PipelineState::Compiled
    } else {
        t0.state()
    })
}

/// Module `module` of `t` can be built into a pipeline.
pub open spec fn can_build(t: Terrain, module: u64) -> bool {
    (module as nat) < t.module_count()
}

impl Terrain {
    /// The pipeline is uncompiled exactly while no shader module exists.
    pub closed spec fn wf(self) -> bool {
        (self.state == PipelineState::Uncompiled) == (self.modules == 0)
    }

    pub closed spec fn module_count(self) -> nat {
        self.modules as nat
    }

    pub closed spec fn state(self) -> PipelineState {
        self.state
    }

    pub fn new() -> (r: Terrain)
        ensures
            r.wf(),
            r.module_count() == 0,
            r.state() == PipelineState::Uncompiled,
    {
        Terrain { modules: 0, state: PipelineState::Uncompiled }
    }

    pub fn pipeline_state(&self) -> (r: PipelineState)
        ensures
            r == self.state(),
    {
        self.state
    }

    /// Registers a newly compiled shader module and returns its handle, fresh
    /// for this renderer. `None` once handles are used up.
    pub fn compile_shader(&mut self) -> (r: Option<u64>)
        requires
            old(self).wf(),
        ensures
            final(self).wf(),
            r is None <==> old(self).module_count() >= u64::MAX,
            r matches Some(id) ==> compile_step(*old(self), *final(self), id),
            r is None ==> final(self).module_count() == old(self).module_count(),
            r is None ==> final(self).state() == old(self).state(),
    {
        if self.modules == u64::MAX {
            None
        } else {
            let id = self.modules;
            self.modules = self.modules + 1;
            if self.state == PipelineState::Uncompiled {
                self.state = PipelineState::Compiled;
            }
            Some(id)
        }
    }

    /// The pipeline layout: no descriptor sets and three consecutive
    /// vertex-stage ranges of one 4x4 matrix each (view, projection, view).
    pub fn layout(&self) -> (r: LayoutDesc)
        ensures
            r.bind_group_layouts == 0,
            r.push_constant_ranges@ == terrain_ranges(),
            ranges_valid(r.push_constant_ranges@),
    {
        terrain_layout()
    }

    /// Builds the pipeline from shader module `module` for color targets of
    /// format `format`, with the layout of `layout` and the entry points
    /// `vs_main` and `fs_main`. Refused for a handle that was never handed out.
    pub fn pipeline(&mut self, module: u64, format: u32) -> (r: Option<PipelineDesc>)
        requires
            old(self).wf(),
        ensures
            final(self).wf(),
            r is Some <==> can_build(*old(self), module),
            r matches Some(d) ==> is_terrain_pipeline(d, module, format) && final(self).state()
                == PipelineState::Built(format),
            r is None ==> final(self).state() == old(self).state(),
            final(self).module_count() == old(self).module_count(),
    {
        if module < self.modules {
            self.state = PipelineState::Built(format);
            Some(terrain_pipeline_desc(module, format))
        } else {
            None
        }
    }

    /// Notes the surface's current format: a pipeline built for another
    /// format becomes stale.
    pub fn surface_format_changed(&mut self, format: u32)
        requires
            old(self).wf(),
        ensures
            final(self).wf(),
            final(self).module_count() == old(self).module_count(),
            final(self).state() == match old(self).state() {
                PipelineState::Built(f) => if f != format {
                    PipelineState::Stale(f)
                } else {
                    PipelineState::Built(f)
                },
                s => s,
            },
    {
        match self.state {
            PipelineState::Built(f) => {
                if f != format {
                    self.state = PipelineState::Stale(f);
                }
            },
            _ => {},
        }
    }

    /// Readies the pipeline for a frame whose target has format `format`
    /// and gives the draw to record: a pipeline built for another format, or
    /// none at all, is (re)built from shader module `module` first, and the
    /// description to build it from is handed back. `None` when it is not
    /// built for `format` and `module` was never handed out.
    pub fn prepare_frame(&mut self, module: u64, format: u32) -> (r: Option<FramePlan>)
        requires
            old(self).wf(),
        ensures
            final(self).wf(),
            final(self).module_count() == old(self).module_count(),
            r is Some <==> (old(self).state() == PipelineState::Built(format) || can_build(
                *old(self),
                module,
            )),
            r matches Some(p) ==> {
                &&& final(self).state() == PipelineState::Built(format)
                &&& p.draw == (DrawCall { vertex_count: 3, instance_count: 1 })
                &&& old(self).state() == PipelineState::Built(format) ==> p.rebuild is None
                &&& old(self).state() != PipelineState::Built(format) ==> (p.rebuild matches Some(
                    d,
                ) && is_terrain_pipeline(d, module, format))
            },
            r is None ==> final(self).state() != PipelineState::Built(format),
    {
        self.surface_format_changed(format);
        match self.render(format) {
            Some(draw) => Some(FramePlan { rebuild: None, draw }),
            None => match self.pipeline(module, format) {
                Some(d) => Some(FramePlan { rebuild: Some(d), draw: draw_unindexed(3, 1) }),
                None => None,
            },
        }
    }

    /// The draw to record into a frame whose target has format `format`: the
    /// procedural triangle, one instance. `None` unless the pipeline is
    /// built for that format.
    pub fn render(&self, format: u32) -> (r: Option<DrawCall>)
        ensures
            r is Some <==> self.state() == PipelineState::Built(format),
            r matches Some(d) ==> d == (DrawCall { vertex_count: 3, instance_count: 1 }),
    {
        match self.state {
            PipelineState::Built(f) => {
                if f == format {
                    Some(draw_unindexed(3, 1))
                } else {
                    None
                }
            },
            _ => None,
        }
    }
}

/// Compiling twice hands out two distinct module handles, and both build
/// into the terrain pipeline.
pub proof fn lemma_compile_twice_builds_both(t0: Terrain, t1: Terrain, t2: Terrain, a: u64, b: u64)
    requires
        compile_step(t0, t1, a),
        compile_step(t1, t2, b),
    ensures
        a != b,
        can_build(t2, a),
        can_build(t2, b),
        t2.state() != PipelineState::Uncompiled,
{
}

} // verus!

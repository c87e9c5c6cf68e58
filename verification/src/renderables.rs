//! The concrete drawables, and the closed entry type the frame
//! orchestrator dispatches over.

pub mod cube;
pub mod skybox;
pub mod ui;

use vstd::prelude::*;

use crate::cache::TextureSourceView;
use crate::commands::RenderCommand;
use crate::get_type::{GetType, RenderableKind};
use crate::my_pipeline::PipelineKind;
use crate::render_context::RenderContext;
use crate::render_passes::RenderPassType;
use crate::renderable::Renderable;

use cube::Cube;
use skybox::Skybox;
use ui::UI;

verus! {

/// The closed set of drawables.  Dispatch goes by this tag, not by runtime
/// type identity, so the frame loop can match exhaustively.
pub enum RenderableEntry {
    Cube(Cube),
    Skybox(Skybox),
    Ui(UI),
}

/// The pass kind a drawable must be drawn within — derived from its chosen
/// pipeline, never chosen directly.
pub open spec fn pass_of_entry(e: RenderableEntry) -> RenderPassType {
    crate::my_pipeline::spec_pass_of(e.pipeline_spec())
}

/// Whether everything a drawable draws with is already cached.
pub open spec fn entry_ready(
    e: RenderableEntry,
    m: Map<crate::cache::CacheKeyView, crate::cache::CacheValue>,
) -> bool {
    crate::renderable::resources_ready(
        e.pipeline_spec(),
        e.type_kind(),
        e.texture_source_spec(),
        m,
    )
}

/// Geometry de-duplication: renderables sharing a pipeline kind are of
/// the same drawable kind, so their vertex- and index-buffer lookups go
/// through the same cache keys and return the same shared handles.
pub proof fn lemma_shared_geometry(e1: RenderableEntry, e2: RenderableEntry)
    requires
        e1.pipeline_spec() == e2.pipeline_spec(),
    ensures
        e1.type_kind() == e2.type_kind(),
        forall|m: Map<crate::cache::CacheKeyView, crate::cache::CacheValue>|
            crate::renderable::spec_vb_handle(m, e1.type_kind()) == crate::renderable::spec_vb_handle(
                m,
                #[trigger] e2.type_kind(),
            ) && crate::renderable::spec_ib_handle(m, e1.type_kind())
                == crate::renderable::spec_ib_handle(m, e2.type_kind()),
{
}

impl GetType for RenderableEntry {
    open spec fn type_kind(&self) -> RenderableKind {
        match self {
            RenderableEntry::Cube(c) => c.type_kind(),
            RenderableEntry::Skybox(s) => s.type_kind(),
            RenderableEntry::Ui(u) => u.type_kind(),
        }
    }

    fn get_type(&self) -> (k: RenderableKind) {
        match self {
            RenderableEntry::Cube(c) => c.get_type(),
            RenderableEntry::Skybox(s) => s.get_type(),
            RenderableEntry::Ui(u) => u.get_type(),
        }
    }
}

impl Renderable for RenderableEntry {
    open spec fn pipeline_spec(&self) -> PipelineKind {
        match self {
            RenderableEntry::Cube(c) => c.pipeline_spec(),
            RenderableEntry::Skybox(s) => s.pipeline_spec(),
            RenderableEntry::Ui(u) => u.pipeline_spec(),
        }
    }

    open spec fn texture_source_spec(&self) -> TextureSourceView {
        match self {
            RenderableEntry::Cube(c) => c.texture_source_spec(),
            RenderableEntry::Skybox(s) => s.texture_source_spec(),
            RenderableEntry::Ui(u) => u.texture_source_spec(),
        }
    }

    open spec fn num_indices_spec(&self) -> u32 {
        match self {
            RenderableEntry::Cube(c) => c.num_indices_spec(),
            RenderableEntry::Skybox(s) => s.num_indices_spec(),
            RenderableEntry::Ui(u) => u.num_indices_spec(),
        }
    }

    fn choose_pipeline(&self) -> (k: PipelineKind) {
        match self {
            RenderableEntry::Cube(c) => c.choose_pipeline(),
            RenderableEntry::Skybox(s) => s.choose_pipeline(),
            RenderableEntry::Ui(u) => u.choose_pipeline(),
        }
    }

    fn get_num_indices(&self) -> (n: u32) {
        match self {
            RenderableEntry::Cube(c) => c.get_num_indices(),
            RenderableEntry::Skybox(s) => s.get_num_indices(),
            RenderableEntry::Ui(u) => u.get_num_indices(),
        }
    }

    fn get_texture(&self, ctx: &mut RenderContext) -> (h: u64) {
        match self {
            RenderableEntry::Cube(c) => c.get_texture(ctx),
            RenderableEntry::Skybox(s) => s.get_texture(ctx),
            RenderableEntry::Ui(u) => u.get_texture(ctx),
        }
    }

    fn get_vertex_buffer(&self, ctx: &mut RenderContext) -> (h: u64) {
        match self {
            RenderableEntry::Cube(c) => c.get_vertex_buffer(ctx),
            RenderableEntry::Skybox(s) => s.get_vertex_buffer(ctx),
            RenderableEntry::Ui(u) => u.get_vertex_buffer(ctx),
        }
    }

    fn get_index_buffer(&self, ctx: &mut RenderContext) -> (h: u64) {
        match self {
            RenderableEntry::Cube(c) => c.get_index_buffer(ctx),
            RenderableEntry::Skybox(s) => s.get_index_buffer(ctx),
            RenderableEntry::Ui(u) => u.get_index_buffer(ctx),
        }
    }

    fn get_bind_groups(&self, ctx: &mut RenderContext) -> (v: Vec<u64>) {
        match self {
            RenderableEntry::Cube(c) => c.get_bind_groups(ctx),
            RenderableEntry::Skybox(s) => s.get_bind_groups(ctx),
            RenderableEntry::Ui(u) => u.get_bind_groups(ctx),
        }
    }

    fn get_render_pass_builder(&self, ctx: &mut RenderContext) -> (p: RenderPassType) {
        match self {
            RenderableEntry::Cube(c) => c.get_render_pass_builder(ctx),
            RenderableEntry::Skybox(s) => s.get_render_pass_builder(ctx),
            RenderableEntry::Ui(u) => u.get_render_pass_builder(ctx),
        }
    }

    fn prepare(&self, ctx: &mut RenderContext) -> (p: RenderPassType) {
        match self {
            RenderableEntry::Cube(c) => c.prepare(ctx),
            RenderableEntry::Skybox(s) => s.prepare(ctx),
            RenderableEntry::Ui(u) => u.prepare(ctx),
        }
    }

    fn render(&self, ctx: &mut RenderContext, cmds: &mut Vec<RenderCommand>) {
        match self {
            RenderableEntry::Cube(c) => c.render(ctx, cmds),
            RenderableEntry::Skybox(s) => s.render(ctx, cmds),
            RenderableEntry::Ui(u) => u.render(ctx, cmds),
        }
    }
}

} // verus!

//! A full-screen UI quad: 4 vertices and 6 indices, drawn with the UI
//! pipeline on top of the scene.

use vstd::prelude::*;

use crate::cache::{TextureSource, TextureSourceView, dup_texture_source};
use crate::commands::RenderCommand;
use crate::get_type::{GetType, RenderableKind};
use crate::my_pipeline::PipelineKind;
use crate::render_context::RenderContext;
use crate::render_passes::RenderPassType;
use crate::renderable::{
    Renderable, assemble_bind_groups, fetch_texture, get_shared_index_buffer,
    get_shared_vertex_buffer, prepare_renderable, record_draw, resolve_render_pass_builder,
};

verus! {

/// How many vertices the UI quad has.
pub const UI_NUM_VERTICES: u32 = 4;

/// How many indices the UI quad has: two triangles.
pub const UI_NUM_INDICES: u32 = 6;

/// The quad's index list: two triangles over its four corners.
pub open spec fn spec_ui_indices() -> Seq<u16> {
    seq![0u16, 1, 2, 2, 3, 0]
}

/// The index data the embedding uploads into the quad's shared index
/// buffer.
pub fn ui_indices() -> (v: Vec<u16>)
    ensures
        v@ == spec_ui_indices(),
        v@.len() == UI_NUM_INDICES,
{
    let v: Vec<u16> = vec![0u16, 1, 2, 2, 3, 0];
    proof {
        assert(v@ =~= spec_ui_indices());
    }
    v
}

/// A UI overlay drawn from one texture source.
pub struct UI {
    pub texture_source: TextureSource,
}

impl UI {
    pub fn new(ui_source: TextureSource) -> (u: UI)
        ensures
            u.texture_source == ui_source,
    {
        UI { texture_source: ui_source }
    }
}

impl GetType for UI {
    open spec fn type_kind(&self) -> RenderableKind {
        RenderableKind::Ui
    }

    fn get_type(&self) -> (k: RenderableKind) {
        RenderableKind::Ui
    }
}

impl Renderable for UI {
    open spec fn pipeline_spec(&self) -> PipelineKind {
        PipelineKind::Ui
    }

    open spec fn texture_source_spec(&self) -> TextureSourceView {
        self.texture_source@
    }

    open spec fn num_indices_spec(&self) -> u32 {
        UI_NUM_INDICES
    }

    fn choose_pipeline(&self) -> (k: PipelineKind) {
        PipelineKind::Ui
    }

    fn get_num_indices(&self) -> (n: u32) {
        UI_NUM_INDICES
    }

    fn get_texture(&self, ctx: &mut RenderContext) -> (h: u64) {
        fetch_texture(ctx, dup_texture_source(&self.texture_source))
    }

    fn get_vertex_buffer(&self, ctx: &mut RenderContext) -> (h: u64) {
        get_shared_vertex_buffer(ctx, self.get_type())
    }

    fn get_index_buffer(&self, ctx: &mut RenderContext) -> (h: u64) {
        get_shared_index_buffer(ctx, self.get_type())
    }

    fn get_bind_groups(&self, ctx: &mut RenderContext) -> (v: Vec<u64>) {
        assemble_bind_groups(
            ctx,
            PipelineKind::Ui,
            RenderableKind::Ui,
            dup_texture_source(&self.texture_source),
        )
    }

    fn get_render_pass_builder(&self, ctx: &mut RenderContext) -> (p: RenderPassType) {
        resolve_render_pass_builder(ctx, PipelineKind::Ui)
    }

    fn prepare(&self, ctx: &mut RenderContext) -> (p: RenderPassType) {
        prepare_renderable(
            ctx,
            PipelineKind::Ui,
            RenderableKind::Ui,
            dup_texture_source(&self.texture_source),
        )
    }

    fn render(&self, ctx: &mut RenderContext, cmds: &mut Vec<RenderCommand>) {
        record_draw(
            ctx,
            cmds,
            PipelineKind::Ui,
            RenderableKind::Ui,
            UI_NUM_INDICES,
            dup_texture_source(&self.texture_source),
        )
    }
}

} // verus!

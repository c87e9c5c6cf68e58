//! A skybox: an inward-facing cube of 24 vertices and 36 indices, drawn
//! with the skybox pipeline from a cube-map texture.

use vstd::prelude::*;

use crate::cache::{TextureSource, TextureSourceView};
use crate::commands::RenderCommand;
use crate::get_type::{GetType, RenderableKind};
use crate::my_pipeline::PipelineKind;
use crate::render_context::RenderContext;
use crate::render_passes::RenderPassType;
use crate::renderable::{
    Renderable, assemble_bind_groups, fetch_texture, get_shared_index_buffer,
    get_shared_vertex_buffer, prepare_renderable, record_draw, resolve_render_pass_builder,
};

verus! {

/// How many vertices the skybox mesh has: four per face.
pub const SKYBOX_NUM_VERTICES: u32 = 24;

/// How many indices the skybox mesh has: two triangles per face.
pub const SKYBOX_NUM_INDICES: u32 = 36;

/// The skybox's index list: each face as two triangles over its own four
/// vertices, wound to face inward.
pub open spec fn spec_skybox_indices() -> Seq<u16> {
    seq![
        0u16, 1, 2, 2, 3, 0,
        4, 5, 6, 6, 7, 4,
        8, 9, 10, 10, 11, 8,
        12, 13, 14, 14, 15, 12,
        16, 17, 18, 18, 19, 16,
        20, 21, 22, 22, 23, 20,
    ]
}

/// The index data the embedding uploads into the skybox's shared index
/// buffer.
pub fn skybox_indices() -> (v: Vec<u16>)
    ensures
        v@ == spec_skybox_indices(),
        v@.len() == SKYBOX_NUM_INDICES,
{
    let v: Vec<u16> = vec![
        0u16, 1, 2, 2, 3, 0,
        4, 5, 6, 6, 7, 4,
        8, 9, 10, 10, 11, 8,
        12, 13, 14, 14, 15, 12,
        16, 17, 18, 18, 19, 16,
        20, 21, 22, 22, 23, 20,
    ];
    proof {
        assert(v@ =~= spec_skybox_indices());
    }
    v
}

/// A skybox drawn from the six cube-map faces found in one directory.
pub struct Skybox {
    pub directory: String,
}

impl Skybox {
    pub fn new(directory: String) -> (s: Skybox)
        ensures
            s.directory == directory,
    {
        Skybox { directory }
    }
}

impl GetType for Skybox {
    open spec fn type_kind(&self) -> RenderableKind {
        RenderableKind::Skybox
    }

    fn get_type(&self) -> (k: RenderableKind) {
        RenderableKind::Skybox
    }
}

impl Renderable for Skybox {
    open spec fn pipeline_spec(&self) -> PipelineKind {
        PipelineKind::Skybox
    }

    open spec fn texture_source_spec(&self) -> TextureSourceView {
        TextureSourceView::CubeDirectory(self.directory@)
    }

    open spec fn num_indices_spec(&self) -> u32 {
        SKYBOX_NUM_INDICES
    }

    fn choose_pipeline(&self) -> (k: PipelineKind) {
        PipelineKind::Skybox
    }

    fn get_num_indices(&self) -> (n: u32) {
        SKYBOX_NUM_INDICES
    }

    fn get_texture(&self, ctx: &mut RenderContext) -> (h: u64) {
        fetch_texture(ctx, TextureSource::CubeDirectory(self.directory.clone()))
    }

    fn get_vertex_buffer(&self, ctx: &mut RenderContext) -> (h: u64) {
        get_shared_vertex_buffer(ctx, self.get_type())
    }

    fn get_index_buffer(&self, ctx: &mut RenderContext) -> (h: u64) {
        get_shared_index_buffer(ctx, self.get_type())
    }

    fn get_bind_groups(&self, ctx: &mut RenderContext) -> (v: Vec<u64>) {
        assemble_bind_groups(
            ctx,
            PipelineKind::Skybox,
            RenderableKind::Skybox,
            TextureSource::CubeDirectory(self.directory.clone()),
        )
    }

    fn get_render_pass_builder(&self, ctx: &mut RenderContext) -> (p: RenderPassType) {
        resolve_render_pass_builder(ctx, PipelineKind::Skybox)
    }

    fn prepare(&self, ctx: &mut RenderContext) -> (p: RenderPassType) {
        prepare_renderable(
            ctx,
            PipelineKind::Skybox,
            RenderableKind::Skybox,
            TextureSource::CubeDirectory(self.directory.clone()),
        )
    }

    fn render(&self, ctx: &mut RenderContext, cmds: &mut Vec<RenderCommand>) {
        record_draw(
            ctx,
            cmds,
            PipelineKind::Skybox,
            RenderableKind::Skybox,
            SKYBOX_NUM_INDICES,
            TextureSource::CubeDirectory(self.directory.clone()),
        )
    }
}

} // verus!

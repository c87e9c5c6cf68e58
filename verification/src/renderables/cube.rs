//! A textured cube: 24 vertices (four per face) and 36 indices, drawn
//! with the default pipeline.

use vstd::prelude::*;

use crate::cache::{TextureSource, TextureSourceView};
use crate::commands::RenderCommand;
use crate::get_type::{GetType, RenderableKind};
use crate::my_pipeline::PipelineKind;
use crate::render_context::RenderContext;
use crate::render_passes::RenderPassType;
use crate::renderable::{
    Renderable, assemble_bind_groups, fetch_texture, get_shared_index_buffer,
    get_shared_vertex_buffer, prepare_renderable, record_draw, resolve_render_pass_builder,
};

verus! {

/// How many vertices the cube mesh has: four per face.
pub const CUBE_NUM_VERTICES: u32 = 24;

/// How many indices the cube mesh has: two triangles per face.
pub const CUBE_NUM_INDICES: u32 = 36;

/// The cube's index list: each face as two triangles over its own four
/// vertices.
pub open spec fn spec_cube_indices() -> Seq<u16> {
    seq![
        0u16, 1, 2, 2, 3, 0,
        4, 6, 5, 6, 4, 7,
        8, 9, 10, 10, 11, 8,
        12, 13, 14, 14, 15, 12,
        16, 17, 18, 18, 19, 16,
        20, 21, 22, 22, 23, 20,
    ]
}

/// The index data the embedding uploads into the cube's shared index
/// buffer.
pub fn cube_indices() -> (v: Vec<u16>)
    ensures
        v@ == spec_cube_indices(),
        v@.len() == CUBE_NUM_INDICES,
{
    let v: Vec<u16> = vec![
        0u16, 1, 2, 2, 3, 0,
        4, 6, 5, 6, 4, 7,
        8, 9, 10, 10, 11, 8,
        12, 13, 14, 14, 15, 12,
        16, 17, 18, 18, 19, 16,
        20, 21, 22, 22, 23, 20,
    ];
    proof {
        assert(v@ =~= spec_cube_indices());
    }
    v
}

/// Every cube index points at one of the 24 vertices.
pub proof fn lemma_cube_indices_valid()
    ensures
        spec_cube_indices().len() == CUBE_NUM_INDICES,
        forall|i: int|
            0 <= i < spec_cube_indices().len() ==> (#[trigger] spec_cube_indices()[i])
                < CUBE_NUM_VERTICES,
{
    let s = spec_cube_indices();
    assert forall|i: int| 0 <= i < s.len() implies (#[trigger] s[i]) < CUBE_NUM_VERTICES by {
        assert(s[i] == s.index(i));
    }
}

/// A cube drawn with the texture decoded from one image file.
pub struct Cube {
    pub texture_file_path: String,
}

impl Cube {
    pub fn new(texture_file_path: String) -> (c: Cube)
        ensures
            c.texture_file_path == texture_file_path,
    {
        Cube { texture_file_path }
    }
}

impl GetType for Cube {
    open spec fn type_kind(&self) -> RenderableKind {
        RenderableKind::Cube
    }

    fn get_type(&self) -> (k: RenderableKind) {
        RenderableKind::Cube
    }
}

impl Renderable for Cube {
    open spec fn pipeline_spec(&self) -> PipelineKind {
        PipelineKind::Default
    }

    open spec fn texture_source_spec(&self) -> TextureSourceView {
        TextureSourceView::FilePath(self.texture_file_path@)
    }

    open spec fn num_indices_spec(&self) -> u32 {
        CUBE_NUM_INDICES
    }

    fn choose_pipeline(&self) -> (k: PipelineKind) {
        PipelineKind::Default
    }

    fn get_num_indices(&self) -> (n: u32) {
        CUBE_NUM_INDICES
    }

    fn get_texture(&self, ctx: &mut RenderContext) -> (h: u64) {
        fetch_texture(ctx, TextureSource::FilePath(self.texture_file_path.clone()))
    }

    fn get_vertex_buffer(&self, ctx: &mut RenderContext) -> (h: u64) {
        get_shared_vertex_buffer(ctx, self.get_type())
    }

    fn get_index_buffer(&self, ctx: &mut RenderContext) -> (h: u64) {
        get_shared_index_buffer(ctx, self.get_type())
    }

    fn get_bind_groups(&self, ctx: &mut RenderContext) -> (v: Vec<u64>) {
        assemble_bind_groups(
            ctx,
            PipelineKind::Default,
            RenderableKind::Cube,
            TextureSource::FilePath(self.texture_file_path.clone()),
        )
    }

    fn get_render_pass_builder(&self, ctx: &mut RenderContext) -> (p: RenderPassType) {
        resolve_render_pass_builder(ctx, PipelineKind::Default)
    }

    fn prepare(&self, ctx: &mut RenderContext) -> (p: RenderPassType) {
        prepare_renderable(
            ctx,
            PipelineKind::Default,
            RenderableKind::Cube,
            TextureSource::FilePath(self.texture_file_path.clone()),
        )
    }

    fn render(&self, ctx: &mut RenderContext, cmds: &mut Vec<RenderCommand>) {
        record_draw(
            ctx,
            cmds,
            PipelineKind::Default,
            RenderableKind::Cube,
            CUBE_NUM_INDICES,
            TextureSource::FilePath(self.texture_file_path.clone()),
        )
    }
}

} // verus!

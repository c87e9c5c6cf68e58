//! The default textured pipeline: a 2-D texture plus the camera uniform,
//! drawn in the opaque 3-D pass.

use vstd::prelude::*;

use crate::get_type::RenderableKind;
use crate::my_pipeline::{PipelineBuilder, PipelineKind, pass_of};
use crate::render_context::RenderContext;
use crate::render_passes::RenderPassType;
use crate::renderable;

verus! {

pub struct DefaultPipeline;

impl PipelineBuilder for DefaultPipeline {
    open spec fn kind_spec(&self) -> PipelineKind {
        PipelineKind::Default
    }

    fn pipeline_kind(&self) -> (k: PipelineKind) {
        PipelineKind::Default
    }

    fn pass_type(&self) -> (p: RenderPassType) {
        pass_of(PipelineKind::Default)
    }
}

impl DefaultPipeline {
    /// Resolves the texture bind group of one renderable kind drawn with
    /// this pipeline, through the secondary cache.
    pub fn create_texture_bind_group(
        ctx: &mut RenderContext,
        renderable_kind: RenderableKind,
        texture: u64,
    ) -> (h: u64)
        requires
            old(ctx).wf(),
            old(ctx).cache.can_alloc(1),
        ensures
            final(ctx).wf(),
            old(ctx).preserves(*final(ctx)),
            final(ctx).cache@ == old(ctx).cache@,
            final(ctx).cache.next_handle() <= old(ctx).cache.next_handle() + 1,
            renderable::bind_group_remembered(
                *old(ctx),
                *final(ctx),
                PipelineKind::Default,
                renderable_kind,
                h,
            ),
            renderable::bind_group_was_cached(
                *old(ctx),
                *final(ctx),
                PipelineKind::Default,
                renderable_kind,
                h,
            ) || renderable::bind_group_was_rebuilt(
                *old(ctx),
                *final(ctx),
                PipelineKind::Default,
                renderable_kind,
                texture,
                h,
            ),
    {
        renderable::create_texture_bind_group(
            ctx,
            PipelineKind::Default,
            renderable_kind,
            texture,
        )
    }

    /// Assembles the ordered bind groups of one draw with this pipeline:
    /// the texture bind group, then the camera bind group.
    pub fn create_bind_groups(
        ctx: &mut RenderContext,
        renderable_kind: RenderableKind,
        texture: u64,
    ) -> (v: Vec<u64>)
        requires
            old(ctx).wf(),
            old(ctx).cache.can_alloc(1),
        ensures
            final(ctx).wf(),
            old(ctx).preserves(*final(ctx)),
            final(ctx).cache@ == old(ctx).cache@,
            final(ctx).cache.next_handle() <= old(ctx).cache.next_handle() + 1,
            v@.len() == 2,
            v@[1] == old(ctx).camera_bind_group,
            renderable::bind_group_remembered(
                *old(ctx),
                *final(ctx),
                PipelineKind::Default,
                renderable_kind,
                v@[0],
            ),
            renderable::bind_group_was_cached(
                *old(ctx),
                *final(ctx),
                PipelineKind::Default,
                renderable_kind,
                v@[0],
            ) || renderable::bind_group_was_rebuilt(
                *old(ctx),
                *final(ctx),
                PipelineKind::Default,
                renderable_kind,
                texture,
                v@[0],
            ),
    {
        renderable::create_bind_groups(ctx, PipelineKind::Default, renderable_kind, texture)
    }
}

} // verus!

//! The capability contract every drawable implements, and the shared
//! resolution and draw-recording logic behind it.
//!
//! Concrete renderables only supply data — their pipeline kind, geometry
//! and texture source — and delegate everything else to the shared
//! resolution and draw-recording functions here, so no renderable can
//! drift from the draw protocol.

use vstd::prelude::*;

use crate::cache::{CacheKey, CacheKeyView, CacheValue, TextureSource, TextureSourceView};
use crate::secondary::{bind_group_code, spec_bind_group_code};
use crate::commands::{BuildRequest, RenderCommand};
use crate::get_type::{GetType, RenderableKind};
use crate::my_pipeline::{MyPipeline, PipelineKind, pass_of, spec_pass_of};
use crate::render_context::RenderContext;
use crate::render_passes::RenderPassType;

verus! {

/// The pipeline handle cached under a pipeline kind; meaningful only when
/// the key is present.
pub open spec fn spec_pipeline_handle(m: Map<CacheKeyView, CacheValue>, k: PipelineKind) -> u64 {
    match m[CacheKeyView::Pipeline(k)] {
        CacheValue::Pipeline(p) => p.pipeline,
        _ => 0,
    }
}

/// The vertex buffer handle cached under a renderable kind; meaningful
/// only when the key is present.
pub open spec fn spec_vb_handle(m: Map<CacheKeyView, CacheValue>, k: RenderableKind) -> u64 {
    match m[CacheKeyView::VertexBuffer(k)] {
        CacheValue::VertexBuffer(h) => h,
        _ => 0,
    }
}

/// The index buffer handle cached under a renderable kind; meaningful only
/// when the key is present.
pub open spec fn spec_ib_handle(m: Map<CacheKeyView, CacheValue>, k: RenderableKind) -> u64 {
    match m[CacheKeyView::IndexBuffer(k)] {
        CacheValue::IndexBuffer(h) => h,
        _ => 0,
    }
}

/// The texture handle cached under a source; meaningful only when the
/// key is present.
pub open spec fn spec_texture_handle(m: Map<CacheKeyView, CacheValue>, ts: TextureSourceView) -> u64 {
    match m[CacheKeyView::Texture(ts)] {
        CacheValue::Texture(h) => h,
        _ => 0,
    }
}

/// Whether every shared object one renderable draws with is already
/// cached: its pipeline, its geometry buffers and its texture.
pub open spec fn resources_ready(
    pk: PipelineKind,
    rk: RenderableKind,
    ts: TextureSourceView,
    m: Map<CacheKeyView, CacheValue>,
) -> bool {
    &&& m.contains_key(CacheKeyView::Pipeline(pk))
    &&& m.contains_key(CacheKeyView::VertexBuffer(rk))
    &&& m.contains_key(CacheKeyView::IndexBuffer(rk))
    &&& m.contains_key(CacheKeyView::Texture(ts))
}

/// The six commands that draw one renderable: bind the pipeline, bind the
/// texture and camera groups at their slots, bind the geometry, and issue
/// one indexed draw over all indices with a single instance.
pub open spec fn spec_draw_block(
    pk: PipelineKind,
    rk: RenderableKind,
    n: u32,
    m: Map<CacheKeyView, CacheValue>,
    camera: u64,
    tbg: u64,
) -> Seq<RenderCommand> {
    seq![
        RenderCommand::SetPipeline(spec_pipeline_handle(m, pk)),
        RenderCommand::SetBindGroup(0, tbg),
        RenderCommand::SetBindGroup(1, camera),
        RenderCommand::SetVertexBuffer(spec_vb_handle(m, rk)),
        RenderCommand::SetIndexBuffer(spec_ib_handle(m, rk)),
        RenderCommand::DrawIndexed(n),
    ]
}

/// Whether `b` is a draw block for the given renderable data, up to the
/// texture bind group, which may have been rebuilt after eviction.
pub open spec fn is_draw_block_for(
    b: Seq<RenderCommand>,
    pk: PipelineKind,
    rk: RenderableKind,
    n: u32,
    m: Map<CacheKeyView, CacheValue>,
    camera: u64,
) -> bool {
    exists|tbg: u64| b == spec_draw_block(pk, rk, n, m, camera, tbg)
}

/// The value the registry builds for a pipeline kind under a fresh handle:
/// the handle itself and the pass kind the registry fixes for this kind.
pub open spec fn spec_pipeline_value(kind: PipelineKind, id: u64) -> CacheValue {
    CacheValue::Pipeline(MyPipeline { pipeline: id, render_pass_builder: spec_pass_of(kind) })
}

/// Turns a cached value known to be a pipeline back into the pipeline.
pub fn unpack_pipeline(v: &CacheValue) -> (p: MyPipeline)
    requires
        *v is Pipeline,
    ensures
        *v == CacheValue::Pipeline(p),
{
    match v {
        CacheValue::Pipeline(p) => *p,
        _ => vstd::pervasive::unreached(),
    }
}

/// Resolves the pipeline of a kind through the primary cache: on the first
/// request the registry's configuration is fixed and the build is
/// requested under a fresh handle; every later request returns the very
/// same pipeline, and the cache is untouched.
pub fn get_pipeline_from_cache(ctx: &mut RenderContext, kind: PipelineKind) -> (p: MyPipeline)
    requires
        old(ctx).wf(),
        old(ctx).cache.can_alloc(1),
    ensures
        final(ctx).wf(),
        old(ctx).preserves(*final(ctx)),
        final(ctx).secondary == old(ctx).secondary,
        final(ctx).cache@.contains_key(CacheKeyView::Pipeline(kind)),
        final(ctx).cache@[CacheKeyView::Pipeline(kind)] == CacheValue::Pipeline(p),
        p.render_pass_builder == spec_pass_of(kind),
        old(ctx).cache@.contains_key(CacheKeyView::Pipeline(kind)) ==> *final(ctx) == *old(ctx),
        !old(ctx).cache@.contains_key(CacheKeyView::Pipeline(kind)) ==> {
            &&& p.pipeline == old(ctx).cache.next_handle()
            &&& final(ctx).cache@ == old(ctx).cache@.insert(
                CacheKeyView::Pipeline(kind),
                CacheValue::Pipeline(p),
            )
            &&& final(ctx).cache.next_handle() == old(ctx).cache.next_handle() + 1
            &&& final(ctx).requests@ == old(ctx).requests@.push(
                BuildRequest::Pipeline { kind, id: p.pipeline },
            )
        },
{
    let key = CacheKey::Pipeline(kind);
    match ctx.cache.lookup(&key) {
        Some(v) => {
            proof {
                assert(old(ctx).cache@[CacheKeyView::Pipeline(kind)] matches CacheValue::Pipeline(
                    q,
                ) && q.render_pass_builder == spec_pass_of(kind));
            }
            unpack_pipeline(&v)
        },
        None => {
            let build = |id: u64| -> (r: CacheValue)
                ensures
                    r == spec_pipeline_value(kind, id),
                {
                    CacheValue::Pipeline(
                        MyPipeline { pipeline: id, render_pass_builder: pass_of(kind) },
                    )
                };
            let v = ctx.cache.get_or_create(key, build);
            let p = unpack_pipeline(&v);
            ctx.requests.push(BuildRequest::Pipeline { kind, id: p.pipeline });
            proof {
                assert(old(ctx).requests@.is_prefix_of(final(ctx).requests@)) by {
                    assert(final(ctx).requests@.subrange(0, old(ctx).requests@.len() as int)
                        =~= old(ctx).requests@);
                }
            }
            p
        },
    }
}

/// Resolves the shared vertex buffer of a renderable kind: uploaded once
/// under a fresh handle on the first request, shared by every instance of
/// the kind afterwards.
pub fn get_shared_vertex_buffer(ctx: &mut RenderContext, kind: RenderableKind) -> (h: u64)
    requires
        old(ctx).wf(),
        old(ctx).cache.can_alloc(1),
    ensures
        final(ctx).wf(),
        old(ctx).preserves(*final(ctx)),
        final(ctx).secondary == old(ctx).secondary,
        final(ctx).cache@.contains_key(CacheKeyView::VertexBuffer(kind)),
        final(ctx).cache@[CacheKeyView::VertexBuffer(kind)] == CacheValue::VertexBuffer(h),
        old(ctx).cache@.contains_key(CacheKeyView::VertexBuffer(kind)) ==> *final(ctx) == *old(
            ctx,
        ),
        !old(ctx).cache@.contains_key(CacheKeyView::VertexBuffer(kind)) ==> {
            &&& h == old(ctx).cache.next_handle()
            &&& final(ctx).cache@ == old(ctx).cache@.insert(
                CacheKeyView::VertexBuffer(kind),
                CacheValue::VertexBuffer(h),
            )
            &&& final(ctx).cache.next_handle() == old(ctx).cache.next_handle() + 1
            &&& final(ctx).requests@ == old(ctx).requests@.push(
                BuildRequest::VertexBuffer { kind, id: h },
            )
        },
{
    let key = CacheKey::VertexBuffer(kind);
    match ctx.cache.lookup(&key) {
        Some(v) => {
            proof {
                ctx.cache.lemma_wf_values();
            }
            match v {
                CacheValue::VertexBuffer(h) => h,
                _ => vstd::pervasive::unreached(),
            }
        },
        None => {
            let build = |id: u64| -> (r: CacheValue)
                ensures
                    r == CacheValue::VertexBuffer(id),
                { CacheValue::VertexBuffer(id) };
            let v = ctx.cache.get_or_create(key, build);
            let h = match v {
                CacheValue::VertexBuffer(h) => h,
                _ => vstd::pervasive::unreached(),
            };
            ctx.requests.push(BuildRequest::VertexBuffer { kind, id: h });
            proof {
                assert(old(ctx).requests@.is_prefix_of(final(ctx).requests@)) by {
                    assert(final(ctx).requests@.subrange(0, old(ctx).requests@.len() as int)
                        =~= old(ctx).requests@);
                }
            }
            h
        },
    }
}

/// Resolves the shared index buffer of a renderable kind, as
/// [`get_shared_vertex_buffer`] does for vertices.
pub fn get_shared_index_buffer(ctx: &mut RenderContext, kind: RenderableKind) -> (h: u64)
    requires
        old(ctx).wf(),
        old(ctx).cache.can_alloc(1),
    ensures
        final(ctx).wf(),
        old(ctx).preserves(*final(ctx)),
        final(ctx).secondary == old(ctx).secondary,
        final(ctx).cache@.contains_key(CacheKeyView::IndexBuffer(kind)),
        final(ctx).cache@[CacheKeyView::IndexBuffer(kind)] == CacheValue::IndexBuffer(h),
        old(ctx).cache@.contains_key(CacheKeyView::IndexBuffer(kind)) ==> *final(ctx) == *old(
            ctx,
        ),
        !old(ctx).cache@.contains_key(CacheKeyView::IndexBuffer(kind)) ==> {
            &&& h == old(ctx).cache.next_handle()
            &&& final(ctx).cache@ == old(ctx).cache@.insert(
                CacheKeyView::IndexBuffer(kind),
                CacheValue::IndexBuffer(h),
            )
            &&& final(ctx).cache.next_handle() == old(ctx).cache.next_handle() + 1
            &&& final(ctx).requests@ == old(ctx).requests@.push(
                BuildRequest::IndexBuffer { kind, id: h },
            )
        },
{
    let key = CacheKey::IndexBuffer(kind);
    match ctx.cache.lookup(&key) {
        Some(v) => {
            proof {
                ctx.cache.lemma_wf_values();
            }
            match v {
                CacheValue::IndexBuffer(h) => h,
                _ => vstd::pervasive::unreached(),
            }
        },
        None => {
            let build = |id: u64| -> (r: CacheValue)
                ensures
                    r == CacheValue::IndexBuffer(id),
                { CacheValue::IndexBuffer(id) };
            let v = ctx.cache.get_or_create(key, build);
            let h = match v {
                CacheValue::IndexBuffer(h) => h,
                _ => vstd::pervasive::unreached(),
            };
            ctx.requests.push(BuildRequest::IndexBuffer { kind, id: h });
            proof {
                assert(old(ctx).requests@.is_prefix_of(final(ctx).requests@)) by {
                    assert(final(ctx).requests@.subrange(0, old(ctx).requests@.len() as int)
                        =~= old(ctx).requests@);
                }
            }
            h
        },
    }
}

/// Resolves the texture cached under a source: decoded and uploaded once
/// under a fresh handle on the first request, shared afterwards by every
/// renderable naming the same source.
pub fn fetch_texture(ctx: &mut RenderContext, source: TextureSource) -> (h: u64)
    requires
        old(ctx).wf(),
        old(ctx).cache.can_alloc(1),
    ensures
        final(ctx).wf(),
        old(ctx).preserves(*final(ctx)),
        final(ctx).secondary == old(ctx).secondary,
        final(ctx).cache@.contains_key(CacheKeyView::Texture(source@)),
        final(ctx).cache@[CacheKeyView::Texture(source@)] == CacheValue::Texture(h),
        old(ctx).cache@.contains_key(CacheKeyView::Texture(source@)) ==> *final(ctx) == *old(
            ctx,
        ),
        !old(ctx).cache@.contains_key(CacheKeyView::Texture(source@)) ==> {
            &&& h == old(ctx).cache.next_handle()
            &&& final(ctx).cache@ == old(ctx).cache@.insert(
                CacheKeyView::Texture(source@),
                CacheValue::Texture(h),
            )
            &&& final(ctx).cache.next_handle() == old(ctx).cache.next_handle() + 1
            &&& final(ctx).requests@ == old(ctx).requests@.push(
                BuildRequest::Texture { source, id: h },
            )
        },
{
    let key = CacheKey::Texture(crate::cache::dup_texture_source(&source));
    match ctx.cache.lookup(&key) {
        Some(v) => {
            proof {
                ctx.cache.lemma_wf_values();
            }
            match v {
                CacheValue::Texture(h) => h,
                _ => vstd::pervasive::unreached(),
            }
        },
        None => {
            let build = |id: u64| -> (r: CacheValue)
                ensures
                    r == CacheValue::Texture(id),
                { CacheValue::Texture(id) };
            let v = ctx.cache.get_or_create(key, build);
            let h = match v {
                CacheValue::Texture(h) => h,
                _ => vstd::pervasive::unreached(),
            };
            ctx.requests.push(BuildRequest::Texture { source, id: h });
            proof {
                assert(old(ctx).requests@.is_prefix_of(final(ctx).requests@)) by {
                    assert(final(ctx).requests@.subrange(0, old(ctx).requests@.len() as int)
                        =~= old(ctx).requests@);
                }
            }
            h
        },
    }
}

/// A secondary-cache hit: the bind group handle comes from the entry that
/// an earlier build stored, and nothing else moved.
pub open spec fn bind_group_was_cached(
    before: RenderContext,
    after: RenderContext,
    pipeline_kind: PipelineKind,
    renderable_kind: RenderableKind,
    h: u64,
) -> bool {
    &&& before.secondary.contents().contains_key(
        spec_bind_group_code(pipeline_kind, renderable_kind, 0) as u64,
    )
    &&& h == before.secondary.contents()[spec_bind_group_code(
        pipeline_kind,
        renderable_kind,
        0,
    ) as u64]
    &&& after.cache.next_handle() == before.cache.next_handle()
    &&& after.requests@ == before.requests@
}

/// A secondary-cache miss: a rebuild of the bind group was requested under
/// a fresh handle, which was also remembered for later frames.
pub open spec fn bind_group_was_rebuilt(
    before: RenderContext,
    after: RenderContext,
    pipeline_kind: PipelineKind,
    renderable_kind: RenderableKind,
    texture: u64,
    h: u64,
) -> bool {
    &&& h == before.cache.next_handle()
    &&& after.cache.next_handle() == before.cache.next_handle() + 1
    &&& after.requests@ == before.requests@.push(
        BuildRequest::BindGroup {
            pipeline_kind,
            renderable_kind,
            bind_group_index: 0,
            texture,
            id: h,
        },
    )
}

/// What resolving a bind group does to the secondary cache: no entry but
/// the pair's own is added or changed, and where that entry is present
/// afterwards it holds the handle that was returned — a rebuilt bind
/// group is remembered for later frames.
pub open spec fn bind_group_remembered(
    before: RenderContext,
    after: RenderContext,
    pipeline_kind: PipelineKind,
    renderable_kind: RenderableKind,
    h: u64,
) -> bool {
    let code = spec_bind_group_code(pipeline_kind, renderable_kind, 0) as u64;
    &&& forall|k: u64|
        k != code && #[trigger] after.secondary.contents().contains_key(k)
            ==> before.secondary.contents().contains_key(k)
                && after.secondary.contents()[k] == before.secondary.contents()[k]
    &&& after.secondary.contents().contains_key(code) ==> after.secondary.contents()[code] == h
}

/// Where a draw's slot-0 bind group comes from, over the span of the call
/// that resolved it: either the entry the secondary cache already held for
/// this (pipeline kind, renderable kind) pair, or a handle issued during
/// the call whose bind-group build request — naming this pair and the
/// renderable's cached texture — was appended to the request list.
pub open spec fn texture_bind_group_resolved(
    before: RenderContext,
    after: RenderContext,
    pipeline_kind: PipelineKind,
    renderable_kind: RenderableKind,
    ts: TextureSourceView,
    h: u64,
) -> bool {
    let code = spec_bind_group_code(pipeline_kind, renderable_kind, 0) as u64;
    ||| (before.secondary.contents().contains_key(code) && h
        == before.secondary.contents()[code])
    ||| {
        &&& before.cache.next_handle() <= h < after.cache.next_handle()
        &&& exists|q: int|
            before.requests@.len() <= q < after.requests@.len()
                && after.requests@[q] == (BuildRequest::BindGroup {
                pipeline_kind,
                renderable_kind,
                bind_group_index: 0,
                texture: spec_texture_handle(after.cache@, ts),
                id: h,
            })
    }
}

/// Resolves the texture bind group of one (pipeline kind, renderable kind)
/// pair through the secondary cache.  A hit returns the bind group built
/// earlier; after a miss — first use or eviction — a rebuild is requested
/// under a fresh handle and remembered.  The primary cache's association
/// is never touched.
pub fn create_texture_bind_group(
    ctx: &mut RenderContext,
    pipeline_kind: PipelineKind,
    renderable_kind: RenderableKind,
    texture: u64,
) -> (h: u64)
    requires
        old(ctx).wf(),
        old(ctx).cache.can_alloc(1),
    ensures
        final(ctx).wf(),
        old(ctx).preserves(*final(ctx)),
        final(ctx).cache@ == old(ctx).cache@,
        final(ctx).cache.next_handle() <= old(ctx).cache.next_handle() + 1,
        bind_group_remembered(*old(ctx), *final(ctx), pipeline_kind, renderable_kind, h),
        bind_group_was_cached(*old(ctx), *final(ctx), pipeline_kind, renderable_kind, h)
            || bind_group_was_rebuilt(
            *old(ctx),
            *final(ctx),
            pipeline_kind,
            renderable_kind,
            texture,
            h,
        ),
{
    let code = bind_group_code(pipeline_kind, renderable_kind, 0);
    match ctx.secondary.get(code) {
        Some(h) => h,
        None => {
            let id = ctx.cache.alloc_id();
            ctx.secondary.insert(code, id);
            ctx.requests.push(
                BuildRequest::BindGroup {
                    pipeline_kind,
                    renderable_kind,
                    bind_group_index: 0,
                    texture,
                    id,
                },
            );
            proof {
                assert(old(ctx).requests@.is_prefix_of(final(ctx).requests@)) by {
                    assert(final(ctx).requests@.subrange(0, old(ctx).requests@.len() as int)
                        =~= old(ctx).requests@);
                }
            }
            id
        },
    }
}

/// Assembles the ordered bind-group list of one draw: the renderable's
/// texture bind group at slot 0, the standard per-frame camera bind group
/// at slot 1.
pub fn create_bind_groups(
    ctx: &mut RenderContext,
    pipeline_kind: PipelineKind,
    renderable_kind: RenderableKind,
    texture: u64,
) -> (v: Vec<u64>)
    requires
        old(ctx).wf(),
        old(ctx).cache.can_alloc(1),
    ensures
        final(ctx).wf(),
        old(ctx).preserves(*final(ctx)),
        final(ctx).cache@ == old(ctx).cache@,
        final(ctx).cache.next_handle() <= old(ctx).cache.next_handle() + 1,
        v@.len() == 2,
        v@[1] == old(ctx).camera_bind_group,
        bind_group_remembered(*old(ctx), *final(ctx), pipeline_kind, renderable_kind, v@[0]),
        bind_group_was_cached(*old(ctx), *final(ctx), pipeline_kind, renderable_kind, v@[0])
            || bind_group_was_rebuilt(
            *old(ctx),
            *final(ctx),
            pipeline_kind,
            renderable_kind,
            texture,
            v@[0],
        ),
{
    let texture_bind_group = create_texture_bind_group(
        ctx,
        pipeline_kind,
        renderable_kind,
        texture,
    );
    let camera_bind_group = ctx.camera_bind_group;
    let v = vec![texture_bind_group, camera_bind_group];
    proof {
        assert(v@.len() == 2 && v@[1] == old(ctx).camera_bind_group);
    }
    v
}


/// The capability contract of a drawable.  Implementations supply data —
/// their kind tag, pipeline kind, texture source and index count — and
/// delegate the rest to the shared resolution and draw-recording functions
/// below, so no renderable can drift from the draw protocol.
pub trait Renderable: GetType {
    /// The pipeline kind this renderable draws with.
    spec fn pipeline_spec(&self) -> PipelineKind;

    /// The source its texture is loaded from.
    spec fn texture_source_spec(&self) -> TextureSourceView;

    /// The number of indices of its geometry.
    spec fn num_indices_spec(&self) -> u32;

    /// Picks the pipeline kind.  Pure and deterministic.
    fn choose_pipeline(&self) -> (k: PipelineKind)
        ensures
            k == self.pipeline_spec(),
    ;

    /// The number of indices one draw of this renderable covers.
    fn get_num_indices(&self) -> (n: u32)
        ensures
            n == self.num_indices_spec(),
    ;

    /// Resolves this renderable's texture through the primary cache.
    fn get_texture(&self, ctx: &mut RenderContext) -> (h: u64)
        requires
            old(ctx).wf(),
            old(ctx).cache.can_alloc(1),
        ensures
            final(ctx).wf(),
            old(ctx).preserves(*final(ctx)),
            final(ctx).cache.next_handle() <= old(ctx).cache.next_handle() + 1,
            final(ctx).secondary == old(ctx).secondary,
            final(ctx).cache@.contains_key(CacheKeyView::Texture(self.texture_source_spec())),
            final(ctx).cache@[CacheKeyView::Texture(self.texture_source_spec())]
                == CacheValue::Texture(h),
            old(ctx).cache@.contains_key(CacheKeyView::Texture(self.texture_source_spec()))
                ==> *final(ctx) == *old(ctx),
            !old(ctx).cache@.contains_key(CacheKeyView::Texture(self.texture_source_spec()))
                ==> {
                &&& h == old(ctx).cache.next_handle()
                &&& final(ctx).cache@ == old(ctx).cache@.insert(
                    CacheKeyView::Texture(self.texture_source_spec()),
                    CacheValue::Texture(h),
                )
                &&& final(ctx).cache.next_handle() == old(ctx).cache.next_handle() + 1
                &&& final(ctx).requests@.len() == old(ctx).requests@.len() + 1
                &&& (final(ctx).requests@.last() matches BuildRequest::Texture { source, id }
                    && source@ == self.texture_source_spec() && id == h)
            },
    ;

    /// Resolves the vertex buffer shared by every instance of this kind:
    /// one call of [`get_shared_vertex_buffer`] on its tag.
    fn get_vertex_buffer(&self, ctx: &mut RenderContext) -> (h: u64)
        requires
            old(ctx).wf(),
            old(ctx).cache.can_alloc(1),
        ensures
            final(ctx).wf(),
            old(ctx).preserves(*final(ctx)),
            final(ctx).cache.next_handle() <= old(ctx).cache.next_handle() + 1,
            final(ctx).secondary == old(ctx).secondary,
            final(ctx).cache@.contains_key(CacheKeyView::VertexBuffer(self.type_kind())),
            final(ctx).cache@[CacheKeyView::VertexBuffer(self.type_kind())]
                == CacheValue::VertexBuffer(h),
            old(ctx).cache@.contains_key(CacheKeyView::VertexBuffer(self.type_kind()))
                ==> *final(ctx) == *old(ctx),
            !old(ctx).cache@.contains_key(CacheKeyView::VertexBuffer(self.type_kind())) ==> {
                &&& h == old(ctx).cache.next_handle()
                &&& final(ctx).cache@ == old(ctx).cache@.insert(
                    CacheKeyView::VertexBuffer(self.type_kind()),
                    CacheValue::VertexBuffer(h),
                )
                &&& final(ctx).cache.next_handle() == old(ctx).cache.next_handle() + 1
                &&& final(ctx).requests@ == old(ctx).requests@.push(
                    BuildRequest::VertexBuffer { kind: self.type_kind(), id: h },
                )
            },
    ;

    /// Resolves the index buffer shared by every instance of this kind:
    /// one call of [`get_shared_index_buffer`] on its tag.
    fn get_index_buffer(&self, ctx: &mut RenderContext) -> (h: u64)
        requires
            old(ctx).wf(),
            old(ctx).cache.can_alloc(1),
        ensures
            final(ctx).wf(),
            old(ctx).preserves(*final(ctx)),
            final(ctx).cache.next_handle() <= old(ctx).cache.next_handle() + 1,
            final(ctx).secondary == old(ctx).secondary,
            final(ctx).cache@.contains_key(CacheKeyView::IndexBuffer(self.type_kind())),
            final(ctx).cache@[CacheKeyView::IndexBuffer(self.type_kind())]
                == CacheValue::IndexBuffer(h),
            old(ctx).cache@.contains_key(CacheKeyView::IndexBuffer(self.type_kind()))
                ==> *final(ctx) == *old(ctx),
            !old(ctx).cache@.contains_key(CacheKeyView::IndexBuffer(self.type_kind())) ==> {
                &&& h == old(ctx).cache.next_handle()
                &&& final(ctx).cache@ == old(ctx).cache@.insert(
                    CacheKeyView::IndexBuffer(self.type_kind()),
                    CacheValue::IndexBuffer(h),
                )
                &&& final(ctx).cache.next_handle() == old(ctx).cache.next_handle() + 1
                &&& final(ctx).requests@ == old(ctx).requests@.push(
                    BuildRequest::IndexBuffer { kind: self.type_kind(), id: h },
                )
            },
    ;

    /// Assembles the ordered bind groups of one draw: one call of
    /// [`assemble_bind_groups`].
    fn get_bind_groups(&self, ctx: &mut RenderContext) -> (v: Vec<u64>)
        requires
            old(ctx).wf(),
            old(ctx).cache.can_alloc(2),
        ensures
            final(ctx).wf(),
            old(ctx).preserves(*final(ctx)),
            final(ctx).cache.next_handle() <= old(ctx).cache.next_handle() + 2,
            final(ctx).cache@.contains_key(CacheKeyView::Texture(self.texture_source_spec())),
            v@.len() == 2,
            v@[1] == old(ctx).camera_bind_group,
            old(ctx).cache@.contains_key(CacheKeyView::Texture(self.texture_source_spec()))
                ==> final(ctx).cache@ == old(ctx).cache@,
            bind_group_remembered(
                *old(ctx),
                *final(ctx),
                self.pipeline_spec(),
                self.type_kind(),
                v@[0],
            ),
            texture_bind_group_resolved(
                *old(ctx),
                *final(ctx),
                self.pipeline_spec(),
                self.type_kind(),
                self.texture_source_spec(),
                v@[0],
            ),
    ;

    /// The pass kind this renderable must be drawn within: one call of
    /// [`resolve_render_pass_builder`].
    fn get_render_pass_builder(&self, ctx: &mut RenderContext) -> (p: RenderPassType)
        requires
            old(ctx).wf(),
            old(ctx).cache.can_alloc(1),
        ensures
            final(ctx).wf(),
            old(ctx).preserves(*final(ctx)),
            final(ctx).cache.next_handle() <= old(ctx).cache.next_handle() + 1,
            final(ctx).secondary == old(ctx).secondary,
            p == spec_pass_of(self.pipeline_spec()),
            final(ctx).cache@.contains_key(CacheKeyView::Pipeline(self.pipeline_spec())),
            old(ctx).cache@.contains_key(CacheKeyView::Pipeline(self.pipeline_spec()))
                ==> *final(ctx) == *old(ctx),
    ;

    /// Resolves everything this renderable draws with, so that a later
    /// draw finds the cache settled, and reports the renderable's pass:
    /// one call of [`prepare_renderable`].
    fn prepare(&self, ctx: &mut RenderContext) -> (p: RenderPassType)
        requires
            old(ctx).wf(),
            old(ctx).cache.can_alloc(4),
        ensures
            final(ctx).wf(),
            old(ctx).preserves(*final(ctx)),
            final(ctx).cache.next_handle() <= old(ctx).cache.next_handle() + 4,
            final(ctx).secondary == old(ctx).secondary,
            p == spec_pass_of(self.pipeline_spec()),
            resources_ready(
                self.pipeline_spec(),
                self.type_kind(),
                self.texture_source_spec(),
                final(ctx).cache@,
            ),
    ;

    /// Records one draw: one call of [`record_draw`].
    fn render(&self, ctx: &mut RenderContext, cmds: &mut Vec<RenderCommand>)
        requires
            old(ctx).wf(),
            old(ctx).cache.can_alloc(5),
        ensures
            final(ctx).wf(),
            old(ctx).preserves(*final(ctx)),
            final(ctx).cache.next_handle() <= old(ctx).cache.next_handle() + 5,
            resources_ready(
                self.pipeline_spec(),
                self.type_kind(),
                self.texture_source_spec(),
                old(ctx).cache@,
            ) ==> final(ctx).cache@ == old(ctx).cache@,
            resources_ready(
                self.pipeline_spec(),
                self.type_kind(),
                self.texture_source_spec(),
                old(ctx).cache@,
            ) ==> final(ctx).cache.next_handle() <= old(ctx).cache.next_handle() + 1,
            resources_ready(
                self.pipeline_spec(),
                self.type_kind(),
                self.texture_source_spec(),
                final(ctx).cache@,
            ),
            final(cmds)@.len() == old(cmds)@.len() + 6,
            final(cmds)@.subrange(0, old(cmds)@.len() as int) == old(cmds)@,
            is_draw_block_for(
                final(cmds)@.skip(old(cmds)@.len() as int),
                self.pipeline_spec(),
                self.type_kind(),
                self.num_indices_spec(),
                final(ctx).cache@,
                old(ctx).camera_bind_group,
            ),
            exists|tbg: u64|
                {
                    &&& final(cmds)@.skip(old(cmds)@.len() as int) == spec_draw_block(
                        self.pipeline_spec(),
                        self.type_kind(),
                        self.num_indices_spec(),
                        final(ctx).cache@,
                        old(ctx).camera_bind_group,
                        tbg,
                    )
                    &&& texture_bind_group_resolved(
                        *old(ctx),
                        *final(ctx),
                        self.pipeline_spec(),
                        self.type_kind(),
                        self.texture_source_spec(),
                        tbg,
                    )
                    &&& bind_group_remembered(
                        *old(ctx),
                        *final(ctx),
                        self.pipeline_spec(),
                        self.type_kind(),
                        tbg,
                    )
                },
    ;
}

/// Assembles the ordered bind-group list of one draw from its data: the
/// texture resolved through the primary cache, its bind group through the
/// secondary cache, and the camera bind group last.
pub fn assemble_bind_groups(
    ctx: &mut RenderContext,
    pipeline_kind: PipelineKind,
    renderable_kind: RenderableKind,
    source: TextureSource,
) -> (v: Vec<u64>)
    requires
        old(ctx).wf(),
        old(ctx).cache.can_alloc(2),
    ensures
        final(ctx).wf(),
        old(ctx).preserves(*final(ctx)),
        final(ctx).cache.next_handle() <= old(ctx).cache.next_handle() + 2,
        final(ctx).cache@.contains_key(CacheKeyView::Texture(source@)),
        v@.len() == 2,
        v@[1] == old(ctx).camera_bind_group,
        old(ctx).cache@.contains_key(CacheKeyView::Texture(source@)) ==> final(ctx).cache@
            == old(ctx).cache@,
        old(ctx).cache@.contains_key(CacheKeyView::Texture(source@))
            ==> final(ctx).cache.next_handle() <= old(ctx).cache.next_handle() + 1,
        bind_group_remembered(*old(ctx), *final(ctx), pipeline_kind, renderable_kind, v@[0]),
        texture_bind_group_resolved(
            *old(ctx),
            *final(ctx),
            pipeline_kind,
            renderable_kind,
            source@,
            v@[0],
        ),
{
    let texture = fetch_texture(ctx, source);
    let ghost mid = *ctx;
    let v = create_bind_groups(ctx, pipeline_kind, renderable_kind, texture);
    proof {
        if bind_group_was_rebuilt(mid, *ctx, pipeline_kind, renderable_kind, texture, v@[0]) {
            let q = mid.requests@.len() as int;
            assert(ctx.requests@[q] == (BuildRequest::BindGroup {
                pipeline_kind,
                renderable_kind,
                bind_group_index: 0,
                texture,
                id: v@[0],
            }));
            assert(old(ctx).requests@.len() <= q);
            assert(spec_texture_handle(ctx.cache@, source@) == texture);
        } else {
            assert(bind_group_was_cached(mid, *ctx, pipeline_kind, renderable_kind, v@[0]));
        }
    }
    v
}

/// Resolves a pipeline kind through the cache and reports the pass kind
/// the registry fixed for it.
pub fn resolve_render_pass_builder(ctx: &mut RenderContext, kind: PipelineKind) -> (p:
    RenderPassType)
    requires
        old(ctx).wf(),
        old(ctx).cache.can_alloc(1),
    ensures
        final(ctx).wf(),
        old(ctx).preserves(*final(ctx)),
        final(ctx).cache.next_handle() <= old(ctx).cache.next_handle() + 1,
        final(ctx).secondary == old(ctx).secondary,
        p == spec_pass_of(kind),
        final(ctx).cache@.contains_key(CacheKeyView::Pipeline(kind)),
        old(ctx).cache@.contains_key(CacheKeyView::Pipeline(kind)) ==> *final(ctx) == *old(ctx),
{
    let pipeline = get_pipeline_from_cache(ctx, kind);
    pipeline.render_pass_builder
}

/// Resolves everything one renderable draws with — pipeline, geometry
/// buffers and texture — so that a later draw finds the cache settled,
/// and reports the renderable's pass.
pub fn prepare_renderable(
    ctx: &mut RenderContext,
    pipeline_kind: PipelineKind,
    renderable_kind: RenderableKind,
    source: TextureSource,
) -> (p: RenderPassType)
    requires
        old(ctx).wf(),
        old(ctx).cache.can_alloc(4),
    ensures
        final(ctx).wf(),
        old(ctx).preserves(*final(ctx)),
        final(ctx).cache.next_handle() <= old(ctx).cache.next_handle() + 4,
        final(ctx).secondary == old(ctx).secondary,
        p == spec_pass_of(pipeline_kind),
        resources_ready(pipeline_kind, renderable_kind, source@, final(ctx).cache@),
{
    let p = resolve_render_pass_builder(ctx, pipeline_kind);
    let _vertex_buffer = get_shared_vertex_buffer(ctx, renderable_kind);
    let _index_buffer = get_shared_index_buffer(ctx, renderable_kind);
    let _texture = fetch_texture(ctx, source);
    p
}

/// Records the six commands of one draw: bind the pipeline, bind each
/// bind group at its sequential slot, bind the geometry, and issue a
/// single indexed draw over all indices with one instance.  When the
/// renderable's resources are already resolved, the primary cache is left
/// exactly as it was.
pub fn record_draw(
    ctx: &mut RenderContext,
    cmds: &mut Vec<RenderCommand>,
    pipeline_kind: PipelineKind,
    renderable_kind: RenderableKind,
    num_indices: u32,
    source: TextureSource,
)
    requires
        old(ctx).wf(),
        old(ctx).cache.can_alloc(5),
    ensures
        final(ctx).wf(),
        old(ctx).preserves(*final(ctx)),
        final(ctx).cache.next_handle() <= old(ctx).cache.next_handle() + 5,
        resources_ready(pipeline_kind, renderable_kind, source@, old(ctx).cache@)
            ==> final(ctx).cache@ == old(ctx).cache@,
        resources_ready(pipeline_kind, renderable_kind, source@, old(ctx).cache@)
            ==> final(ctx).cache.next_handle() <= old(ctx).cache.next_handle() + 1,
        resources_ready(pipeline_kind, renderable_kind, source@, final(ctx).cache@),
        final(cmds)@.len() == old(cmds)@.len() + 6,
        final(cmds)@.subrange(0, old(cmds)@.len() as int) == old(cmds)@,
        is_draw_block_for(
            final(cmds)@.skip(old(cmds)@.len() as int),
            pipeline_kind,
            renderable_kind,
            num_indices,
            final(ctx).cache@,
            old(ctx).camera_bind_group,
        ),
        exists|tbg: u64|
            {
                &&& final(cmds)@.skip(old(cmds)@.len() as int) == spec_draw_block(
                    pipeline_kind,
                    renderable_kind,
                    num_indices,
                    final(ctx).cache@,
                    old(ctx).camera_bind_group,
                    tbg,
                )
                &&& texture_bind_group_resolved(
                    *old(ctx),
                    *final(ctx),
                    pipeline_kind,
                    renderable_kind,
                    source@,
                    tbg,
                )
                &&& bind_group_remembered(
                    *old(ctx),
                    *final(ctx),
                    pipeline_kind,
                    renderable_kind,
                    tbg,
                )
            },
{
    let ghost base = cmds@.len() as int;
    let pipeline = get_pipeline_from_cache(ctx, pipeline_kind);
    cmds.push(RenderCommand::SetPipeline(pipeline.pipeline));
    let vertex_buffer = get_shared_vertex_buffer(ctx, renderable_kind);
    let index_buffer = get_shared_index_buffer(ctx, renderable_kind);
    let ghost pre_bg = *ctx;
    let bind_groups = assemble_bind_groups(ctx, pipeline_kind, renderable_kind, source);
    let ghost post_bg = *ctx;
    let mut i: usize = 0;
    while i < bind_groups.len()
        invariant
            bind_groups@.len() == 2,
            i <= 2,
            base == old(cmds)@.len(),
            cmds@.len() == base + 1 + i,
            forall|j: int| 0 <= j < base ==> cmds@[j] == old(cmds)@[j],
            cmds@[base] == RenderCommand::SetPipeline(pipeline.pipeline),
            forall|j: int|
                0 <= j < i ==> cmds@[base + 1 + j] == RenderCommand::SetBindGroup(
                    j as u32,
                    bind_groups@[j],
                ),
        decreases bind_groups@.len() - i,
    {
        cmds.push(RenderCommand::SetBindGroup(i as u32, bind_groups[i]));
        i = i + 1;
    }
    cmds.push(RenderCommand::SetVertexBuffer(vertex_buffer));
    cmds.push(RenderCommand::SetIndexBuffer(index_buffer));
    cmds.push(RenderCommand::DrawIndexed(num_indices));
    proof {
        let m = final(ctx).cache@;
        let block = spec_draw_block(
            pipeline_kind,
            renderable_kind,
            num_indices,
            m,
            old(ctx).camera_bind_group,
            bind_groups@[0],
        );
        assert(m[CacheKeyView::Pipeline(pipeline_kind)] == CacheValue::Pipeline(pipeline));
        assert(m[CacheKeyView::VertexBuffer(renderable_kind)] == CacheValue::VertexBuffer(
            vertex_buffer,
        ));
        assert(m[CacheKeyView::IndexBuffer(renderable_kind)] == CacheValue::IndexBuffer(
            index_buffer,
        ));
        assert(cmds@.skip(base) =~= block);
        assert(cmds@.subrange(0, base) =~= old(cmds)@);
        let tbg = bind_groups@[0];
        assert(*final(ctx) == post_bg);
        assert(old(ctx).secondary == pre_bg.secondary);
        assert(bind_group_remembered(*old(ctx), *final(ctx), pipeline_kind, renderable_kind, tbg));
        let code = spec_bind_group_code(pipeline_kind, renderable_kind, 0) as u64;
        if pre_bg.secondary.contents().contains_key(code) && tbg
            == pre_bg.secondary.contents()[code] {
            assert(texture_bind_group_resolved(
                *old(ctx),
                *final(ctx),
                pipeline_kind,
                renderable_kind,
                source@,
                tbg,
            ));
        } else {
            assert(pre_bg.cache.next_handle() <= tbg < post_bg.cache.next_handle());
            let q = choose|q: int|
                pre_bg.requests@.len() <= q < post_bg.requests@.len()
                    && #[trigger] post_bg.requests@[q] == (BuildRequest::BindGroup {
                    pipeline_kind,
                    renderable_kind,
                    bind_group_index: 0,
                    texture: spec_texture_handle(post_bg.cache@, source@),
                    id: tbg,
                });
            assert(old(ctx).requests@.len() <= q);
            assert(old(ctx).cache.next_handle() <= tbg);
            assert(texture_bind_group_resolved(
                *old(ctx),
                *final(ctx),
                pipeline_kind,
                renderable_kind,
                source@,
                tbg,
            ));
        }
    }
}

} // verus!

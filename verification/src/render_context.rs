//! The per-device rendering context: surface size, the per-frame camera
//! resources, the depth target, and the two caches, threaded by reference
//! through everything that draws.

use vstd::prelude::*;

use crate::cache::{CacheKeyView, CacheValue, ResourceCache};
use crate::secondary::SecondaryCache;
use crate::commands::BuildRequest;
use crate::my_pipeline::{PipelineKind, spec_pass_of};
use crate::my_render_pass::{default_pass_order, spec_default_pass_order};
use crate::commands::RenderCommand;
use crate::render_passes::{RenderPassType, RenderPasses};
use crate::renderables::{RenderableEntry, entry_ready, pass_of_entry};

verus! {

/// How many entries the secondary cache may hold.
pub const SECONDARY_CACHE_CAPACITY: u64 = 100;

/// How long a secondary-cache entry lives, in milliseconds.
pub const SECONDARY_CACHE_TTL_MILLIS: u64 = 60000;

/// A transient failure reported by the presentation surface.
#[derive(Clone, Copy, Debug, PartialEq, Eq, Structural)]
pub enum SurfaceErrorKind {
    Lost,
    Outdated,
    OutOfMemory,
    Timeout,
    Other,
}

/// What the frame driver must do about a surface error.
#[derive(Clone, Copy, Debug, PartialEq, Eq, Structural)]
pub enum RecoveryAction {
    /// Reconfigure the surface at the current size and try again next frame.
    Reconfigure,
    /// Resource exhaustion: terminate.
    Terminate,
    /// Log and drop the frame; no retry within the same tick.
    SkipFrame,
}

/// A failure of the orchestrator itself: a renderable's derived pass kind
/// has no entry in the pass order, which is a build-time wiring mistake.
#[derive(Clone, Copy, Debug, PartialEq, Eq, Structural)]
pub enum RenderError {
    UnregisteredPassKind,
}

/// Classifies a surface error into the recovery the frame driver owes:
/// a lost or outdated surface is reconfigured and retried, memory
/// exhaustion is fatal, a presentation timeout only skips the frame.
pub fn recovery_action(e: SurfaceErrorKind) -> (a: RecoveryAction)
    ensures
        a == RecoveryAction::Reconfigure <==> (e == SurfaceErrorKind::Lost || e
            == SurfaceErrorKind::Outdated),
        a == RecoveryAction::Terminate <==> (e == SurfaceErrorKind::OutOfMemory || e
            == SurfaceErrorKind::Other),
        a == RecoveryAction::SkipFrame <==> e == SurfaceErrorKind::Timeout,
{
    match e {
        SurfaceErrorKind::Lost => RecoveryAction::Reconfigure,
        SurfaceErrorKind::Outdated => RecoveryAction::Reconfigure,
        SurfaceErrorKind::OutOfMemory => RecoveryAction::Terminate,
        SurfaceErrorKind::Other => RecoveryAction::Terminate,
        SurfaceErrorKind::Timeout => RecoveryAction::SkipFrame,
    }
}

/// The rendering context.  GPU objects live in the embedding, keyed by the
/// handle ids recorded here; the context owns the caches and the list of
/// build requests the embedding still has to execute.
pub struct RenderContext {
    pub width: u32,
    pub height: u32,
    /// Handle of the camera uniform buffer, rewritten once per frame.
    pub camera_buffer: u64,
    /// Handle of the standard per-frame camera bind group.
    pub camera_bind_group: u64,
    /// Handle of the depth target; rebuilt on resize.
    pub depth_texture: u64,
    /// The primary cache: one construction per key, kept until shutdown.
    pub cache: ResourceCache,
    /// The secondary cache: bounded and expiring, used for bind groups.
    pub secondary: SecondaryCache,
    /// GPU objects the embedding must still build, in order.
    pub requests: Vec<BuildRequest>,
    /// The fixed order in which registered pass kinds are visited.
    pub pass_order: Vec<RenderPassType>,
}

impl RenderContext {
    /// Well-formedness: the cache is sound, the context's own handles were
    /// issued by the cache, the pass order repeats no kind, and every
    /// cached pipeline carries the pass kind its pipeline kind requires.
    pub open spec fn wf(&self) -> bool {
        &&& self.cache.wf()
        &&& self.camera_buffer < self.cache.next_handle()
        &&& self.camera_bind_group < self.cache.next_handle()
        &&& self.depth_texture < self.cache.next_handle()
        &&& forall|j: int, l: int|
            0 <= j < l < self.pass_order@.len()
                ==> self.pass_order@[j] != self.pass_order@[l]
        &&& forall|k: PipelineKind|
            self.cache@.contains_key(CacheKeyView::Pipeline(k))
                ==> (#[trigger] self.cache@[CacheKeyView::Pipeline(k)] matches CacheValue::Pipeline(
                    p,
                ) && p.render_pass_builder == spec_pass_of(k))
    }

    /// What every operation on a context preserves: the frame-independent
    /// handles and sizes, the pass order, every cache entry that already
    /// existed, and every build request already issued.
    pub open spec fn preserves(self, later: RenderContext) -> bool {
        &&& later.width == self.width
        &&& later.height == self.height
        &&& later.camera_buffer == self.camera_buffer
        &&& later.camera_bind_group == self.camera_bind_group
        &&& later.depth_texture == self.depth_texture
        &&& later.pass_order@ == self.pass_order@
        &&& self.cache.next_handle() <= later.cache.next_handle()
        &&& forall|k: CacheKeyView| #[trigger] self.cache@.contains_key(k)
            ==> later.cache@.contains_key(k) && later.cache@[k] == self.cache@[k]
        &&& self.requests@.is_prefix_of(later.requests@)
    }

    /// Preservation chains across successive operations.
    pub proof fn lemma_preserves_trans(a: RenderContext, b: RenderContext, c: RenderContext)
        requires
            a.preserves(b),
            b.preserves(c),
        ensures
            a.preserves(c),
    {
        let la = a.requests@.len() as int;
        assert(a.requests@ =~= c.requests@.subrange(0, la)) by {
            assert(a.requests@ == b.requests@.subrange(0, la));
            assert(b.requests@ == c.requests@.subrange(0, b.requests@.len() as int));
            assert forall|i: int| 0 <= i < la implies a.requests@[i] == c.requests@.subrange(
                0,
                la,
            )[i] by {
                assert(a.requests@[i] == b.requests@[i]);
                assert(b.requests@[i] == c.requests@[i]);
            }
        }
    }

    /// A context for a surface of the given size.  The camera buffer, the
    /// camera bind group and the first depth target are requested from the
    /// embedding under fresh handles; both caches start empty.
    pub fn new(width: u32, height: u32) -> (c: RenderContext)
        ensures
            c.wf(),
            c.width == width,
            c.height == height,
            c.cache@ == Map::<CacheKeyView, CacheValue>::empty(),
            c.secondary.contents() == Map::<u64, u64>::empty(),
            c.camera_buffer == 0,
            c.camera_bind_group == 1,
            c.depth_texture == 2,
            c.cache.next_handle() == 3,
            c.pass_order@ == spec_default_pass_order(),
            c.requests@ =~= seq![
                BuildRequest::CameraBuffer { id: 0 },
                BuildRequest::CameraBindGroup { buffer: 0, id: 1 },
                BuildRequest::DepthTexture { width, height, id: 2 },
            ],
    {
        let mut cache = ResourceCache::new();
        let camera_buffer = cache.alloc_id();
        let camera_bind_group = cache.alloc_id();
        let depth_texture = cache.alloc_id();
        let mut requests: Vec<BuildRequest> = Vec::new();
        requests.push(BuildRequest::CameraBuffer { id: camera_buffer });
        requests.push(
            BuildRequest::CameraBindGroup { buffer: camera_buffer, id: camera_bind_group },
        );
        requests.push(BuildRequest::DepthTexture { width, height, id: depth_texture });
        RenderContext {
            width,
            height,
            camera_buffer,
            camera_bind_group,
            depth_texture,
            cache,
            secondary: SecondaryCache::new(
                SECONDARY_CACHE_CAPACITY,
                SECONDARY_CACHE_TTL_MILLIS,
            ),
            requests,
            pass_order: default_pass_order(),
        }
    }

    /// A context whose registry visits a custom pass order — for instance
    /// one with a pass kind deliberately left unregistered.  The order may
    /// not repeat a kind.
    pub fn with_pass_order(width: u32, height: u32, pass_order: Vec<RenderPassType>) -> (c:
        RenderContext)
        requires
            forall|j: int, l: int|
                0 <= j < l < pass_order@.len() ==> pass_order@[j] != pass_order@[l],
        ensures
            c.wf(),
            c.width == width,
            c.height == height,
            c.cache@ == Map::<CacheKeyView, CacheValue>::empty(),
            c.secondary.contents() == Map::<u64, u64>::empty(),
            c.camera_bind_group == 1,
            c.pass_order@ == pass_order@,
    {
        let mut c = RenderContext::new(width, height);
        c.pass_order = pass_order;
        c
    }

    /// Renders one frame of the given renderables: partitions them by the
    /// pass kind their chosen pipeline derives (resolving shared objects
    /// on the way), then visits the fixed pass order, opening each pass
    /// with renderables exactly once and drawing its group in insertion
    /// order.  The result is the frame's command list for the embedding to
    /// replay, or the configuration error if some renderable's pass kind
    /// is not in the pass order.
    pub fn render(&mut self, renderables: &Vec<RenderableEntry>) -> (r: Result<
        Vec<RenderCommand>,
        RenderError,
    >)
        requires
            old(self).wf(),
            old(self).cache.can_alloc((6 * renderables@.len() + 5) as nat),
        ensures
            final(self).wf(),
            old(self).preserves(*final(self)),
            final(self).cache.next_handle() <= old(self).cache.next_handle() + 6
                * renderables@.len(),
            (r is Ok) <==> (forall|i: int|
                0 <= i < renderables@.len() ==> old(self).pass_order@.contains(
                    pass_of_entry(#[trigger] renderables@[i]),
                )),
            r matches Ok(cmds) ==> crate::render_passes::is_frame_cmds(
                cmds@,
                old(self).pass_order@,
                renderables@,
                final(self).cache@,
                old(self).camera_bind_group,
            ),
            r matches Ok(cmds) ==> crate::render_passes::begin_passes(cmds@)
                == crate::render_passes::opened_passes(old(self).pass_order@, renderables@),
            r matches Ok(cmds) ==> crate::render_passes::spec_draw_count(cmds@)
                == renderables@.len(),
            r matches Ok(cmds) ==> crate::render_passes::commands_bind_groups_provenant(
                cmds@,
                *old(self),
                *final(self),
            ),
            forall|i: int|
                0 <= i < renderables@.len() ==> entry_ready(
                    #[trigger] renderables@[i],
                    final(self).cache@,
                ),
    {
        let ghost before = *self;
        let passes = RenderPasses::new(renderables, self);
        let ghost mid = *self;
        let r = passes.render(renderables, self);
        proof {
            RenderContext::lemma_preserves_trans(before, mid, *self);
            if let Ok(cmds) = &r {
                assert forall|w: int| 0 <= w < (*cmds)@.len() implies ((#[trigger] (*cmds)@[w])
                    matches RenderCommand::SetBindGroup(slot, tb) ==> (slot == 0
                    ==> crate::render_passes::frame_bind_group_provenance(before, *self, tb)))
                    by {
                    match (*cmds)@[w] {
                        RenderCommand::SetBindGroup(slot, tb) => {
                            if slot == 0 {
                                crate::render_passes::lemma_provenance_before_widen(
                                    before,
                                    mid,
                                    *self,
                                    tb,
                                );
                            }
                        },
                        _ => {},
                    }
                }
                crate::render_passes::lemma_frame_begins(
                    (*cmds)@,
                    before.pass_order@,
                    renderables@,
                    self.cache@,
                    before.camera_bind_group,
                );
                crate::render_passes::lemma_partition_complete(
                    (*cmds)@,
                    before.pass_order@,
                    renderables@,
                    self.cache@,
                    before.camera_bind_group,
                );
            }
        }
        r
    }

    /// Reconfigures for a new surface size.  Only the depth target is
    /// invalidated and requested anew; every cached pipeline, buffer,
    /// texture and bind group stays exactly as it was.
    pub fn resize(&mut self, new_width: u32, new_height: u32)
        requires
            old(self).wf(),
            old(self).cache.can_alloc(1),
        ensures
            final(self).wf(),
            old(self).cache@ == final(self).cache@,
            final(self).width == new_width,
            final(self).height == new_height,
            final(self).camera_buffer == old(self).camera_buffer,
            final(self).camera_bind_group == old(self).camera_bind_group,
            final(self).pass_order@ == old(self).pass_order@,
            final(self).secondary == old(self).secondary,
            final(self).depth_texture == old(self).cache.next_handle(),
            final(self).depth_texture != old(self).depth_texture,
            final(self).cache.next_handle() == old(self).cache.next_handle() + 1,
            final(self).requests@ == old(self).requests@.push(
                BuildRequest::DepthTexture {
                    width: new_width,
                    height: new_height,
                    id: final(self).depth_texture,
                },
            ),
    {
        self.width = new_width;
        self.height = new_height;
        self.depth_texture = self.cache.alloc_id();
        self.requests.push(
            BuildRequest::DepthTexture {
                width: new_width,
                height: new_height,
                id: self.depth_texture,
            },
        );
    }
}

} // verus!

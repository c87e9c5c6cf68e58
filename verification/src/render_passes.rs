//! Render-pass kinds, their fixed attachment configurations, and the
//! per-frame partition of the renderable set by required pass kind.

pub mod opaque3d_render_pass;
pub mod ui_render_pass;

use vstd::prelude::*;

use crate::commands::RenderCommand;
use crate::get_type::GetType;
use crate::render_context::RenderContext;
use crate::commands::BuildRequest;
use crate::renderable::{
    Renderable, bind_group_remembered, is_draw_block_for, spec_draw_block, spec_ib_handle,
    spec_pipeline_handle, spec_texture_handle, spec_vb_handle, texture_bind_group_resolved,
};
use crate::secondary::spec_bind_group_code;
use crate::renderables::{RenderableEntry, entry_ready, pass_of_entry};

verus! {

/// The closed set of render-pass kinds.  The registry order is load-bearing:
/// UI passes run after opaque 3-D passes so that they draw on top.
#[derive(Clone, Copy, Debug, PartialEq, Eq, Structural)]
pub enum RenderPassType {
    Opaque3D,
    UI,
}

/// Whether a pass starts by clearing its color attachment or by loading
/// what an earlier pass left there.
#[derive(Clone, Copy, Debug, PartialEq, Eq, Structural)]
pub enum ColorLoad {
    Clear,
    Load,
}

/// One render pass's attachment policy: how color is loaded and whether a
/// depth attachment is bound (and then cleared to the far plane).
#[derive(Clone, Copy, Debug, PartialEq, Eq, Structural)]
pub struct PassConfig {
    pub color_load: ColorLoad,
    pub use_depth: bool,
}

/// The attachment configuration that each pass kind fixes.
pub open spec fn spec_pass_config(t: RenderPassType) -> PassConfig {
    match t {
        RenderPassType::Opaque3D => PassConfig { color_load: ColorLoad::Clear, use_depth: true },
        RenderPassType::UI => PassConfig { color_load: ColorLoad::Load, use_depth: false },
    }
}

/// Assembles one pass's attachment set from its clear/load and depth policy.
pub fn create_render_pass(clear_color: bool, use_depth: bool) -> (c: PassConfig)
    ensures
        c.color_load == (if clear_color { ColorLoad::Clear } else { ColorLoad::Load }),
        c.use_depth == use_depth,
{
    PassConfig {
        color_load: if clear_color { ColorLoad::Clear } else { ColorLoad::Load },
        use_depth,
    }
}

/// The indices, in insertion order, of the renderables among the first
/// `n` whose derived pass kind is `p`.
pub open spec fn idxs_upto(rs: Seq<RenderableEntry>, p: RenderPassType, n: int) -> Seq<int>
    decreases n,
{
    if n <= 0 {
        Seq::empty()
    } else if pass_of_entry(rs[n - 1]) == p {
        idxs_upto(rs, p, n - 1).push(n - 1)
    } else {
        idxs_upto(rs, p, n - 1)
    }
}

/// The indices, in insertion order, of the renderables whose derived pass
/// kind is `p`.
pub open spec fn idxs_with_pass(rs: Seq<RenderableEntry>, p: RenderPassType) -> Seq<int> {
    idxs_upto(rs, p, rs.len() as int)
}

/// What one pass group's index list holds: every renderable of the pass,
/// each exactly once, in insertion order.
pub proof fn lemma_idxs_props(rs: Seq<RenderableEntry>, p: RenderPassType, n: int)
    requires
        n <= rs.len(),
    ensures
        n >= 0 ==> idxs_upto(rs, p, n).len() <= n,
        forall|j: int|
            0 <= j < idxs_upto(rs, p, n).len() ==> {
                &&& 0 <= #[trigger] idxs_upto(rs, p, n)[j] < n
                &&& pass_of_entry(rs[idxs_upto(rs, p, n)[j]]) == p
            },
        forall|j: int, l: int|
            0 <= j < l < idxs_upto(rs, p, n).len()
                ==> #[trigger] idxs_upto(rs, p, n)[j] < #[trigger] idxs_upto(rs, p, n)[l],
        forall|i: int| 0 <= i < n && pass_of_entry(rs[i]) == p
            ==> idxs_upto(rs, p, n).contains(i),
    decreases n,
{
    if n > 0 {
        lemma_idxs_props(rs, p, n - 1);
        assert forall|i: int| 0 <= i < n && pass_of_entry(rs[i]) == p
            implies idxs_upto(rs, p, n).contains(i) by {
            if i < n - 1 {
                assert(idxs_upto(rs, p, n - 1).contains(i));
                let j = choose|j: int|
                    0 <= j < idxs_upto(rs, p, n - 1).len() && #[trigger] idxs_upto(
                        rs,
                        p,
                        n - 1,
                    )[j] == i;
                assert(idxs_upto(rs, p, n)[j] == i);
            } else {
                assert(idxs_upto(rs, p, n).last() == i);
            }
        }
    }
}

/// A pass has renderables exactly when some renderable derives it.
pub proof fn lemma_idxs_nonempty(rs: Seq<RenderableEntry>, p: RenderPassType, n: int)
    ensures
        idxs_upto(rs, p, n).len() > 0 <==> exists|i: int|
            0 <= i < n && pass_of_entry(#[trigger] rs[i]) == p,
    decreases n,
{
    if n > 0 {
        lemma_idxs_nonempty(rs, p, n - 1);
        if pass_of_entry(rs[n - 1]) == p {
            assert(pass_of_entry(rs[n - 1]) == p && 0 <= n - 1 < n);
        }
    }
}

/// A duplicate-free pass order holds each of the two pass kinds at most
/// once, so it can never be longer than two entries.
pub proof fn lemma_pass_order_len(order: Seq<RenderPassType>)
    requires
        forall|j: int, l: int| 0 <= j < l < order.len() ==> order[j] != order[l],
    ensures
        order.len() <= 2,
{
    if order.len() >= 3 {
        assert(order[0] != order[1] && order[0] != order[2] && order[1] != order[2]);
        assert(order[0] is Opaque3D || order[0] is UI);
        assert(false);
    }
}

/// Whether `b` is exactly the sequence of draw blocks of the group
/// `idxs`, in order.
pub open spec fn is_group_cmds(
    b: Seq<RenderCommand>,
    rs: Seq<RenderableEntry>,
    idxs: Seq<int>,
    m: Map<crate::cache::CacheKeyView, crate::cache::CacheValue>,
    camera: u64,
) -> bool
    decreases idxs.len(),
{
    if idxs.len() == 0 {
        b.len() == 0
    } else {
        &&& b.len() == 6 * idxs.len()
        &&& is_group_cmds(b.take(b.len() - 6), rs, idxs.drop_last(), m, camera)
        &&& 0 <= idxs.last() < rs.len()
        &&& is_draw_block_for(
            b.skip(b.len() - 6),
            rs[idxs.last()].pipeline_spec(),
            rs[idxs.last()].type_kind(),
            rs[idxs.last()].num_indices_spec(),
            m,
            camera,
        )
    }
}

/// Whether `cmds` is exactly one frame's command list for the given pass
/// order and renderable set: for each pass kind in order that has
/// renderables, one `BeginPass`, that group's draw blocks in insertion
/// order, and one `EndPass`; nothing else, and no empty pass is opened.
pub open spec fn is_frame_cmds(
    cmds: Seq<RenderCommand>,
    order: Seq<RenderPassType>,
    rs: Seq<RenderableEntry>,
    m: Map<crate::cache::CacheKeyView, crate::cache::CacheValue>,
    camera: u64,
) -> bool
    decreases order.len(),
{
    if order.len() == 0 {
        cmds.len() == 0
    } else {
        let p = order.last();
        let idxs = idxs_with_pass(rs, p);
        if idxs.len() == 0 {
            is_frame_cmds(cmds, order.drop_last(), rs, m, camera)
        } else {
            let seg = 2 + 6 * idxs.len();
            &&& cmds.len() >= seg
            &&& is_frame_cmds(cmds.take(cmds.len() - seg), order.drop_last(), rs, m, camera)
            &&& cmds[cmds.len() - seg] == RenderCommand::BeginPass(p)
            &&& is_group_cmds(
                cmds.subrange(cmds.len() - seg + 1, cmds.len() - 1),
                rs,
                idxs,
                m,
                camera,
            )
            &&& cmds.last() == RenderCommand::EndPass
        }
    }
}

/// The pass kinds a frame opens, in order: the pass order filtered to the
/// kinds that some active renderable derives.
pub open spec fn opened_passes(
    order: Seq<RenderPassType>,
    rs: Seq<RenderableEntry>,
) -> Seq<RenderPassType> {
    order.filter(|p: RenderPassType| idxs_with_pass(rs, p).len() > 0)
}

/// The arguments of the `BeginPass` commands of a command list, in order.
pub open spec fn begin_passes(cmds: Seq<RenderCommand>) -> Seq<RenderPassType>
    decreases cmds.len(),
{
    if cmds.len() == 0 {
        Seq::empty()
    } else {
        begin_passes(cmds.drop_last()) + (match cmds.last() {
            RenderCommand::BeginPass(p) => seq![p],
            _ => Seq::empty(),
        })
    }
}

proof fn lemma_begin_append(a: Seq<RenderCommand>, b: Seq<RenderCommand>)
    ensures
        begin_passes(a + b) == begin_passes(a) + begin_passes(b),
    decreases b.len(),
{
    if b.len() == 0 {
        assert(a + b =~= a);
        assert(begin_passes(a) + begin_passes(b) =~= begin_passes(a));
    } else {
        lemma_begin_append(a, b.drop_last());
        assert((a + b).drop_last() =~= a + b.drop_last());
        assert((a + b).last() == b.last());
        assert(begin_passes(a) + begin_passes(b.drop_last()) + (match b.last() {
            RenderCommand::BeginPass(p) => seq![p],
            _ => Seq::<RenderPassType>::empty(),
        }) =~= begin_passes(a) + begin_passes(b));
    }
}

proof fn lemma_begin_none(b: Seq<RenderCommand>)
    requires
        forall|i: int| 0 <= i < b.len() ==> !((#[trigger] b[i]) is BeginPass),
    ensures
        begin_passes(b) == Seq::<RenderPassType>::empty(),
    decreases b.len(),
{
    if b.len() > 0 {
        lemma_begin_none(b.drop_last());
        assert(!(b[b.len() - 1] is BeginPass));
        assert(begin_passes(b) =~= Seq::<RenderPassType>::empty());
    }
}

proof fn lemma_group_no_begins(
    b: Seq<RenderCommand>,
    rs: Seq<RenderableEntry>,
    idxs: Seq<int>,
    m: Map<crate::cache::CacheKeyView, crate::cache::CacheValue>,
    camera: u64,
)
    requires
        is_group_cmds(b, rs, idxs, m, camera),
    ensures
        forall|i: int| 0 <= i < b.len() ==> !((#[trigger] b[i]) is BeginPass),
    decreases idxs.len(),
{
    if idxs.len() > 0 {
        lemma_group_no_begins(b.take(b.len() - 6), rs, idxs.drop_last(), m, camera);
        let block = b.skip(b.len() - 6);
        let e = rs[idxs.last()];
        let tbg = choose|tbg: u64|
            block == crate::renderable::spec_draw_block(
                e.pipeline_spec(),
                e.type_kind(),
                e.num_indices_spec(),
                m,
                camera,
                tbg,
            );
        assert forall|i: int| 0 <= i < b.len() implies !((#[trigger] b[i]) is BeginPass) by {
            if i < b.len() - 6 {
                assert(b.take(b.len() - 6)[i] == b[i]);
            } else {
                assert(block[i - (b.len() - 6)] == b[i]);
            }
        }
    }
}

/// What a recorded frame opens: exactly the pass kinds of the order that
/// have renderables, in the order's own sequence.  This is what makes the
/// pass iteration order stable across frames: it never depends on the
/// renderable set beyond which kinds are present at all.
pub proof fn lemma_frame_begins(
    cmds: Seq<RenderCommand>,
    order: Seq<RenderPassType>,
    rs: Seq<RenderableEntry>,
    m: Map<crate::cache::CacheKeyView, crate::cache::CacheValue>,
    camera: u64,
)
    requires
        is_frame_cmds(cmds, order, rs, m, camera),
    ensures
        begin_passes(cmds) == opened_passes(order, rs),
    decreases order.len(),
{
    reveal_with_fuel(Seq::filter, 2);
    if order.len() == 0 {
        assert(begin_passes(cmds) =~= opened_passes(order, rs));
    } else {
        let p = order.last();
        let idxs = idxs_with_pass(rs, p);
        if idxs.len() == 0 {
            lemma_frame_begins(cmds, order.drop_last(), rs, m, camera);
            assert(opened_passes(order, rs) == opened_passes(order.drop_last(), rs));
        } else {
            let seg = 2 + 6 * idxs.len();
            let prefix = cmds.take(cmds.len() - seg);
            let segment = cmds.skip(cmds.len() - seg);
            lemma_frame_begins(prefix, order.drop_last(), rs, m, camera);
            assert(cmds =~= prefix + segment);
            lemma_begin_append(prefix, segment);
            let group = cmds.subrange(cmds.len() - seg + 1, cmds.len() - 1);
            lemma_group_no_begins(group, rs, idxs, m, camera);
            assert(begin_passes(segment) =~= seq![p]) by {
                assert(segment.len() == seg);
                assert(segment.last() == RenderCommand::EndPass);
                let inner = segment.drop_last();
                assert(begin_passes(segment) == begin_passes(inner));
                assert(inner =~= seq![RenderCommand::BeginPass(p)] + group) by {
                    assert(segment[0] == cmds[cmds.len() - seg]);
                    assert forall|i: int| 0 <= i < inner.len() implies inner[i] == (
                    seq![RenderCommand::BeginPass(p)] + group)[i] by {
                        if i > 0 {
                            assert(inner[i] == cmds[cmds.len() - seg + i]);
                            assert(group[i - 1] == cmds[cmds.len() - seg + i]);
                        }
                    }
                }
                lemma_begin_append(seq![RenderCommand::BeginPass(p)], group);
                lemma_begin_none(group);
                assert(begin_passes(seq![RenderCommand::BeginPass(p)]) =~= seq![p]) by {
                    let single = seq![RenderCommand::BeginPass(p)];
                    assert(single.drop_last() =~= Seq::<RenderCommand>::empty());
                    assert(begin_passes(Seq::<RenderCommand>::empty())
                        == Seq::<RenderPassType>::empty());
                    assert(single.last() == RenderCommand::BeginPass(p));
                    assert(begin_passes(single) == begin_passes(single.drop_last()) + seq![p]);
                    assert(Seq::<RenderPassType>::empty() + seq![p] =~= seq![p]);
                }
            }
            assert(opened_passes(order, rs) == opened_passes(order.drop_last(), rs).push(p));
            assert(begin_passes(cmds) =~= opened_passes(order, rs));
        }
    }
}

/// How many indexed draws a command list issues.
pub open spec fn spec_draw_count(cmds: Seq<RenderCommand>) -> int
    decreases cmds.len(),
{
    if cmds.len() == 0 {
        0
    } else {
        spec_draw_count(cmds.drop_last()) + (if cmds.last() is DrawIndexed {
            1int
        } else {
            0int
        })
    }
}

proof fn lemma_draw_count_append(a: Seq<RenderCommand>, b: Seq<RenderCommand>)
    ensures
        spec_draw_count(a + b) == spec_draw_count(a) + spec_draw_count(b),
    decreases b.len(),
{
    if b.len() == 0 {
        assert(a + b =~= a);
    } else {
        lemma_draw_count_append(a, b.drop_last());
        assert((a + b).drop_last() =~= a + b.drop_last());
        assert((a + b).last() == b.last());
    }
}

proof fn lemma_draw_count_none(b: Seq<RenderCommand>)
    requires
        forall|i: int| 0 <= i < b.len() ==> !((#[trigger] b[i]) is DrawIndexed),
    ensures
        spec_draw_count(b) == 0,
    decreases b.len(),
{
    if b.len() > 0 {
        lemma_draw_count_none(b.drop_last());
        assert(!(b[b.len() - 1] is DrawIndexed));
    }
}

proof fn lemma_group_draw_count(
    b: Seq<RenderCommand>,
    rs: Seq<RenderableEntry>,
    idxs: Seq<int>,
    m: Map<crate::cache::CacheKeyView, crate::cache::CacheValue>,
    camera: u64,
)
    requires
        is_group_cmds(b, rs, idxs, m, camera),
    ensures
        spec_draw_count(b) == idxs.len(),
    decreases idxs.len(),
{
    if idxs.len() == 0 {
        assert(b =~= Seq::<RenderCommand>::empty());
    } else {
        lemma_group_draw_count(b.take(b.len() - 6), rs, idxs.drop_last(), m, camera);
        let block = b.skip(b.len() - 6);
        let e = rs[idxs.last()];
        let tbg = choose|tbg: u64|
            block == crate::renderable::spec_draw_block(
                e.pipeline_spec(),
                e.type_kind(),
                e.num_indices_spec(),
                m,
                camera,
                tbg,
            );
        assert(b =~= b.take(b.len() - 6) + block);
        lemma_draw_count_append(b.take(b.len() - 6), block);
        assert(spec_draw_count(block) == 1) by {
            let head = block.drop_last();
            assert(block.last() is DrawIndexed);
            assert(forall|i: int| 0 <= i < head.len() ==> !((#[trigger] head[i]) is DrawIndexed));
            lemma_draw_count_none(head);
        }
    }
}

/// The sizes of the groups a pass order dispatches, summed in order.
pub open spec fn sum_group_sizes(order: Seq<RenderPassType>, rs: Seq<RenderableEntry>) -> int
    decreases order.len(),
{
    if order.len() == 0 {
        0
    } else {
        sum_group_sizes(order.drop_last(), rs) + idxs_with_pass(rs, order.last()).len()
    }
}

proof fn lemma_frame_draw_count_sum(
    cmds: Seq<RenderCommand>,
    order: Seq<RenderPassType>,
    rs: Seq<RenderableEntry>,
    m: Map<crate::cache::CacheKeyView, crate::cache::CacheValue>,
    camera: u64,
)
    requires
        is_frame_cmds(cmds, order, rs, m, camera),
    ensures
        spec_draw_count(cmds) == sum_group_sizes(order, rs),
    decreases order.len(),
{
    if order.len() > 0 {
        let p = order.last();
        let idxs = idxs_with_pass(rs, p);
        if idxs.len() == 0 {
            lemma_frame_draw_count_sum(cmds, order.drop_last(), rs, m, camera);
        } else {
            let seg = 2 + 6 * idxs.len();
            let prefix = cmds.take(cmds.len() - seg);
            let segment = cmds.skip(cmds.len() - seg);
            lemma_frame_draw_count_sum(prefix, order.drop_last(), rs, m, camera);
            assert(cmds =~= prefix + segment);
            lemma_draw_count_append(prefix, segment);
            let group = cmds.subrange(cmds.len() - seg + 1, cmds.len() - 1);
            lemma_group_draw_count(group, rs, idxs, m, camera);
            assert(segment =~= seq![RenderCommand::BeginPass(p)] + group + seq![
                RenderCommand::EndPass,
            ]) by {
                assert forall|i: int| 0 <= i < seg implies segment[i] == (seq![
                    RenderCommand::BeginPass(p),
                ] + group + seq![RenderCommand::EndPass])[i] by {
                    if 0 < i < seg - 1 {
                        assert(segment[i] == cmds[cmds.len() - seg + i]);
                        assert(group[i - 1] == cmds[cmds.len() - seg + i]);
                    }
                }
            }
            lemma_draw_count_append(seq![RenderCommand::BeginPass(p)] + group, seq![
                RenderCommand::EndPass,
            ]);
            lemma_draw_count_append(seq![RenderCommand::BeginPass(p)], group);
            assert(spec_draw_count(seq![RenderCommand::BeginPass(p)]) == 0) by {
                lemma_draw_count_none(seq![RenderCommand::BeginPass(p)]);
            }
            assert(spec_draw_count(seq![RenderCommand::EndPass]) == 0) by {
                lemma_draw_count_none(seq![RenderCommand::EndPass]);
            }
        }
    }
}

/// The groups of the first `n` renderables, summed over the pass order.
spec fn sum_upto(order: Seq<RenderPassType>, rs: Seq<RenderableEntry>, n: int) -> int
    decreases order.len(),
{
    if order.len() == 0 {
        0
    } else {
        sum_upto(order.drop_last(), rs, n) + idxs_upto(rs, order.last(), n).len()
    }
}

proof fn lemma_sum_upto_zero(order: Seq<RenderPassType>, rs: Seq<RenderableEntry>)
    ensures
        sum_upto(order, rs, 0) == 0,
    decreases order.len(),
{
    if order.len() > 0 {
        lemma_sum_upto_zero(order.drop_last(), rs);
    }
}

proof fn lemma_sum_upto_step(order: Seq<RenderPassType>, rs: Seq<RenderableEntry>, n: int)
    requires
        forall|j: int, l: int| 0 <= j < l < order.len() ==> order[j] != order[l],
        0 < n <= rs.len(),
    ensures
        sum_upto(order, rs, n) == sum_upto(order, rs, n - 1) + (if order.contains(
            pass_of_entry(rs[n - 1]),
        ) {
            1int
        } else {
            0int
        }),
    decreases order.len(),
{
    if order.len() > 0 {
        let p = pass_of_entry(rs[n - 1]);
        lemma_sum_upto_step(order.drop_last(), rs, n);
        assert(order.contains(p) <==> (order.last() == p || order.drop_last().contains(p))) by {
            if order.contains(p) {
                let w = choose|w: int| 0 <= w < order.len() && order[w] == p;
                if w < order.len() - 1 {
                    assert(order.drop_last()[w] == p);
                }
            }
            if order.drop_last().contains(p) {
                let w = choose|w: int|
                    0 <= w < order.drop_last().len() && order.drop_last()[w] == p;
                assert(order[w] == p);
            }
        }
        if order.last() == p {
            assert(!order.drop_last().contains(p)) by {
                if order.drop_last().contains(p) {
                    let w = choose|w: int|
                        0 <= w < order.drop_last().len() && order.drop_last()[w] == p;
                    assert(order[w] == order[order.len() - 1]);
                    assert(false);
                }
            }
            assert(idxs_upto(rs, order.last(), n).len() == idxs_upto(rs, order.last(), n - 1).len()
                + 1);
        } else {
            assert(idxs_upto(rs, order.last(), n).len() == idxs_upto(
                rs,
                order.last(),
                n - 1,
            ).len());
        }
    }
}

proof fn lemma_sum_upto_total(order: Seq<RenderPassType>, rs: Seq<RenderableEntry>, n: int)
    requires
        forall|j: int, l: int| 0 <= j < l < order.len() ==> order[j] != order[l],
        0 <= n <= rs.len(),
        forall|i: int|
            0 <= i < n ==> order.contains(pass_of_entry(#[trigger] rs[i])),
    ensures
        sum_upto(order, rs, n) == n,
    decreases n,
{
    if n == 0 {
        lemma_sum_upto_zero(order, rs);
    } else {
        lemma_sum_upto_total(order, rs, n - 1);
        lemma_sum_upto_step(order, rs, n);
    }
}

proof fn lemma_sum_group_sizes_is_sum_upto(
    order: Seq<RenderPassType>,
    rs: Seq<RenderableEntry>,
)
    ensures
        sum_group_sizes(order, rs) == sum_upto(order, rs, rs.len() as int),
    decreases order.len(),
{
    if order.len() > 0 {
        lemma_sum_group_sizes_is_sum_upto(order.drop_last(), rs);
    }
}

/// Partitioning completeness: when every renderable's derived pass kind
/// is registered, a recorded frame issues exactly one indexed draw per
/// renderable — the post-dispatch leftover is empty and nothing is drawn
/// twice.
pub proof fn lemma_partition_complete(
    cmds: Seq<RenderCommand>,
    order: Seq<RenderPassType>,
    rs: Seq<RenderableEntry>,
    m: Map<crate::cache::CacheKeyView, crate::cache::CacheValue>,
    camera: u64,
)
    requires
        forall|j: int, l: int| 0 <= j < l < order.len() ==> order[j] != order[l],
        forall|i: int|
            0 <= i < rs.len() ==> order.contains(pass_of_entry(#[trigger] rs[i])),
        is_frame_cmds(cmds, order, rs, m, camera),
    ensures
        spec_draw_count(cmds) == rs.len(),
{
    lemma_frame_draw_count_sum(cmds, order, rs, m, camera);
    lemma_sum_group_sizes_is_sum_upto(order, rs);
    lemma_sum_upto_total(order, rs, rs.len() as int);
}

proof fn lemma_filter_full<A>(s: Seq<A>, pred: spec_fn(A) -> bool)
    requires
        s.filter(pred).len() == s.len(),
    ensures
        s.filter(pred) == s,
    decreases s.len(),
{
    reveal_with_fuel(Seq::filter, 2);
    broadcast use vstd::seq_lib::group_filter_ensures;

    if s.len() > 0 {
        assert(s.drop_last().filter(pred).len() <= s.drop_last().len());
        if pred(s.last()) {
            lemma_filter_full(s.drop_last(), pred);
            assert(s.filter(pred) =~= s);
        } else {
            assert(s.filter(pred).len() <= s.len() - 1);
            assert(false);
        }
    } else {
        assert(s.filter(pred) =~= s);
    }
}

/// Pass-kind iteration order is stable across repeated frames with a
/// changing renderable set: whenever more than one pass kind is active in
/// a frame, the opened passes are exactly the fixed pass order itself, so
/// two frames that both open several passes open them in the same
/// relative order, whatever their renderable sets hold.
pub proof fn lemma_pass_order_stable(
    order: Seq<RenderPassType>,
    rs1: Seq<RenderableEntry>,
    rs2: Seq<RenderableEntry>,
)
    requires
        forall|j: int, l: int| 0 <= j < l < order.len() ==> order[j] != order[l],
    ensures
        opened_passes(order, rs1).len() > 1 && opened_passes(order, rs2).len() > 1
            ==> opened_passes(order, rs1) == opened_passes(order, rs2),
{
    broadcast use vstd::seq_lib::group_filter_ensures;

    lemma_pass_order_len(order);
    if opened_passes(order, rs1).len() > 1 && opened_passes(order, rs2).len() > 1 {
        assert(opened_passes(order, rs1).len() <= order.len());
        assert(opened_passes(order, rs2).len() <= order.len());
        lemma_filter_full(order, |p: RenderPassType| idxs_with_pass(rs1, p).len() > 0);
        lemma_filter_full(order, |p: RenderPassType| idxs_with_pass(rs2, p).len() > 0);
    }
}

/// Where a slot-0 bind group handle in a frame's commands, or a value in
/// the secondary cache, may come from, over the frame's span: a value the
/// secondary cache already held when the frame began, or a handle that a
/// bind-group build request appended during the frame carries as its id.
/// Nothing a frame binds at slot 0 is a handle nobody ever requested.
pub open spec fn frame_bind_group_provenance(
    before: RenderContext,
    after: RenderContext,
    tbg: u64,
) -> bool {
    ||| exists|k: u64|
        #[trigger] before.secondary.contents().contains_key(k)
            && before.secondary.contents()[k] == tbg
    ||| exists|q: int|
        before.requests@.len() <= q < after.requests@.len() && ((#[trigger] after.requests@[q])
            matches BuildRequest::BindGroup { id, .. } && id == tbg)
}

/// Every value the secondary cache holds now was either held when the
/// frame began or was issued and requested during the frame.
pub open spec fn secondary_values_provenant(start: RenderContext, now: RenderContext) -> bool {
    forall|k: u64|
        #[trigger] now.secondary.contents().contains_key(k) ==> frame_bind_group_provenance(
            start,
            now,
            now.secondary.contents()[k],
        )
}

/// Every handle a command list binds at slot 0 has frame provenance.
pub open spec fn commands_bind_groups_provenant(
    cmds: Seq<RenderCommand>,
    before: RenderContext,
    after: RenderContext,
) -> bool {
    forall|q: int|
        0 <= q < cmds.len() ==> ((#[trigger] cmds[q]) matches RenderCommand::SetBindGroup(
            slot,
            tbg,
        ) ==> (slot == 0 ==> frame_bind_group_provenance(before, after, tbg)))
}

proof fn lemma_provenance_widen(s: RenderContext, b: RenderContext, c: RenderContext, tbg: u64)
    requires
        frame_bind_group_provenance(s, b, tbg),
        b.requests@.is_prefix_of(c.requests@),
    ensures
        frame_bind_group_provenance(s, c, tbg),
{
    if !(exists|k: u64|
        #[trigger] s.secondary.contents().contains_key(k) && s.secondary.contents()[k] == tbg) {
        let q = choose|q: int|
            s.requests@.len() <= q < b.requests@.len() && ((#[trigger] b.requests@[q])
                matches BuildRequest::BindGroup { id, .. } && id == tbg);
        assert(c.requests@[q] == b.requests@[q]) by {
            assert(b.requests@ == c.requests@.subrange(0, b.requests@.len() as int));
        }
    }
}

/// Provenance judged from a later frame start still holds from an
/// earlier one, when nothing touched the secondary cache in between.
pub proof fn lemma_provenance_before_widen(
    s0: RenderContext,
    s1: RenderContext,
    after: RenderContext,
    tbg: u64,
)
    requires
        frame_bind_group_provenance(s1, after, tbg),
        s1.secondary == s0.secondary,
        s0.requests@.len() <= s1.requests@.len(),
    ensures
        frame_bind_group_provenance(s0, after, tbg),
{
    if !(exists|k: u64|
        #[trigger] s1.secondary.contents().contains_key(k) && s1.secondary.contents()[k]
            == tbg) {
        let q = choose|q: int|
            s1.requests@.len() <= q < after.requests@.len() && ((#[trigger] after.requests@[q])
                matches BuildRequest::BindGroup { id, .. } && id == tbg);
        assert(s0.requests@.len() <= q < after.requests@.len() && ((after.requests@[q])
            matches BuildRequest::BindGroup { id, .. } && id == tbg));
    }
}

/// One draw's step: resolving a bind group keeps every secondary-cache
/// value provenant and gives the draw's own handle frame provenance.
proof fn lemma_secondary_step(
    start: RenderContext,
    a: RenderContext,
    b: RenderContext,
    pk: crate::my_pipeline::PipelineKind,
    rk: crate::get_type::RenderableKind,
    ts: crate::cache::TextureSourceView,
    tbg: u64,
)
    requires
        secondary_values_provenant(start, a),
        start.requests@.len() <= a.requests@.len(),
        a.requests@.is_prefix_of(b.requests@),
        bind_group_remembered(a, b, pk, rk, tbg),
        texture_bind_group_resolved(a, b, pk, rk, ts, tbg),
    ensures
        secondary_values_provenant(start, b),
        frame_bind_group_provenance(start, b, tbg),
{
    let code = spec_bind_group_code(pk, rk, 0) as u64;
    if a.secondary.contents().contains_key(code) && tbg == a.secondary.contents()[code] {
        assert(frame_bind_group_provenance(start, a, tbg));
        lemma_provenance_widen(start, a, b, tbg);
    } else {
        let q = choose|q: int|
            a.requests@.len() <= q < b.requests@.len() && #[trigger] b.requests@[q] == (
            BuildRequest::BindGroup {
                pipeline_kind: pk,
                renderable_kind: rk,
                bind_group_index: 0,
                texture: spec_texture_handle(b.cache@, ts),
                id: tbg,
            });
        assert(start.requests@.len() <= q < b.requests@.len() && ((b.requests@[q])
            matches BuildRequest::BindGroup { id, .. } && id == tbg));
    }
    assert forall|k: u64| #[trigger] b.secondary.contents().contains_key(k)
        implies frame_bind_group_provenance(start, b, b.secondary.contents()[k]) by {
        if k == code {
            assert(b.secondary.contents()[k] == tbg);
        } else {
            assert(a.secondary.contents().contains_key(k));
            assert(frame_bind_group_provenance(start, a, a.secondary.contents()[k]));
            lemma_provenance_widen(start, a, b, a.secondary.contents()[k]);
            assert(b.secondary.contents()[k] == a.secondary.contents()[k]);
        }
    }
}

/// Whether a group list is the executable image of a ghost index list.
pub open spec fn idx_list_matches(l: Seq<usize>, idxs: Seq<int>) -> bool {
    l.map_values(|u: usize| u as int) == idxs
}

/// What a finished partition holds, relative to the first `n` renderables:
/// each pass kind at most once, each group exactly the indices deriving
/// that pass, and a group for every pass kind that any of them derives.
pub open spec fn groups_match_upto(
    groups: Seq<(RenderPassType, Vec<usize>)>,
    rs: Seq<RenderableEntry>,
    n: int,
) -> bool {
    &&& forall|a: int, b: int|
        0 <= a < b < groups.len() ==> (#[trigger] groups[a]).0 != (#[trigger] groups[b]).0
    &&& forall|a: int|
        0 <= a < groups.len() ==> {
            &&& idx_list_matches((#[trigger] groups[a]).1@, idxs_upto(rs, groups[a].0, n))
            &&& idxs_upto(rs, groups[a].0, n).len() > 0
        }
    &&& forall|p: RenderPassType|
        #[trigger] idxs_upto(rs, p, n).len() > 0 ==> exists|a: int|
            0 <= a < groups.len() && (#[trigger] groups[a]).0 == p
}

/// What the partition of a whole renderable set holds.
pub open spec fn groups_match(
    groups: Seq<(RenderPassType, Vec<usize>)>,
    rs: Seq<RenderableEntry>,
) -> bool {
    groups_match_upto(groups, rs, rs.len() as int)
}

/// Whether the pass order holds a pass kind.
fn contains_pass(order: &Vec<RenderPassType>, p: RenderPassType) -> (r: bool)
    ensures
        r == order@.contains(p),
{
    let mut q: usize = 0;
    while q < order.len()
        invariant
            q <= order@.len(),
            forall|a: int| 0 <= a < q ==> order@[a] != p,
        decreases order@.len() - q,
    {
        if order[q] == p {
            return true;
        }
        q = q + 1;
    }
    proof {
        assert(!order@.contains(p));
    }
    false
}

/// Finds the group keyed by a pass kind, if one exists yet.
fn find_group(groups: &Vec<(RenderPassType, Vec<usize>)>, pass: RenderPassType) -> (r: Option<
    usize,
>)
    ensures
        match r {
            Some(q) => q < groups@.len() && groups@[q as int].0 == pass,
            None => forall|a: int| 0 <= a < groups@.len() ==> (#[trigger] groups@[a]).0 != pass,
        },
{
    let mut q: usize = 0;
    while q < groups.len()
        invariant
            q <= groups@.len(),
            forall|a: int| 0 <= a < q ==> (#[trigger] groups@[a]).0 != pass,
        decreases groups@.len() - q,
    {
        if groups[q].0 == pass {
            return Some(q);
        }
        q = q + 1;
    }
    None
}

/// The per-frame partition of the active renderables by required pass
/// kind.  Building it also resolves every renderable's shared objects, so
/// the caches are settled before any command is recorded.
pub struct RenderPasses {
    groups: Vec<(RenderPassType, Vec<usize>)>,
}

impl RenderPasses {
    /// The partition's groups: pass kind and member indices.
    pub closed spec fn groups_view(&self) -> Seq<(RenderPassType, Vec<usize>)> {
        self.groups@
    }

    /// Partitions the renderables by the pass kind their chosen pipeline
    /// derives, resolving each one's shared objects on the way.
    pub fn new(renderables: &Vec<RenderableEntry>, ctx: &mut RenderContext) -> (rp: RenderPasses)
        requires
            old(ctx).wf(),
            old(ctx).cache.can_alloc(4 * renderables@.len()),
        ensures
            final(ctx).wf(),
            old(ctx).preserves(*final(ctx)),
            final(ctx).cache.next_handle() <= old(ctx).cache.next_handle() + 4
                * renderables@.len(),
            final(ctx).secondary == old(ctx).secondary,
            forall|i: int|
                0 <= i < renderables@.len() ==> entry_ready(
                    #[trigger] renderables@[i],
                    final(ctx).cache@,
                ),
            groups_match(rp.groups_view(), renderables@),
    {
        let n = renderables.len();
        let mut groups: Vec<(RenderPassType, Vec<usize>)> = Vec::new();
        let mut k: usize = 0;
        while k < n
            invariant
                n == renderables@.len(),
                k <= n,
                ctx.wf(),
                old(ctx).preserves(*ctx),
                ctx.secondary == old(ctx).secondary,
                old(ctx).cache.can_alloc((4 * n) as nat),
                ctx.cache.next_handle() <= old(ctx).cache.next_handle() + 4 * k,
                forall|i: int|
                    0 <= i < k ==> entry_ready(#[trigger] renderables@[i], ctx.cache@),
                groups_match_upto(groups@, renderables@, k as int),
            decreases n - k,
        {
            let ghost ctx_before = *ctx;
            let ghost groups_before = groups@;
            let pass = renderables[k].prepare(ctx);
            proof {
                RenderContext::lemma_preserves_trans(*old(ctx), ctx_before, *ctx);
                assert(pass == pass_of_entry(renderables@[k as int]));
            }
            let ghost mut pass_pos: int = 0;
            match find_group(&groups, pass) {
                Some(q) => {
                    let g = &mut groups[q];
                    g.1.push(k);
                    proof {
                        pass_pos = q as int;
                    }
                },
                None => {
                    let single: Vec<usize> = vec![k];
                    groups.push((pass, single));
                    proof {
                        pass_pos = groups_before.len() as int;
                    }
                },
            }
            proof {
                assert(0 <= pass_pos < groups@.len() && groups@[pass_pos].0 == pass);
                assert forall|a: int, b: int| 0 <= a < b < groups@.len() implies (
                #[trigger] groups@[a]).0 != (#[trigger] groups@[b]).0 by {
                    if b < groups_before.len() {
                        assert(groups@[a].0 == groups_before[a].0);
                        assert(groups@[b].0 == groups_before[b].0);
                    } else {
                        assert(groups@[a].0 == groups_before[a].0);
                    }
                }
                let rs = renderables@;
                let ki = k as int;
                assert forall|p: RenderPassType| true implies #[trigger] idxs_upto(
                    rs,
                    p,
                    ki + 1,
                ) == (if p == pass {
                    idxs_upto(rs, p, ki).push(ki)
                } else {
                    idxs_upto(rs, p, ki)
                }) by {}
                assert forall|a: int| 0 <= a < groups@.len() implies {
                    &&& idx_list_matches(
                        (#[trigger] groups@[a]).1@,
                        idxs_upto(rs, groups@[a].0, ki + 1),
                    )
                    &&& idxs_upto(rs, groups@[a].0, ki + 1).len() > 0
                } by {
                    if a < groups_before.len() {
                        if groups_before[a].0 == pass {
                            assert(groups@[a].1@ == groups_before[a].1@.push(k));
                            assert(groups@[a].1@.map_values(|u: usize| u as int) =~= idxs_upto(
                                rs,
                                pass,
                                ki,
                            ).push(ki));
                        } else {
                            assert(groups@[a] == groups_before[a]);
                            assert(groups@[a].1@.map_values(|u: usize| u as int) == idxs_upto(
                                rs,
                                groups@[a].0,
                                ki,
                            ));
                        }
                    } else {
                        assert(groups@[a].0 == pass && groups@[a].1@ =~= seq![k]);
                        assert(idxs_upto(rs, pass, ki).len() == 0);
                        assert(groups@[a].1@.map_values(|u: usize| u as int) =~= idxs_upto(
                            rs,
                            pass,
                            ki,
                        ).push(ki));
                    }
                }
                assert forall|p: RenderPassType| #[trigger] idxs_upto(rs, p, ki + 1).len() > 0
                    implies exists|a: int|
                    0 <= a < groups@.len() && (#[trigger] groups@[a]).0 == p by {
                    if p == pass {
                        assert(0 <= pass_pos < groups@.len() && (#[trigger] groups@[pass_pos]).0
                            == p);
                    } else {
                        assert(idxs_upto(rs, p, ki).len() > 0);
                        let a = choose|a: int|
                            0 <= a < groups_before.len() && (#[trigger] groups_before[a]).0 == p;
                        assert(groups@[a].0 == p);
                    }
                }
            }
            k = k + 1;
        }
        RenderPasses { groups }
    }

    /// Records the frame: visits the pass order, and for each pass kind
    /// with renderables opens the pass once, draws its group in insertion
    /// order, and closes it.  A pass kind with no renderables is skipped;
    /// a renderable whose pass kind is missing from the order is a wiring
    /// mistake, reported before anything is recorded.
    pub fn render(
        &self,
        renderables: &Vec<RenderableEntry>,
        ctx: &mut RenderContext,
    ) -> (r: Result<Vec<RenderCommand>, crate::render_context::RenderError>)
        requires
            old(ctx).wf(),
            groups_match(self.groups_view(), renderables@),
            forall|i: int|
                0 <= i < renderables@.len() ==> entry_ready(
                    #[trigger] renderables@[i],
                    old(ctx).cache@,
                ),
            old(ctx).cache.can_alloc((2 * renderables@.len() + 5) as nat),
        ensures
            final(ctx).wf(),
            old(ctx).preserves(*final(ctx)),
            final(ctx).cache@ == old(ctx).cache@,
            final(ctx).cache.next_handle() <= old(ctx).cache.next_handle() + 2
                * renderables@.len(),
            (r is Ok) <==> (forall|i: int|
                0 <= i < renderables@.len() ==> old(ctx).pass_order@.contains(
                    pass_of_entry(#[trigger] renderables@[i]),
                )),
            r matches Ok(cmds) ==> is_frame_cmds(
                cmds@,
                old(ctx).pass_order@,
                renderables@,
                old(ctx).cache@,
                old(ctx).camera_bind_group,
            ),
            r matches Ok(cmds) ==> commands_bind_groups_provenant(
                cmds@,
                *old(ctx),
                *final(ctx),
            ),
    {
        let ghost rs = renderables@;
        let ghost order = old(ctx).pass_order@;
        let n = renderables.len();

        // The exhaustiveness check: every partition key must be dispatched.
        let mut all_registered = true;
        let mut a: usize = 0;
        while a < self.groups.len()
            invariant
                rs == renderables@,
                order == ctx.pass_order@,
                groups_match(self.groups_view(), rs),
                a <= self.groups@.len(),
                all_registered ==> forall|b: int|
                    0 <= b < a ==> order.contains((#[trigger] self.groups@[b]).0),
                !all_registered ==> exists|b: int|
                    0 <= b < self.groups@.len() && !order.contains((#[trigger] self.groups@[b]).0),
            decreases self.groups@.len() - a,
        {
            if !contains_pass(&ctx.pass_order, self.groups[a].0) {
                all_registered = false;
                proof {
                    assert(!order.contains((self.groups@[a as int]).0));
                }
            }
            a = a + 1;
        }
        if !all_registered {
            proof {
                let b = choose|b: int|
                    0 <= b < self.groups@.len() && !order.contains(
                        (#[trigger] self.groups@[b]).0,
                    );
                let p = self.groups@[b].0;
                lemma_idxs_nonempty(rs, p, rs.len() as int);
                let i = choose|i: int| 0 <= i < rs.len() && pass_of_entry(#[trigger] rs[i]) == p;
                assert(!order.contains(pass_of_entry(rs[i])));
                assert(old(ctx).requests@ =~= ctx.requests@.subrange(
                    0,
                    old(ctx).requests@.len() as int,
                ));
            }
            return Err(crate::render_context::RenderError::UnregisteredPassKind);
        }
        proof {
            assert forall|i: int| 0 <= i < rs.len() implies order.contains(
                pass_of_entry(#[trigger] rs[i]),
            ) by {
                let p = pass_of_entry(rs[i]);
                lemma_idxs_props(rs, p, rs.len() as int);
                assert(idxs_with_pass(rs, p).contains(i));
                let b = choose|b: int|
                    0 <= b < self.groups@.len() && (#[trigger] self.groups@[b]).0 == p;
                assert(order.contains(self.groups@[b].0));
            }
        }

        proof {
            assert forall|k: u64| #[trigger] ctx.secondary.contents().contains_key(k)
                implies frame_bind_group_provenance(
                *old(ctx),
                *ctx,
                ctx.secondary.contents()[k],
            ) by {
                assert(old(ctx).secondary.contents().contains_key(k)
                    && old(ctx).secondary.contents()[k] == ctx.secondary.contents()[k]);
            }
        }

        // Record the frame against the settled caches.
        let mut cmds: Vec<RenderCommand> = Vec::new();
        let ghost m = ctx.cache@;
        let ghost nh0 = ctx.cache.next_handle();
        let ghost camera = ctx.camera_bind_group;
        let order_len = ctx.pass_order.len();
        proof {
            lemma_pass_order_len(order);
        }
        let mut j: usize = 0;
        while j < order_len
            invariant
                n == rs.len(),
                rs == renderables@,
                order_len == order.len(),
                order.len() <= 2,
                j <= order.len(),
                ctx.wf(),
                old(ctx).preserves(*ctx),
                ctx.pass_order@ == order,
                ctx.camera_bind_group == camera,
                ctx.cache@ == m,
                m == old(ctx).cache@,
                nh0 == old(ctx).cache.next_handle(),
                old(ctx).cache.can_alloc((2 * n + 5) as nat),
                ctx.cache.next_handle() <= nh0 + n * j,
                groups_match(self.groups_view(), rs),
                forall|i: int| 0 <= i < rs.len() ==> entry_ready(#[trigger] rs[i], m),
                is_frame_cmds(cmds@, order.take(j as int), rs, m, camera),
                secondary_values_provenant(*old(ctx), *ctx),
                commands_bind_groups_provenant(cmds@, *old(ctx), *ctx),
            decreases order.len() - j,
        {
            let p = ctx.pass_order[j];
            let ghost idxs = idxs_with_pass(rs, p);
            match find_group(&self.groups, p) {
                None => {
                    proof {
                        if idxs.len() > 0 {
                            let b = choose|b: int|
                                0 <= b < self.groups@.len() && (#[trigger] self.groups@[b]).0
                                    == p;
                            assert(false);
                        }
                        assert(order.take(j as int + 1).drop_last() =~= order.take(j as int));
                        assert(order.take(j as int + 1).last() == p);
                        assert(is_frame_cmds(cmds@, order.take(j as int + 1), rs, m, camera));
                    }
                },
                Some(q) => {
                    let ghost prev = cmds@;
                    cmds.push(RenderCommand::BeginPass(p));
                    let ghost s0 = prev.len() as int + 1;
                    proof {
                        assert forall|w: int| 0 <= w < cmds@.len() implies ((#[trigger] cmds@[w])
                            matches RenderCommand::SetBindGroup(slot, tb) ==> (slot == 0
                            ==> frame_bind_group_provenance(*old(ctx), *ctx, tb))) by {
                            if w < prev.len() {
                                assert(cmds@[w] == prev[w]);
                            } else {
                                assert(cmds@[w] == RenderCommand::BeginPass(p));
                            }
                        }
                        lemma_idxs_props(rs, p, rs.len() as int);
                        assert(idx_list_matches(self.groups@[q as int].1@, idxs));
                        assert(self.groups@[q as int].1@.len() == idxs.len());
                        assert(idxs.len() <= n);
                        assert(idxs.len() > 0);
                    }
                    let group_len = self.groups[q].1.len();
                    let mut t: usize = 0;
                    while t < group_len
                        invariant
                            n == rs.len(),
                            rs == renderables@,
                            0 <= (q as int) < self.groups@.len(),
                            self.groups@[q as int].0 == p,
                            idxs == idxs_with_pass(rs, p),
                            idx_list_matches(self.groups@[q as int].1@, idxs),
                            group_len == idxs.len(),
                            group_len <= n,
                            t <= group_len,
                            ctx.wf(),
                            old(ctx).preserves(*ctx),
                            ctx.pass_order@ == order,
                            ctx.camera_bind_group == camera,
                            ctx.cache@ == m,
                            m == old(ctx).cache@,
                            nh0 == old(ctx).cache.next_handle(),
                            old(ctx).cache.can_alloc((2 * n + 5) as nat),
                            order.len() <= 2,
                            j < order.len(),
                            ctx.cache.next_handle() <= nh0 + n * j + t,
                            forall|i: int| 0 <= i < rs.len() ==> entry_ready(#[trigger] rs[i], m),
                            cmds@.len() == s0 + 6 * t,
                            s0 == prev.len() + 1,
                            forall|w: int| 0 <= w < prev.len() ==> cmds@[w] == prev[w],
                            cmds@[s0 - 1] == RenderCommand::BeginPass(p),
                            is_group_cmds(cmds@.skip(s0), rs, idxs.take(t as int), m, camera),
                            secondary_values_provenant(*old(ctx), *ctx),
                            commands_bind_groups_provenant(cmds@, *old(ctx), *ctx),
                        decreases group_len - t,
                    {
                        let i = self.groups[q].1[t];
                        proof {
                            lemma_idxs_props(rs, p, rs.len() as int);
                            assert(self.groups@[q as int].1@.map_values(|u: usize| u as int)[t as int]
                                == idxs[t as int]);
                            assert(i as int == idxs[t as int]);
                            assert(0 <= idxs[t as int] < rs.len());
                            assert(entry_ready(rs[i as int], m));
                            assert(ctx.cache.next_handle() + 5 <= nh0 + n * j + t + 5);
                            assert((n as int) * (j as int) + t + 5 <= 2 * (n as int) + 5)
                                by (nonlinear_arith)
                                requires
                                    0 <= (j as int) <= 1,
                                    0 <= (t as int) <= n as int,
                            ;
                        }
                        let ghost cmds_before = cmds@;
                        let ghost ctx_before = *ctx;
                        renderables[i].render(ctx, &mut cmds);
                        proof {
                            RenderContext::lemma_preserves_trans(*old(ctx), ctx_before, *ctx);
                            let e = rs[i as int];
                            assert(pass_of_entry(e) == p);
                            let bnew = cmds@.skip(s0);
                            let take1 = idxs.take(t as int + 1);
                            assert(take1.drop_last() =~= idxs.take(t as int));
                            assert(take1.last() == idxs[t as int]);
                            assert(bnew.len() == 6 * take1.len());
                            assert(bnew.take(bnew.len() - 6) =~= cmds_before.skip(s0)) by {
                                assert(forall|w: int|
                                    0 <= w < cmds_before.len() ==> cmds@[w] == cmds_before[w]);
                            }
                            assert(bnew.skip(bnew.len() - 6) =~= cmds@.skip(
                                cmds_before.len() as int,
                            ));
                            assert(is_draw_block_for(
                                cmds@.skip(cmds_before.len() as int),
                                e.pipeline_spec(),
                                e.type_kind(),
                                e.num_indices_spec(),
                                m,
                                camera,
                            ));
                            assert(is_group_cmds(bnew, rs, take1, m, camera));
                            assert(forall|w: int| 0 <= w < prev.len() ==> cmds@[w] == prev[w]);
                            assert(cmds@[s0 - 1] == RenderCommand::BeginPass(p));
                            let tbg2 = choose|tb: u64|
                                {
                                    &&& cmds@.skip(cmds_before.len() as int) == spec_draw_block(
                                        e.pipeline_spec(),
                                        e.type_kind(),
                                        e.num_indices_spec(),
                                        ctx.cache@,
                                        ctx_before.camera_bind_group,
                                        tb,
                                    )
                                    &&& #[trigger] texture_bind_group_resolved(
                                        ctx_before,
                                        *ctx,
                                        e.pipeline_spec(),
                                        e.type_kind(),
                                        e.texture_source_spec(),
                                        tb,
                                    )
                                    &&& bind_group_remembered(
                                        ctx_before,
                                        *ctx,
                                        e.pipeline_spec(),
                                        e.type_kind(),
                                        tb,
                                    )
                                };
                            assert(old(ctx).requests@.len() <= ctx_before.requests@.len());
                            lemma_secondary_step(
                                *old(ctx),
                                ctx_before,
                                *ctx,
                                e.pipeline_spec(),
                                e.type_kind(),
                                e.texture_source_spec(),
                                tbg2,
                            );
                            let block2 = spec_draw_block(
                                e.pipeline_spec(),
                                e.type_kind(),
                                e.num_indices_spec(),
                                ctx.cache@,
                                ctx_before.camera_bind_group,
                                tbg2,
                            );
                            assert(block2[0] == RenderCommand::SetPipeline(
                                spec_pipeline_handle(ctx.cache@, e.pipeline_spec()),
                            ));
                            assert(block2[1] == RenderCommand::SetBindGroup(0, tbg2));
                            assert(block2[2] == RenderCommand::SetBindGroup(
                                1,
                                ctx_before.camera_bind_group,
                            ));
                            assert(block2[3] == RenderCommand::SetVertexBuffer(
                                spec_vb_handle(ctx.cache@, e.type_kind()),
                            ));
                            assert(block2[4] == RenderCommand::SetIndexBuffer(
                                spec_ib_handle(ctx.cache@, e.type_kind()),
                            ));
                            assert(block2[5] == RenderCommand::DrawIndexed(
                                e.num_indices_spec(),
                            ));
                            assert forall|w: int| 0 <= w < cmds@.len() implies ((
                            #[trigger] cmds@[w]) matches RenderCommand::SetBindGroup(slot, tb)
                                ==> (slot == 0 ==> frame_bind_group_provenance(
                                *old(ctx),
                                *ctx,
                                tb,
                            ))) by {
                                if w < cmds_before.len() {
                                    assert(cmds@[w] == cmds_before[w]);
                                    match cmds_before[w] {
                                        RenderCommand::SetBindGroup(slot, tb) => {
                                            if slot == 0 {
                                                lemma_provenance_widen(
                                                    *old(ctx),
                                                    ctx_before,
                                                    *ctx,
                                                    tb,
                                                );
                                            }
                                        },
                                        _ => {},
                                    }
                                } else {
                                    let off = w - cmds_before.len();
                                    assert(cmds@[w] == block2[off]);
                                }
                            }
                        }
                        t = t + 1;
                    }
                    let ghost before_end = cmds@;
                    cmds.push(RenderCommand::EndPass);
                    proof {
                        assert forall|w: int| 0 <= w < cmds@.len() implies ((#[trigger] cmds@[w])
                            matches RenderCommand::SetBindGroup(slot, tb) ==> (slot == 0
                            ==> frame_bind_group_provenance(*old(ctx), *ctx, tb))) by {
                            if w < before_end.len() {
                                assert(cmds@[w] == before_end[w]);
                            } else {
                                assert(cmds@[w] == RenderCommand::EndPass);
                            }
                        }
                        assert(idxs.take(idxs.len() as int) =~= idxs);
                        let ot = order.take(j as int + 1);
                        assert(ot.drop_last() =~= order.take(j as int));
                        assert(ot.last() == p);
                        let seg = 2 + 6 * idxs.len();
                        assert(cmds@.len() == prev.len() + seg);
                        assert(cmds@.take(cmds@.len() - seg) =~= prev);
                        assert(cmds@[cmds@.len() - seg] == RenderCommand::BeginPass(p));
                        assert(cmds@.subrange(cmds@.len() - seg + 1, cmds@.len() - 1)
                            =~= before_end.skip(s0));
                        assert(cmds@.last() == RenderCommand::EndPass);
                        assert(is_frame_cmds(cmds@, ot, rs, m, camera));
                    }
                },
            }
            proof {
                let ji = j as int;
                let ni = n as int;
                assert(ni * (ji + 1) == ni * ji + ni) by (nonlinear_arith);
            }
            j = j + 1;
        }
        proof {
            assert(order.take(order.len() as int) =~= order);
            let ji = j as int;
            let ni = n as int;
            assert(ni * ji <= 2 * ni) by (nonlinear_arith)
                requires
                    0 <= ni,
                    0 <= ji <= 2,
            ;
        }
        Ok(cmds)
    }
}

/// Dispatches a pass kind to its builder and returns that builder's
/// configuration.
pub fn create_render_pass_from_type(t: RenderPassType) -> (c: PassConfig)
    ensures
        c == spec_pass_config(t),
{
    match t {
        RenderPassType::Opaque3D => {
            crate::my_render_pass::RenderPassBuilder::create_render_pass(
                &opaque3d_render_pass::Opaque3DRenderPass,
            )
        },
        RenderPassType::UI => {
            crate::my_render_pass::RenderPassBuilder::create_render_pass(
                &ui_render_pass::UiRenderPass,
            )
        },
    }
}

} // verus!

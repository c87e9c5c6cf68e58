//! The secondary general-purpose cache: a bounded, expiring store for the
//! less latency-critical lookups — bind groups — whose rebuild after an
//! eviction is idempotent and cheap.

use vstd::prelude::*;

use crate::get_type::RenderableKind;
use crate::my_pipeline::PipelineKind;

verus! {

/// A small stable index for each pipeline kind.
pub open spec fn spec_pipeline_index(k: PipelineKind) -> u64 {
    match k {
        PipelineKind::Default => 0,
        PipelineKind::Skybox => 1,
        PipelineKind::Ui => 2,
    }
}

/// A small stable index for each renderable kind.
pub open spec fn spec_renderable_index(k: RenderableKind) -> u64 {
    match k {
        RenderableKind::Cube => 0,
        RenderableKind::Skybox => 1,
        RenderableKind::Ui => 2,
    }
}

/// The integer key under which a bind group lives in the secondary cache:
/// owning pipeline kind, renderable kind and binding index, packed so that
/// distinct triples can never collide.
pub open spec fn spec_bind_group_code(
    p: PipelineKind,
    r: RenderableKind,
    index: u32,
) -> int {
    (spec_pipeline_index(p) * 4 + spec_renderable_index(r)) * 0x1_0000_0000 + index as u64
}

/// Packs a bind group's discriminating data into its secondary-cache key.
pub fn bind_group_code(p: PipelineKind, r: RenderableKind, index: u32) -> (code: u64)
    ensures
        code == spec_bind_group_code(p, r, index),
{
    let pi: u64 = match p {
        PipelineKind::Default => 0,
        PipelineKind::Skybox => 1,
        PipelineKind::Ui => 2,
    };
    let ri: u64 = match r {
        RenderableKind::Cube => 0,
        RenderableKind::Skybox => 1,
        RenderableKind::Ui => 2,
    };
    (pi * 4 + ri) * 0x1_0000_0000 + index as u64
}

/// The packing is faithful: equal codes can only come from the same
/// pipeline kind, renderable kind and binding index, so bind groups of
/// different owners never share a secondary-cache entry.
pub proof fn lemma_bind_group_code_injective(
    p1: PipelineKind,
    r1: RenderableKind,
    i1: u32,
    p2: PipelineKind,
    r2: RenderableKind,
    i2: u32,
)
    requires
        spec_bind_group_code(p1, r1, i1) == spec_bind_group_code(p2, r2, i2),
    ensures
        p1 == p2,
        r1 == r2,
        i1 == i2,
{
    let a = spec_pipeline_index(p1) * 4 + spec_renderable_index(r1);
    let b = spec_pipeline_index(p2) * 4 + spec_renderable_index(r2);
    let x1 = i1 as int;
    let x2 = i2 as int;
    assert(a * 0x1_0000_0000 + x1 == b * 0x1_0000_0000 + x2);
    assert(a == b && i1 == i2) by {
        if a < b {
            assert(a * 0x1_0000_0000 + x1 < (a + 1) * 0x1_0000_0000);
            assert((a + 1) * 0x1_0000_0000 <= b * 0x1_0000_0000);
        }
        if b < a {
            assert(b * 0x1_0000_0000 + x2 < (b + 1) * 0x1_0000_0000);
            assert((b + 1) * 0x1_0000_0000 <= a * 0x1_0000_0000);
        }
    }
}

/// The bounded, expiring store that backs [`SecondaryCache`].
#[verifier::external_type_specification]
#[verifier::external_body]
#[verifier::reject_recursive_types(K)]
#[verifier::reject_recursive_types(V)]
#[verifier::reject_recursive_types(S)]
pub struct ExMokaCache<K, V, S>(moka::sync::Cache<K, V, S>);

/// What the backing store holds right now.  Entries come and go underneath
/// the caller: the store evicts by capacity and by time-to-live, so nothing
/// here says when a key is present, only what value a present key has.
pub uninterp spec fn secondary_contents(c: moka::sync::Cache<u64, u64>) -> Map<u64, u64>;

/// The longest time-to-live the backing store accepts: 1000 years, a
/// year counted as 365 days, in milliseconds.  The builder refuses — by
/// panicking — any longer duration.
pub const MAX_TTL_MILLIS: u64 = 31536000000000;

/// Relies on `moka::sync::CacheBuilder`: a cache built with `max_capacity`
/// and `time_to_live` starts with no entries.  The builder panics when the
/// time-to-live exceeds 1000 years, so such durations are excluded here.
#[verifier::external_body]
fn moka_new(max_capacity: u64, ttl_millis: u64) -> (c: moka::sync::Cache<u64, u64>)
    requires
        ttl_millis <= MAX_TTL_MILLIS,
    ensures
        forall|k: u64| !secondary_contents(c).contains_key(k),
{
    moka::sync::Cache::builder()
        .max_capacity(max_capacity)
        .time_to_live(core::time::Duration::from_millis(ttl_millis))
        .build()
}

/// Relies on `moka::sync::Cache::get`: returns a clone of the value stored
/// under the key, or nothing if the key is absent or expired; reading never
/// adds or changes an entry.
#[verifier::external_body]
fn moka_get(c: &mut moka::sync::Cache<u64, u64>, key: u64) -> (r: Option<u64>)
    ensures
        r matches Some(v) ==> secondary_contents(*old(c)).contains_key(key)
            && secondary_contents(*old(c))[key] == v,
        forall|k: u64| #[trigger] secondary_contents(*final(c)).contains_key(k)
            ==> secondary_contents(*old(c)).contains_key(k)
                && secondary_contents(*final(c))[k] == secondary_contents(*old(c))[k],
{
    c.get(&key)
}

/// Relies on `moka::sync::Cache::insert`: stores the value under the key,
/// replacing any earlier one; other entries keep their values, though any
/// entry may be evicted at any time.
#[verifier::external_body]
fn moka_insert(c: &mut moka::sync::Cache<u64, u64>, key: u64, value: u64)
    ensures
        secondary_contents(*final(c)).contains_key(key)
            ==> secondary_contents(*final(c))[key] == value,
        forall|k: u64| k != key && #[trigger] secondary_contents(*final(c)).contains_key(k)
            ==> secondary_contents(*old(c)).contains_key(k)
                && secondary_contents(*final(c))[k] == secondary_contents(*old(c))[k],
{
    c.insert(key, value);
}

/// Relies on `moka::sync::Cache::run_pending_tasks`: applies pending
/// maintenance — entries may be evicted, never added or changed.
#[verifier::external_body]
fn moka_run_pending_tasks(c: &mut moka::sync::Cache<u64, u64>)
    ensures
        forall|k: u64| #[trigger] secondary_contents(*final(c)).contains_key(k)
            ==> secondary_contents(*old(c)).contains_key(k)
                && secondary_contents(*final(c))[k] == secondary_contents(*old(c))[k],
{
    c.run_pending_tasks();
}

/// Relies on `moka::sync::Cache::entry_count`: an estimate of the number of
/// entries, exact right after `run_pending_tasks`; reading never adds or
/// changes an entry.
#[verifier::external_body]
fn moka_entry_count(c: &mut moka::sync::Cache<u64, u64>) -> (n: u64)
    ensures
        forall|k: u64| #[trigger] secondary_contents(*final(c)).contains_key(k)
            ==> secondary_contents(*old(c)).contains_key(k)
                && secondary_contents(*final(c))[k] == secondary_contents(*old(c))[k],
{
    c.entry_count()
}

/// The secondary general-purpose cache: bounded entry count, fixed
/// time-to-live per entry.  A key may vanish at any moment, and the caller
/// must then rebuild — rebuilding is idempotent, so only latency is lost.
pub struct SecondaryCache {
    inner: moka::sync::Cache<u64, u64>,
}

impl SecondaryCache {
    /// The association the cache currently holds.
    pub closed spec fn contents(&self) -> Map<u64, u64> {
        secondary_contents(self.inner)
    }

    /// A cache that holds up to `max_capacity` entries, each for at most
    /// `ttl_millis` milliseconds.  The backing store caps the time-to-live
    /// at [`MAX_TTL_MILLIS`].
    pub fn new(max_capacity: u64, ttl_millis: u64) -> (c: SecondaryCache)
        requires
            ttl_millis <= MAX_TTL_MILLIS,
        ensures
            c.contents() == Map::<u64, u64>::empty(),
    {
        SecondaryCache { inner: moka_new(max_capacity, ttl_millis) }
    }

    /// Looks the key up.  A present key yields its stored value; an absent
    /// or expired key yields nothing, and the caller rebuilds.
    pub fn get(&mut self, key: u64) -> (r: Option<u64>)
        ensures
            r matches Some(v) ==> old(self).contents().contains_key(key)
                && old(self).contents()[key] == v,
            forall|k: u64| #[trigger] final(self).contents().contains_key(k)
                ==> old(self).contents().contains_key(k)
                    && final(self).contents()[k] == old(self).contents()[k],
    {
        moka_get(&mut self.inner, key)
    }

    /// Stores the value under the key, replacing any earlier one.
    pub fn insert(&mut self, key: u64, value: u64)
        ensures
            final(self).contents().contains_key(key) ==> final(self).contents()[key] == value,
            forall|k: u64| k != key && #[trigger] final(self).contents().contains_key(k)
                ==> old(self).contents().contains_key(k)
                    && final(self).contents()[k] == old(self).contents()[k],
    {
        moka_insert(&mut self.inner, key, value);
    }

    /// Applies pending evictions so that `entry_count` reports the actual
    /// number of entries.
    pub fn run_pending_tasks(&mut self)
        ensures
            forall|k: u64| #[trigger] final(self).contents().contains_key(k)
                ==> old(self).contents().contains_key(k)
                    && final(self).contents()[k] == old(self).contents()[k],
    {
        moka_run_pending_tasks(&mut self.inner);
    }

    /// An estimate of the number of entries; nothing is promised of the
    /// value.  The backing store documents the estimate as accurate right
    /// after `run_pending_tasks`, which the runtime tests lean on; stating
    /// that here would take maintenance state the trusted boundary cannot
    /// soundly carry.
    pub fn entry_count(&mut self) -> (n: u64)
        ensures
            forall|k: u64| #[trigger] final(self).contents().contains_key(k)
                ==> old(self).contents().contains_key(k)
                    && final(self).contents()[k] == old(self).contents()[k],
    {
        moka_entry_count(&mut self.inner)
    }
}


} // verus!

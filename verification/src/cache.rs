//! The primary resource cache: a type-keyed memoization store for GPU
//! object handles.
//!
//! For a given key the factory runs at most once for the cache's lifetime;
//! later lookups return the very value stored by the first one, so every
//! user of a key shares one underlying GPU object.  The cache also issues
//! the fresh handle ids under which the embedding stores the objects it
//! builds.

use vstd::prelude::*;

use crate::get_type::RenderableKind;
use crate::my_pipeline::{MyPipeline, PipelineKind};

verus! {

/// Where a texture's pixel data comes from: a file on disk, an embedded
/// byte blob named by a stable identity, or a directory holding the six
/// faces of a cube map.
#[derive(Debug)]
pub enum TextureSource {
    FilePath(String),
    Bytes(u64),
    CubeDirectory(String),
}

/// The mathematical shape of a texture source: the path or directory as a
/// character sequence, or the blob identity.
pub enum TextureSourceView {
    FilePath(Seq<char>),
    Bytes(u64),
    CubeDirectory(Seq<char>),
}

impl View for TextureSource {
    type V = TextureSourceView;

    open spec fn view(&self) -> TextureSourceView {
        match self {
            TextureSource::FilePath(p) => TextureSourceView::FilePath(p@),
            TextureSource::Bytes(id) => TextureSourceView::Bytes(*id),
            TextureSource::CubeDirectory(d) => TextureSourceView::CubeDirectory(d@),
        }
    }
}

/// Duplicates a texture source; the copy denotes the same source.
pub fn dup_texture_source(s: &TextureSource) -> (t: TextureSource)
    ensures
        t@ == s@,
{
    match s {
        TextureSource::FilePath(p) => TextureSource::FilePath(p.clone()),
        TextureSource::Bytes(id) => TextureSource::Bytes(*id),
        TextureSource::CubeDirectory(d) => TextureSource::CubeDirectory(d.clone()),
    }
}

/// A cache key: the object category combined with enough discriminating
/// data that distinct objects can never collide across categories.
#[derive(Debug)]
pub enum CacheKey {
    Pipeline(PipelineKind),
    BindGroup { pipeline_kind: PipelineKind, renderable_kind: RenderableKind, bind_group_index: u32 },
    VertexBuffer(RenderableKind),
    IndexBuffer(RenderableKind),
    Texture(TextureSource),
    Placeholder,
}

/// The mathematical shape of a cache key.
pub enum CacheKeyView {
    Pipeline(PipelineKind),
    BindGroup { pipeline_kind: PipelineKind, renderable_kind: RenderableKind, bind_group_index: u32 },
    VertexBuffer(RenderableKind),
    IndexBuffer(RenderableKind),
    Texture(TextureSourceView),
    Placeholder,
}

impl View for CacheKey {
    type V = CacheKeyView;

    open spec fn view(&self) -> CacheKeyView {
        match self {
            CacheKey::Pipeline(k) => CacheKeyView::Pipeline(*k),
            CacheKey::BindGroup { pipeline_kind, renderable_kind, bind_group_index } => {
                CacheKeyView::BindGroup {
                    pipeline_kind: *pipeline_kind,
                    renderable_kind: *renderable_kind,
                    bind_group_index: *bind_group_index,
                }
            },
            CacheKey::VertexBuffer(k) => CacheKeyView::VertexBuffer(*k),
            CacheKey::IndexBuffer(k) => CacheKeyView::IndexBuffer(*k),
            CacheKey::Texture(s) => CacheKeyView::Texture(s@),
            CacheKey::Placeholder => CacheKeyView::Placeholder,
        }
    }
}

/// Whether two texture sources denote the same source.
fn texture_source_eq(a: &TextureSource, b: &TextureSource) -> (r: bool)
    ensures
        r == (a@ == b@),
{
    match (a, b) {
        (TextureSource::FilePath(x), TextureSource::FilePath(y)) => x.eq(y),
        (TextureSource::Bytes(x), TextureSource::Bytes(y)) => *x == *y,
        (TextureSource::CubeDirectory(x), TextureSource::CubeDirectory(y)) => x.eq(y),
        _ => false,
    }
}

/// Whether two cache keys denote the same key.
fn key_eq(a: &CacheKey, b: &CacheKey) -> (r: bool)
    ensures
        r == (a@ == b@),
{
    match (a, b) {
        (CacheKey::Pipeline(x), CacheKey::Pipeline(y)) => *x == *y,
        (
            CacheKey::BindGroup { pipeline_kind: p1, renderable_kind: r1, bind_group_index: i1 },
            CacheKey::BindGroup { pipeline_kind: p2, renderable_kind: r2, bind_group_index: i2 },
        ) => *p1 == *p2 && *r1 == *r2 && *i1 == *i2,
        (CacheKey::VertexBuffer(x), CacheKey::VertexBuffer(y)) => *x == *y,
        (CacheKey::IndexBuffer(x), CacheKey::IndexBuffer(y)) => *x == *y,
        (CacheKey::Texture(x), CacheKey::Texture(y)) => texture_source_eq(x, y),
        (CacheKey::Placeholder, CacheKey::Placeholder) => true,
        _ => false,
    }
}

impl PartialEq for CacheKey {
    fn eq(&self, other: &Self) -> (r: bool) {
        let r = key_eq(self, other);
        proof {
            assert(r == (self@ == other@));
        }
        r
    }
}

impl vstd::std_specs::cmp::PartialEqSpecImpl for CacheKey {
    open spec fn obeys_eq_spec() -> bool {
        true
    }

    open spec fn eq_spec(&self, other: &Self) -> bool {
        self@ == other@
    }
}

/// A cached value: the handle of the shared GPU object of the key's
/// category.  Handles are plain ids; the embedding owns the objects.
#[derive(Clone, Copy, Debug, PartialEq, Eq, Structural)]
pub enum CacheValue {
    Pipeline(MyPipeline),
    BindGroup(u64),
    VertexBuffer(u64),
    IndexBuffer(u64),
    Texture(u64),
    Placeholder,
}

/// Whether a value has the category that its key announces.
pub open spec fn key_matches_value(k: CacheKeyView, v: CacheValue) -> bool {
    match k {
        CacheKeyView::Pipeline(_) => v is Pipeline,
        CacheKeyView::BindGroup { .. } => v is BindGroup,
        CacheKeyView::VertexBuffer(_) => v is VertexBuffer,
        CacheKeyView::IndexBuffer(_) => v is IndexBuffer,
        CacheKeyView::Texture(_) => v is Texture,
        CacheKeyView::Placeholder => v is Placeholder,
    }
}

/// Whether every handle id held by the value is below the bound.
pub open spec fn value_ids_below(v: CacheValue, bound: u64) -> bool {
    match v {
        CacheValue::Pipeline(p) => p.pipeline < bound,
        CacheValue::BindGroup(h) => h < bound,
        CacheValue::VertexBuffer(h) => h < bound,
        CacheValue::IndexBuffer(h) => h < bound,
        CacheValue::Texture(h) => h < bound,
        CacheValue::Placeholder => true,
    }
}

/// Whether every handle id held by the value is at most `id`.
pub open spec fn value_ids_at_most(v: CacheValue, id: u64) -> bool {
    match v {
        CacheValue::Pipeline(p) => p.pipeline <= id,
        CacheValue::BindGroup(h) => h <= id,
        CacheValue::VertexBuffer(h) => h <= id,
        CacheValue::IndexBuffer(h) => h <= id,
        CacheValue::Texture(h) => h <= id,
        CacheValue::Placeholder => true,
    }
}

/// Whether a freshly built value is admissible for the key it is stored
/// under: right category, and no handle id beyond the one it was issued.
pub open spec fn value_fits(v: CacheValue, key: CacheKeyView, id: u64) -> bool {
    &&& key_matches_value(key, v)
    &&& value_ids_at_most(v, id)
}

/// The association that a sequence of entries denotes; later entries would
/// win, though a well-formed cache never repeats a key.
pub open spec fn entries_map(s: Seq<(CacheKey, CacheValue)>) -> Map<CacheKeyView, CacheValue>
    decreases s.len(),
{
    if s.len() == 0 {
        Map::empty()
    } else {
        entries_map(s.drop_last()).insert(s.last().0@, s.last().1)
    }
}

proof fn lemma_entries_map_dom(s: Seq<(CacheKey, CacheValue)>)
    ensures
        forall|k: CacheKeyView| entries_map(s).contains_key(k)
            <==> exists|i: int| 0 <= i < s.len() && #[trigger] s[i].0@ == k,
    decreases s.len(),
{
    if s.len() > 0 {
        lemma_entries_map_dom(s.drop_last());
        assert forall|k: CacheKeyView| entries_map(s).contains_key(k)
            implies exists|i: int| 0 <= i < s.len() && #[trigger] s[i].0@ == k by {
            if k == s.last().0@ {
                assert(s[s.len() - 1].0@ == k);
            } else {
                assert(entries_map(s.drop_last()).contains_key(k));
                let i = choose|i: int|
                    0 <= i < s.drop_last().len() && #[trigger] s.drop_last()[i].0@ == k;
                assert(s.drop_last()[i] == s[i]);
                assert(s[i].0@ == k);
            }
        }
        assert forall|k: CacheKeyView|
            exists|i: int| 0 <= i < s.len() && #[trigger] s[i].0@ == k
            implies entries_map(s).contains_key(k) by {
            let i = choose|i: int| 0 <= i < s.len() && #[trigger] s[i].0@ == k;
            if i < s.len() - 1 {
                assert(s.drop_last()[i] == s[i]);
                assert(s.drop_last()[i].0@ == k);
                assert(entries_map(s.drop_last()).contains_key(k));
            }
        }
    }
}

proof fn lemma_entries_map_index(s: Seq<(CacheKey, CacheValue)>, i: int)
    requires
        0 <= i < s.len(),
        forall|j: int, l: int|
            0 <= j < l < s.len() ==> #[trigger] s[j].0@ != #[trigger] s[l].0@,
    ensures
        entries_map(s).contains_key(s[i].0@),
        entries_map(s)[s[i].0@] == s[i].1,
    decreases s.len(),
{
    lemma_entries_map_dom(s);
    if i == s.len() - 1 {
    } else {
        lemma_entries_map_index(s.drop_last(), i);
        assert(s.drop_last()[i] == s[i]);
        assert(s[i].0@ != s.last().0@);
    }
}

/// The primary cache.  `entries` is the association itself; `next_id` is
/// the lowest handle id never issued, so freshly issued handles can never
/// collide with a handle already stored.
pub struct ResourceCache {
    entries: Vec<(CacheKey, CacheValue)>,
    next_id: u64,
}

impl View for ResourceCache {
    type V = Map<CacheKeyView, CacheValue>;

    closed spec fn view(&self) -> Map<CacheKeyView, CacheValue> {
        entries_map(self.entries@)
    }
}

impl ResourceCache {
    /// The lowest handle id this cache has never issued.
    pub closed spec fn next_handle(&self) -> u64 {
        self.next_id
    }

    /// Well-formedness: no key occurs twice, every value has its key's
    /// category, and every stored handle id has already been issued.
    pub closed spec fn wf(&self) -> bool {
        &&& forall|j: int, l: int|
            0 <= j < l < self.entries@.len()
                ==> #[trigger] self.entries@[j].0@ != #[trigger] self.entries@[l].0@
        &&& forall|i: int|
            0 <= i < self.entries@.len()
                ==> key_matches_value(#[trigger] self.entries@[i].0@, self.entries@[i].1)
        &&& forall|i: int|
            0 <= i < self.entries@.len()
                ==> value_ids_below(#[trigger] self.entries@[i].1, self.next_id)
    }

    /// Whether `n` more handle ids can still be issued.
    pub open spec fn can_alloc(&self, n: nat) -> bool {
        self.next_handle() + n <= u64::MAX
    }

    /// A well-formed cache maps every key of its domain to a value of the
    /// key's category, holding only issued handle ids.
    pub proof fn lemma_wf_values(&self)
        requires
            self.wf(),
        ensures
            forall|k: CacheKeyView| #[trigger] self@.contains_key(k)
                ==> key_matches_value(k, self@[k]) && value_ids_below(self@[k], self.next_handle()),
    {
        lemma_entries_map_dom(self.entries@);
        assert forall|k: CacheKeyView| #[trigger] self@.contains_key(k)
            implies key_matches_value(k, self@[k])
                && value_ids_below(self@[k], self.next_handle()) by {
            let i = choose|i: int| 0 <= i < self.entries@.len() && #[trigger] self.entries@[i].0@ == k;
            lemma_entries_map_index(self.entries@, i);
        }
    }

    /// An empty cache.
    pub fn new() -> (c: ResourceCache)
        ensures
            c@ == Map::<CacheKeyView, CacheValue>::empty(),
            c.wf(),
            c.next_handle() == 0,
    {
        ResourceCache { entries: Vec::new(), next_id: 0 }
    }

    /// Issues a handle id that no cached value holds and that will never be
    /// issued again.  The association itself is untouched.
    pub fn alloc_id(&mut self) -> (id: u64)
        requires
            old(self).wf(),
            old(self).can_alloc(1),
        ensures
            final(self).wf(),
            final(self)@ == old(self)@,
            id == old(self).next_handle(),
            final(self).next_handle() == old(self).next_handle() + 1,
    {
        let id = self.next_id;
        self.next_id = self.next_id + 1;
        proof {
            assert(final(self).entries@ == old(self).entries@);
        }
        id
    }

    fn find(&self, key: &CacheKey) -> (r: Option<usize>)
        requires
            self.wf(),
        ensures
            match r {
                Some(i) => i < self.entries@.len() && self.entries@[i as int].0@ == key@,
                None => !self@.contains_key(key@),
            },
    {
        let n = self.entries.len();
        let mut i: usize = 0;
        while i < n
            invariant
                n == self.entries@.len(),
                i <= n,
                forall|j: int| 0 <= j < i ==> #[trigger] self.entries@[j].0@ != key@,
            decreases n - i,
        {
            if self.entries[i].0 == *key {
                return Some(i);
            }
            i = i + 1;
        }
        proof {
            lemma_entries_map_dom(self.entries@);
        }
        None
    }

    /// Looks a key up without creating anything.
    pub fn lookup(&self, key: &CacheKey) -> (r: Option<CacheValue>)
        requires
            self.wf(),
        ensures
            match r {
                Some(v) => self@.contains_key(key@) && self@[key@] == v,
                None => !self@.contains_key(key@),
            },
    {
        match self.find(key) {
            Some(i) => {
                proof {
                    lemma_entries_map_index(self.entries@, i as int);
                }
                Some(self.entries[i].1)
            },
            None => None,
        }
    }

    /// Returns the value cached under `key`, running the factory only if
    /// the key is absent.  On a hit the cache is untouched and the caller
    /// gets the very value the first construction stored; on a miss the
    /// factory is handed a fresh handle id and its result is stored.
    pub fn get_or_create<F: FnOnce(u64) -> CacheValue>(&mut self, key: CacheKey, f: F) -> (v:
        CacheValue)
        requires
            old(self).wf(),
            old(self).can_alloc(1),
            forall|id: u64| call_requires(f, (id,)),
            forall|id: u64, v: CacheValue|
                #[trigger] call_ensures(f, (id,), v) ==> value_fits(v, key@, id),
        ensures
            final(self).wf(),
            final(self)@.contains_key(key@) && final(self)@[key@] == v,
            old(self)@.contains_key(key@) ==> {
                &&& v == old(self)@[key@]
                &&& *final(self) == *old(self)
            },
            !old(self)@.contains_key(key@) ==> {
                &&& call_ensures(f, (old(self).next_handle(),), v)
                &&& final(self)@ == old(self)@.insert(key@, v)
                &&& final(self).next_handle() == old(self).next_handle() + 1
            },
            forall|k: CacheKeyView| #[trigger] old(self)@.contains_key(k)
                ==> final(self)@.contains_key(k) && final(self)@[k] == old(self)@[k],
            old(self).next_handle() <= final(self).next_handle(),
    {
        match self.find(&key) {
            Some(i) => {
                proof {
                    lemma_entries_map_index(self.entries@, i as int);
                }
                self.entries[i].1
            },
            None => {
                let id = self.next_id;
                let v = f(id);
                self.next_id = self.next_id + 1;
                proof {
                    lemma_entries_map_dom(self.entries@);
                }
                self.entries.push((key, v));
                proof {
                    let s = old(self).entries@;
                    let t = final(self).entries@;
                    assert(t == s.push((key, v)));
                    assert(t.drop_last() =~= s);
                    assert(final(self)@ == old(self)@.insert(key@, v));
                    assert forall|j: int, l: int| 0 <= j < l < t.len()
                        implies #[trigger] t[j].0@ != #[trigger] t[l].0@ by {
                        if l == t.len() - 1 {
                            assert(t[j].0@ == s[j].0@);
                        }
                    }
                }
                v
            },
        }
    }

    /// Whether `n` more handle ids can still be issued — the executable
    /// face of [`Self::can_alloc`], for callers outside verified code.
    pub fn has_room(&self, n: u64) -> (r: bool)
        ensures
            r == self.can_alloc(n as nat),
    {
        n <= u64::MAX - self.next_id
    }

    /// The number of distinct keys cached.
    pub fn len(&self) -> (n: usize)
        requires
            self.wf(),
        ensures
            n == self@.dom().len(),
    {
        proof {
            self.lemma_len();
        }
        self.entries.len()
    }

    proof fn lemma_len(&self)
        requires
            self.wf(),
        ensures
            self@.dom().len() == self.entries@.len(),
    {
        lemma_card(self.entries@);
    }
}

proof fn lemma_card(s: Seq<(CacheKey, CacheValue)>)
    requires
        forall|j: int, l: int| 0 <= j < l < s.len() ==> #[trigger] s[j].0@ != #[trigger] s[l].0@,
    ensures
        entries_map(s).dom().finite(),
        entries_map(s).dom().len() == s.len(),
    decreases s.len(),
{
    if s.len() > 0 {
        lemma_card(s.drop_last());
        lemma_entries_map_dom(s.drop_last());
        assert(forall|j: int| 0 <= j < s.len() - 1 ==> #[trigger] s.drop_last()[j].0@ == s[j].0@);
        assert(!entries_map(s.drop_last()).contains_key(s.last().0@));
        vstd::set::axiom_set_insert_len(entries_map(s.drop_last()).dom(), s.last().0@);
    }
}

} // verus!

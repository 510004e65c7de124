//! The glyph atlas cache: which atlas pages have a texture on the device, and
//! which of them have to be uploaded again.
//!
//! The cache hands out slots. A slot is the place of a page's texture in the
//! caller's table of device textures; once a page has a slot it keeps it.

use vstd::prelude::*;

verus! {

/// What names one atlas page: the font, the pixel height it was rasterised
/// for, and the page's index within the atlas of that height.
///
/// The height is the bit pattern of the toolkit's 32-bit float, which is how
/// the toolkit itself tells heights apart.
#[derive(Clone, Copy, Debug, PartialEq, Eq, Structural)]
pub struct PageKey {
    pub font: u64,
    pub height: u32,
    pub page: usize,
}

/// One page known to the cache.
#[derive(Clone, Copy, Debug, PartialEq, Eq, Structural)]
pub struct CacheEntry {
    pub key: PageKey,
    /// Set when the texture in the page's slot no longer shows the page.
    pub stale: bool,
}

/// The texture a draw call samples.
#[derive(Clone, Copy, Debug, PartialEq, Eq, Structural)]
pub enum TextureSlot {
    /// The shared one-pixel opaque white texture.
    Fallback,
    /// The texture in the given slot of the atlas cache.
    Page(usize),
}

/// What a request for a page comes to.
#[derive(Clone, Copy, Debug, PartialEq, Eq, Structural)]
pub enum Resolution {
    /// The page cannot be had: draw with the fallback texture.
    Fallback,
    /// The slot's texture shows the page.
    Cached(usize),
    /// The page's pixels have to be uploaded into the slot first.
    Upload(usize),
}

impl Resolution {
    /// The texture to bind once the request has been carried out.
    pub open spec fn texture_spec(self) -> TextureSlot {
        match self {
            Resolution::Fallback => TextureSlot::Fallback,
            Resolution::Cached(slot) => TextureSlot::Page(slot),
            Resolution::Upload(slot) => TextureSlot::Page(slot),
        }
    }

    /// The number of uploads the request causes.
    pub open spec fn uploads(self) -> nat {
        if self is Upload {
            1
        } else {
            0
        }
    }

    /// The texture to bind once the request has been carried out.
    pub fn texture(&self) -> (t: TextureSlot)
        ensures
            t == self.texture_spec(),
    {
        match self {
            Resolution::Fallback => TextureSlot::Fallback,
            Resolution::Cached(slot) => TextureSlot::Page(*slot),
            Resolution::Upload(slot) => TextureSlot::Page(*slot),
        }
    }
}

/// No page has two slots.
pub open spec fn distinct_keys(entries: Seq<CacheEntry>) -> bool {
    forall|i: int, j: int|
        0 <= i < j < entries.len() ==> (#[trigger] entries[i]).key != (#[trigger] entries[j]).key
}

/// Whether the page has a slot.
pub open spec fn has_key(entries: Seq<CacheEntry>, key: PageKey) -> bool {
    exists|i: int| 0 <= i < entries.len() && (#[trigger] entries[i]).key == key
}

/// Whether `slot` is the first place in the cache that holds the page.
pub open spec fn is_slot_of(entries: Seq<CacheEntry>, key: PageKey, slot: int) -> bool {
    &&& 0 <= slot < entries.len()
    &&& entries[slot].key == key
    &&& forall|j: int| 0 <= j < slot ==> (#[trigger] entries[j]).key != key
}

/// The page's slot, if it has one.
pub open spec fn slot_of(entries: Seq<CacheEntry>, key: PageKey) -> Option<int> {
    if has_key(entries, key) {
        Some(choose|slot: int| is_slot_of(entries, key, slot))
    } else {
        None
    }
}

/// The cache and the answer after a request for `key`, where `available` says
/// whether the font source can provide the page's pixels.
pub open spec fn resolve_spec(entries: Seq<CacheEntry>, key: PageKey, available: bool) -> (
    Seq<CacheEntry>,
    Resolution,
) {
    if !available {
        (entries, Resolution::Fallback)
    } else {
        match slot_of(entries, key) {
            Some(slot) => if entries[slot].stale {
                (
                    entries.update(slot, CacheEntry { key, stale: false }),
                    Resolution::Upload(slot as usize),
                )
            } else {
                (entries, Resolution::Cached(slot as usize))
            },
            None => (
                entries.push(CacheEntry { key, stale: false }),
                Resolution::Upload(entries.len() as usize),
            ),
        }
    }
}

/// The cache after the font system has changed the page `key`.
pub open spec fn mark_stale_spec(entries: Seq<CacheEntry>, key: PageKey) -> Seq<CacheEntry> {
    match slot_of(entries, key) {
        Some(slot) => entries.update(slot, CacheEntry { key, stale: true }),
        None => entries,
    }
}

/// The cache after the upload into `slot` has failed.
pub open spec fn upload_failed_spec(entries: Seq<CacheEntry>, slot: int) -> Seq<CacheEntry> {
    if 0 <= slot < entries.len() {
        entries.update(slot, CacheEntry { key: entries[slot].key, stale: true })
    } else {
        entries
    }
}

/// The texture that stands for `texture` given what is on the device: a slot
/// whose texture shows its page stands for itself, anything else for the
/// fallback texture.
pub open spec fn bind_target_spec(entries: Seq<CacheEntry>, texture: TextureSlot) -> TextureSlot {
    match texture {
        TextureSlot::Page(slot) => if slot < entries.len() && !entries[slot as int].stale {
            texture
        } else {
            TextureSlot::Fallback
        },
        TextureSlot::Fallback => TextureSlot::Fallback,
    }
}

/// The first place where a key is found is its slot.
pub proof fn lemma_slot_of_found(entries: Seq<CacheEntry>, key: PageKey, slot: int)
    requires
        is_slot_of(entries, key, slot),
    ensures
        slot_of(entries, key) == Some(slot),
{
    assert(has_key(entries, key));
    let found = choose|found: int| is_slot_of(entries, key, found);
    assert(is_slot_of(entries, key, found));
    if found < slot {
        assert(entries[found].key != key);
    } else if slot < found {
        assert(entries[slot].key != key);
    }
}

/// A page that has a slot has a first place in the cache.
pub proof fn lemma_slot_of_known(entries: Seq<CacheEntry>, key: PageKey)
    requires
        has_key(entries, key),
    ensures
        slot_of(entries, key) is Some,
        is_slot_of(entries, key, slot_of(entries, key)->Some_0),
{
    let i = choose|i: int| 0 <= i < entries.len() && (#[trigger] entries[i]).key == key;
    lemma_first_place(entries, key, i);
}

proof fn lemma_first_place(entries: Seq<CacheEntry>, key: PageKey, i: int)
    requires
        0 <= i < entries.len(),
        entries[i].key == key,
    ensures
        exists|slot: int| is_slot_of(entries, key, slot),
    decreases i,
{
    if exists|j: int| 0 <= j < i && (#[trigger] entries[j]).key == key {
        let j = choose|j: int| 0 <= j < i && (#[trigger] entries[j]).key == key;
        lemma_first_place(entries, key, j);
    } else {
        assert(is_slot_of(entries, key, i));
    }
}

/// A request never shortens the cache and never moves a page to another slot;
/// entries of other pages stay as they are, and a cache without double
/// entries stays without.
pub proof fn lemma_resolve_keeps_slots(entries: Seq<CacheEntry>, key: PageKey, available: bool)
    ensures
        resolve_spec(entries, key, available).0.len() >= entries.len(),
        forall|i: int|
            0 <= i < entries.len() ==> (#[trigger] resolve_spec(entries, key, available).0[i]).key
                == entries[i].key,
        forall|i: int|
            0 <= i < entries.len() && entries[i].key != key ==> #[trigger] resolve_spec(
                entries,
                key,
                available,
            ).0[i] == entries[i],
        distinct_keys(entries) ==> distinct_keys(resolve_spec(entries, key, available).0),
{
    let after = resolve_spec(entries, key, available).0;
    if available {
        if has_key(entries, key) {
            lemma_slot_of_known(entries, key);
            let slot = slot_of(entries, key)->Some_0;
            assert(after.len() == entries.len());
            assert forall|i: int| 0 <= i < entries.len() implies (#[trigger] after[i]).key
                == entries[i].key by {}
            if distinct_keys(entries) {
                assert forall|i: int, j: int| 0 <= i < j < after.len() implies (
                #[trigger] after[i]).key != (#[trigger] after[j]).key by {
                    assert(after[i].key == entries[i].key);
                    assert(after[j].key == entries[j].key);
                }
            }
        } else {
            assert forall|i: int| 0 <= i < entries.len() implies (#[trigger] after[i]).key
                == entries[i].key by {
                assert(after[i] == entries[i]);
            }
            if distinct_keys(entries) {
                assert forall|i: int, j: int| 0 <= i < j < after.len() implies (
                #[trigger] after[i]).key != (#[trigger] after[j]).key by {
                    assert(after[i] == entries[i]);
                    if j < entries.len() {
                        assert(after[j] == entries[j]);
                    }
                }
            }
        }
    }
}

/// Whether the page has a texture that shows it.
pub open spec fn is_fresh(entries: Seq<CacheEntry>, key: PageKey) -> bool {
    slot_of(entries, key) matches Some(slot) && !entries[slot].stale
}

/// Asking twice for a page, with no change of the page in between, uploads it
/// once where it had no fresh texture and not at all where it had one: the
/// second request finds the texture that the first one used or left.
pub proof fn lemma_second_request_is_cached(entries: Seq<CacheEntry>, key: PageKey)
    ensures
        ({
            let (first_cache, first) = resolve_spec(entries, key, true);
            let (second_cache, second) = resolve_spec(first_cache, key, true);
            &&& second is Cached
            &&& second.texture_spec() == first.texture_spec()
            &&& second_cache == first_cache
            &&& first is Upload <==> !is_fresh(entries, key)
            &&& first.uploads() + second.uploads() == if is_fresh(entries, key) {
                0nat
            } else {
                1nat
            }
        }),
{
    let (first_cache, first) = resolve_spec(entries, key, true);
    if has_key(entries, key) {
        lemma_slot_of_known(entries, key);
        let slot = slot_of(entries, key)->Some_0;
        assert(is_slot_of(first_cache, key, slot)) by {
            assert forall|j: int| 0 <= j < slot implies (#[trigger] first_cache[j]).key != key by {
                assert(first_cache[j] == entries[j]);
            }
        }
        lemma_slot_of_found(first_cache, key, slot);
    } else {
        let slot = entries.len() as int;
        assert(is_slot_of(first_cache, key, slot)) by {
            assert forall|j: int| 0 <= j < slot implies (#[trigger] first_cache[j]).key != key by {
                assert(first_cache[j] == entries[j]);
            }
        }
        lemma_slot_of_found(first_cache, key, slot);
    }
}

/// A request for a page whose texture is fresh changes nothing and finds the
/// texture cached.
pub proof fn lemma_fresh_page_is_cached(entries: Seq<CacheEntry>, key: PageKey)
    requires
        is_fresh(entries, key),
    ensures
        resolve_spec(entries, key, true) == (
            entries,
            Resolution::Cached(slot_of(entries, key)->Some_0 as usize),
        ),
{
}

/// After a request for a page that the font source can provide, the page has
/// a fresh texture.
pub proof fn lemma_request_leaves_page_fresh(entries: Seq<CacheEntry>, key: PageKey)
    ensures
        is_fresh(resolve_spec(entries, key, true).0, key),
{
    lemma_second_request_is_cached(entries, key);
    let first_cache = resolve_spec(entries, key, true).0;
    if !is_fresh(first_cache, key) {
        lemma_second_request_is_cached(first_cache, key);
    }
}

/// A request leaves the fresh textures of all pages fresh.
pub proof fn lemma_request_keeps_pages_fresh(
    entries: Seq<CacheEntry>,
    key: PageKey,
    available: bool,
    other: PageKey,
)
    requires
        is_fresh(entries, other),
    ensures
        is_fresh(resolve_spec(entries, key, available).0, other),
{
    let after = resolve_spec(entries, key, available).0;
    assert(has_key(entries, other));
    lemma_slot_of_known(entries, other);
    let slot = slot_of(entries, other)->Some_0;
    lemma_resolve_keeps_slots(entries, key, available);
    if available && has_key(entries, key) {
        lemma_slot_of_known(entries, key);
    }
    assert(is_slot_of(after, other, slot)) by {
        assert(after[slot].key == entries[slot].key);
        assert forall|j: int| 0 <= j < slot implies (#[trigger] after[j]).key != other by {
            assert(after[j].key == entries[j].key);
        }
    }
    lemma_slot_of_found(after, other, slot);
}

/// After the font system has changed a page that has a texture, the next
/// request uploads it into the same slot, once: the request after that finds
/// it cached.
pub proof fn lemma_stale_page_is_uploaded_once(entries: Seq<CacheEntry>, key: PageKey)
    requires
        has_key(entries, key),
    ensures
        ({
            let slot = slot_of(entries, key)->Some_0;
            let marked = mark_stale_spec(entries, key);
            let (first_cache, first) = resolve_spec(marked, key, true);
            let (second_cache, second) = resolve_spec(first_cache, key, true);
            &&& first == Resolution::Upload(slot as usize)
            &&& second == Resolution::Cached(slot as usize)
            &&& first.uploads() + second.uploads() == 1
        }),
{
    lemma_slot_of_known(entries, key);
    let slot = slot_of(entries, key)->Some_0;
    let marked = mark_stale_spec(entries, key);
    assert(is_slot_of(marked, key, slot)) by {
        assert forall|j: int| 0 <= j < slot implies (#[trigger] marked[j]).key != key by {
            assert(marked[j] == entries[j]);
        }
    }
    lemma_slot_of_found(marked, key, slot);
    let (first_cache, first) = resolve_spec(marked, key, true);
    assert(is_slot_of(first_cache, key, slot)) by {
        assert forall|j: int| 0 <= j < slot implies (#[trigger] first_cache[j]).key != key by {
            assert(first_cache[j] == marked[j]);
        }
    }
    lemma_slot_of_found(first_cache, key, slot);
}

/// A page that the font source cannot provide resolves to the fallback
/// texture itself, whatever the cache holds, and the cache stays as it is.
pub proof fn lemma_missing_page_is_fallback(entries: Seq<CacheEntry>, key: PageKey)
    ensures
        resolve_spec(entries, key, false).1.texture_spec() == TextureSlot::Fallback,
        resolve_spec(entries, key, false).1.uploads() == 0,
        resolve_spec(entries, key, false).0 == entries,
{
}

/// The atlas cache.
pub struct AtlasCache {
    entries: Vec<CacheEntry>,
}

impl View for AtlasCache {
    type V = Seq<CacheEntry>;

    closed spec fn view(&self) -> Seq<CacheEntry> {
        self.entries@
    }
}

impl AtlasCache {
    /// A cache that knows no page.
    pub fn new() -> (cache: Self)
        ensures
            cache@ == Seq::<CacheEntry>::empty(),
    {
        AtlasCache { entries: Vec::new() }
    }

    /// The number of slots handed out so far.
    pub fn len(&self) -> (n: usize)
        ensures
            n == self@.len(),
    {
        self.entries.len()
    }

    /// The entry in `slot`.
    pub fn entry(&self, slot: usize) -> (e: Option<CacheEntry>)
        ensures
            e == if slot < self@.len() {
                Some(self@[slot as int])
            } else {
                None
            },
    {
        if slot < self.entries.len() {
            Some(self.entries[slot])
        } else {
            None
        }
    }

    /// The slot of the page `key`, if it has one.
    pub fn lookup(&self, key: &PageKey) -> (r: Option<usize>)
        ensures
            match r {
                Some(slot) => slot_of(self@, *key) == Some(slot as int) && slot < self@.len(),
                None => slot_of(self@, *key) is None,
            },
    {
        let mut i: usize = 0;
        while i < self.entries.len()
            invariant
                i <= self.entries@.len(),
                forall|j: int| 0 <= j < i ==> (#[trigger] self.entries@[j]).key != *key,
            decreases self.entries.len() - i,
        {
            if self.entries[i].key == *key {
                proof {
                    lemma_slot_of_found(self.entries@, *key, i as int);
                }
                return Some(i);
            }
            i = i + 1;
        }
        None
    }

    /// Answers a request for the page `key`.
    ///
    /// A page that the font source cannot provide gets the fallback texture.
    /// Otherwise a page without a slot gets the next free one, and a page
    /// whose texture is missing or stale is to be uploaded; the cache counts
    /// the upload as done.
    pub fn resolve(&mut self, key: PageKey, available: bool) -> (r: Resolution)
        ensures
            (final(self)@, r) == resolve_spec(old(self)@, key, available),
    {
        if !available {
            return Resolution::Fallback;
        }
        match self.lookup(&key) {
            Some(slot) => {
                if self.entries[slot].stale {
                    self.entries.set(slot, CacheEntry { key, stale: false });
                    Resolution::Upload(slot)
                } else {
                    Resolution::Cached(slot)
                }
            },
            None => {
                let slot = self.entries.len();
                self.entries.push(CacheEntry { key, stale: false });
                Resolution::Upload(slot)
            },
        }
    }

    /// Records that the font system has changed the page `key`: its texture,
    /// if it has one, is uploaded again at the next request. Says whether the
    /// page has a slot.
    pub fn mark_stale(&mut self, key: &PageKey) -> (known: bool)
        ensures
            final(self)@ == mark_stale_spec(old(self)@, *key),
            known == has_key(old(self)@, *key),
    {
        match self.lookup(key) {
            Some(slot) => {
                self.entries.set(slot, CacheEntry { key: *key, stale: true });
                true
            },
            None => false,
        }
    }

    /// Records that the upload into `slot` has failed, and gives the texture
    /// to draw with in its place: the fallback. The page is uploaded again at
    /// its next request.
    pub fn upload_failed(&mut self, slot: usize) -> (t: TextureSlot)
        ensures
            final(self)@ == upload_failed_spec(old(self)@, slot as int),
            t == TextureSlot::Fallback,
    {
        if slot < self.entries.len() {
            let key = self.entries[slot].key;
            self.entries.set(slot, CacheEntry { key, stale: true });
        }
        TextureSlot::Fallback
    }

    /// The texture to bind for `texture` as things stand: the slot itself
    /// while its texture shows its page, the fallback otherwise.
    pub fn bind_target(&self, texture: TextureSlot) -> (t: TextureSlot)
        ensures
            t == bind_target_spec(self@, texture),
    {
        match texture {
            TextureSlot::Page(slot) => {
                if slot < self.entries.len() && !self.entries[slot].stale {
                    texture
                } else {
                    TextureSlot::Fallback
                }
            },
            TextureSlot::Fallback => TextureSlot::Fallback,
        }
    }
}

} // verus!

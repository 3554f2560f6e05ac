//! The thumbnail cache: encoded thumbnails by clip path in an `lru` cache
//! of bounded length, with a running count of the bytes they hold that
//! empties the cache when a new thumbnail would pass the byte budget.

use vstd::prelude::*;
use crate::thumbnail::{CachedThumbnail, CACHE_MAX_BYTES, CACHE_MAX_ENTRIES};

verus! {

/// `lru::LruCache`, used through the wrappers below.
#[verifier::external_type_specification]
#[verifier::external_body]
#[verifier::reject_recursive_types(K)]
#[verifier::reject_recursive_types(V)]
#[verifier::reject_recursive_types(S)]
pub struct ExLruCache<K, V, S>(lru::LruCache<K, V, S>);

/// The hasher `lru` builds its map with.
#[verifier::external_type_specification]
#[verifier::external_body]
pub struct ExLruHasher(lru::DefaultHasher);

/// What a thumbnail LRU holds: (path, thumbnail) pairs, the most recently
/// used first.
pub uninterp spec fn lru_entries(c: lru::LruCache<String, CachedThumbnail>) -> Seq<(Seq<char>, CachedThumbnail)>;

/// The number of entries the LRU was made to hold.
pub uninterp spec fn lru_capacity(c: lru::LruCache<String, CachedThumbnail>) -> nat;

/// Position of the entry with key `k`, the first one when several have it.
pub open spec fn key_index(e: Seq<(Seq<char>, CachedThumbnail)>, k: Seq<char>) -> Option<int> {
    if exists|i: int| 0 <= i < e.len() && (#[trigger] e[i]).0 == k {
        Some(choose|i: int| 0 <= i < e.len() && (#[trigger] e[i]).0 == k && forall|j: int| 0 <= j < i ==> e[j].0 != k)
    } else {
        None
    }
}

/// `e` with its entry `i` moved to the front.
pub open spec fn to_front(e: Seq<(Seq<char>, CachedThumbnail)>, i: int) -> Seq<(Seq<char>, CachedThumbnail)> {
    seq![e[i]] + e.remove(i)
}

/// `LruCache::new`: an empty cache holding at most `cap` entries.
#[verifier::external_body]
fn lru_new(cap: usize) -> (r: lru::LruCache<String, CachedThumbnail>)
    requires
        cap > 0,
    ensures
        lru_entries(r) == Seq::<(Seq<char>, CachedThumbnail)>::empty(),
        lru_capacity(r) == cap,
{
    lru::LruCache::new(std::num::NonZeroUsize::new(cap).unwrap())
}

/// `LruCache::get`: the value of the key, which becomes the most recently
/// used; the cache is unchanged when the key is absent.
#[verifier::external_body]
fn lru_get<'a>(c: &'a mut lru::LruCache<String, CachedThumbnail>, k: &str) -> (r: Option<&'a CachedThumbnail>)
    ensures
        lru_capacity(*final(c)) == lru_capacity(*old(c)),
        key_index(lru_entries(*old(c)), k@) matches Some(i) ==> {
            &&& lru_entries(*final(c)) == to_front(lru_entries(*old(c)), i)
            &&& r matches Some(v) && *v == lru_entries(*old(c))[i].1
        },
        key_index(lru_entries(*old(c)), k@) is None ==> lru_entries(*final(c)) == lru_entries(*old(c))
            && r is None,
{
    c.get(k)
}

/// `LruCache::put`: the pair becomes the most recently used. A present key
/// has its value replaced, and the old value is returned; otherwise, in a
/// full cache, the least recently used entry is dropped to make room.
#[verifier::external_body]
fn lru_put(c: &mut lru::LruCache<String, CachedThumbnail>, k: String, v: CachedThumbnail) -> (r: Option<CachedThumbnail>)
    ensures
        lru_capacity(*final(c)) == lru_capacity(*old(c)),
        key_index(lru_entries(*old(c)), k@) matches Some(i) ==> {
            &&& lru_entries(*final(c)) == seq![(k@, v)] + lru_entries(*old(c)).remove(i)
            &&& r == Some(lru_entries(*old(c))[i].1)
        },
        key_index(lru_entries(*old(c)), k@) is None ==> {
            &&& r is None
            &&& lru_entries(*final(c)) == seq![(k@, v)] + if lru_entries(*old(c)).len() == lru_capacity(*old(c)) {
                lru_entries(*old(c)).drop_last()
            } else {
                lru_entries(*old(c))
            }
        },
{
    c.put(k, v)
}

/// `LruCache::pop_lru`: removes and returns the least recently used entry.
#[verifier::external_body]
fn lru_pop_lru(c: &mut lru::LruCache<String, CachedThumbnail>) -> (r: Option<(String, CachedThumbnail)>)
    ensures
        lru_capacity(*final(c)) == lru_capacity(*old(c)),
        lru_entries(*old(c)).len() == 0 ==> r is None && lru_entries(*final(c)) == lru_entries(*old(c)),
        lru_entries(*old(c)).len() > 0 ==> {
            &&& lru_entries(*final(c)) == lru_entries(*old(c)).drop_last()
            &&& r matches Some(p) && p.0@ == lru_entries(*old(c)).last().0 && p.1 == lru_entries(
                *old(c),
            ).last().1
        },
{
    c.pop_lru()
}

/// `LruCache::clear`: removes every entry.
#[verifier::external_body]
fn lru_clear(c: &mut lru::LruCache<String, CachedThumbnail>)
    ensures
        lru_capacity(*final(c)) == lru_capacity(*old(c)),
        lru_entries(*final(c)) == Seq::<(Seq<char>, CachedThumbnail)>::empty(),
{
    c.clear()
}

/// `LruCache::len`: the number of entries.
#[verifier::external_body]
fn lru_len(c: &lru::LruCache<String, CachedThumbnail>) -> (r: usize)
    ensures
        r == lru_entries(*c).len(),
{
    c.len()
}

/// Bytes of encoded image held by the entries.
pub open spec fn entries_bytes(e: Seq<(Seq<char>, CachedThumbnail)>) -> nat
    decreases e.len(),
{
    if e.len() == 0 {
        0
    } else {
        entries_bytes(e.drop_last()) + e.last().1.sixel@.len()
    }
}

/// A copy of a thumbnail.
fn copy_thumbnail(t: &CachedThumbnail) -> (r: CachedThumbnail)
    ensures
        r.sixel@ == t.sixel@,
        r.width == t.width,
        r.height == t.height,
        r.encode_time == t.encode_time,
{
    CachedThumbnail { sixel: t.sixel.clone(), width: t.width, height: t.height, encode_time: t.encode_time }
}

/// Encoded thumbnails by clip path. `current_bytes` counts the bytes added
/// and not evicted or replaced since the cache was made; entries the LRU
/// drops on its own to stay within its length are not subtracted, so the
/// count never falls below what the entries hold.
pub struct ThumbnailCache {
    inner: lru::LruCache<String, CachedThumbnail>,
    current_bytes: usize,
    pub placeholder: Vec<u8>,
}

impl ThumbnailCache {
    /// The entries, most recently used first.
    pub closed spec fn entries(self) -> Seq<(Seq<char>, CachedThumbnail)> {
        lru_entries(self.inner)
    }

    /// The running byte count.
    pub closed spec fn counted_bytes(self) -> nat {
        self.current_bytes as nat
    }

    /// The placeholder image.
    pub closed spec fn placeholder_view(self) -> Seq<u8> {
        self.placeholder@
    }

    pub closed spec fn wf(self) -> bool {
        &&& lru_capacity(self.inner) == CACHE_MAX_ENTRIES
        &&& self.entries().len() <= CACHE_MAX_ENTRIES
        &&& entries_bytes(self.entries()) <= self.current_bytes
    }

    /// An empty cache with the given placeholder image.
    pub fn with_placeholder(placeholder: Vec<u8>) -> (r: Self)
        ensures
            r.wf(),
            r.entries().len() == 0,
            r.counted_bytes() == 0,
            r.placeholder_view() == placeholder@,
    {
        ThumbnailCache { inner: lru_new(CACHE_MAX_ENTRIES), current_bytes: 0, placeholder }
    }

    /// A copy of the thumbnail of `path`, which becomes the most recently
    /// used.
    pub fn get(&mut self, path: &str) -> (r: Option<CachedThumbnail>)
        requires
            old(self).wf(),
        ensures
            final(self).wf(),
            final(self).counted_bytes() == old(self).counted_bytes(),
            final(self).placeholder_view() == old(self).placeholder_view(),
            key_index(old(self).entries(), path@) matches Some(i) ==> {
                let t = old(self).entries()[i].1;
                &&& final(self).entries() == to_front(old(self).entries(), i)
                &&& r matches Some(c) && c.sixel@ == t.sixel@ && c.width == t.width && c.height
                    == t.height && c.encode_time == t.encode_time
            },
            key_index(old(self).entries(), path@) is None ==> r is None && final(self).entries()
                == old(self).entries(),
    {
        proof {
            if key_index(self.entries(), path@) is Some {
                let i = key_index(self.entries(), path@).unwrap();
                lemma_key_index(self.entries(), path@);
                lemma_to_front_bytes(self.entries(), i);
            }
        }
        match lru_get(&mut self.inner, path) {
            Some(t) => Some(copy_thumbnail(t)),
            None => None,
        }
    }

    /// The bytes counted so far.
    pub fn current_bytes(&self) -> (r: usize)
        ensures
            r == self.counted_bytes(),
    {
        self.current_bytes
    }

    /// Adds a thumbnail as the most recently used, replacing one of the same
    /// path. When the counted bytes and the new thumbnail together pass the
    /// byte budget, every entry is evicted first and their bytes uncounted.
    #[verifier::rlimit(40)]
    pub fn insert(&mut self, path: String, thumbnail: CachedThumbnail)
        requires
            old(self).wf(),
            old(self).counted_bytes() + thumbnail.sixel@.len() <= usize::MAX,
        ensures
            final(self).wf(),
            final(self).placeholder_view() == old(self).placeholder_view(),
            entries_bytes(final(self).entries()) <= CACHE_MAX_BYTES || final(self).entries().len() == 1,
            ({
                let evict = old(self).counted_bytes() + thumbnail.sixel@.len() > CACHE_MAX_BYTES;
                let before = if evict {
                    Seq::<(Seq<char>, CachedThumbnail)>::empty()
                } else {
                    old(self).entries()
                };
                &&& key_index(before, path@) matches Some(i) ==> final(self).entries() == seq![
                    (path@, thumbnail),
                ] + before.remove(i)
                &&& key_index(before, path@) is None ==> final(self).entries() == seq![
                    (path@, thumbnail),
                ] + if before.len() == CACHE_MAX_ENTRIES {
                    before.drop_last()
                } else {
                    before
                }
                &&& final(self).counted_bytes() as int == if evict {
                    old(self).counted_bytes() + thumbnail.sixel@.len() - entries_bytes(old(self).entries())
                } else if key_index(before, path@) is Some {
                    old(self).counted_bytes() + thumbnail.sixel@.len() - before[key_index(before, path@).unwrap()].1.sixel@.len()
                } else {
                    old(self).counted_bytes() + thumbnail.sixel@.len() as int
                }
            }),
    {
        let size = thumbnail.byte_size();
        let ghost old_entries = self.entries();
        let mut evict_bytes: usize = 0;
        // The count is lowered only after the loop, so once over the budget
        // the loop runs until the cache is empty.
        if self.current_bytes + size > CACHE_MAX_BYTES {
            let mut n = lru_len(&self.inner);
            proof {
                assert(old_entries.take(n as int) =~= old_entries);
            }
            while n > 0
                invariant
                    n == lru_entries(self.inner).len(),
                    lru_capacity(self.inner) == CACHE_MAX_ENTRIES,
                    lru_entries(self.inner) == old_entries.take(n as int),
                    n <= old_entries.len(),
                    evict_bytes == entries_bytes(old_entries) - entries_bytes(old_entries.take(n as int)),
                    entries_bytes(old_entries) <= self.current_bytes,
                    self.current_bytes == old(self).current_bytes,
                    self.placeholder == old(self).placeholder,
                decreases n,
            {
                let ghost before = lru_entries(self.inner);
                proof {
                    lemma_take_bytes(old_entries, n as int);
                }
                if let Some((_, evicted)) = lru_pop_lru(&mut self.inner) {
                    proof {
                        assert(before.drop_last() =~= old_entries.take(n - 1));
                        assert(before.last() == old_entries[n - 1]);
                        lemma_take_bytes(old_entries, n - 1);
                        lemma_prefix_bytes(old_entries, n - 1);
                    }
                    evict_bytes = evict_bytes + evicted.byte_size();
                }
                n = n - 1;
            }
            proof {
                assert(old_entries.take(0) =~= Seq::<(Seq<char>, CachedThumbnail)>::empty());
            }
        }
        let ghost before = self.entries();
        proof {
            if key_index(before, path@) is Some {
                lemma_key_index(before, path@);
                let i = key_index(before, path@).unwrap();
                lemma_remove_bytes(before, i);
            } else if before.len() == CACHE_MAX_ENTRIES {
                lemma_drop_last_bytes(before);
            }
        }
        let replaced = lru_put(&mut self.inner, path, thumbnail);
        if let Some(old) = replaced {
            self.current_bytes = self.current_bytes - old.byte_size();
        }
        self.current_bytes = self.current_bytes + size;
        if evict_bytes > 0 {
            self.current_bytes = self.current_bytes - evict_bytes;
        }
        proof {
            let after = self.entries();
            lemma_cons_bytes(after);
            assert(after[0].1 == thumbnail);
            if key_index(before, path@) is Some {
                let i = key_index(before, path@).unwrap();
                assert(after.skip(1) =~= before.remove(i));
            } else if before.len() == CACHE_MAX_ENTRIES {
                assert(after.skip(1) =~= before.drop_last());
            } else {
                assert(after.skip(1) =~= before);
            }
            assert(entries_bytes(after) <= self.current_bytes);
            if old(self).current_bytes + size > CACHE_MAX_BYTES {
                assert(before.len() == 0);
                assert(after.len() == 1);
            } else {
                assert(self.current_bytes <= CACHE_MAX_BYTES);
            }
        }
    }

    /// Evicts every entry and resets the byte count.
    pub fn clear(&mut self)
        requires
            old(self).wf(),
        ensures
            final(self).wf(),
            final(self).entries().len() == 0,
            final(self).counted_bytes() == 0,
            final(self).placeholder_view() == old(self).placeholder_view(),
    {
        lru_clear(&mut self.inner);
        self.current_bytes = 0;
    }

    /// Number of cached thumbnails.
    pub fn len(&self) -> (r: usize)
        ensures
            r == self.entries().len(),
    {
        lru_len(&self.inner)
    }
}

proof fn lemma_key_index(e: Seq<(Seq<char>, CachedThumbnail)>, k: Seq<char>)
    requires
        key_index(e, k) is Some,
    ensures
        0 <= key_index(e, k).unwrap() < e.len(),
        e[key_index(e, k).unwrap()].0 == k,
{
    let w = choose|i: int| 0 <= i < e.len() && (#[trigger] e[i]).0 == k;
    lemma_least_key(e, k, w);
}

proof fn lemma_least_key(e: Seq<(Seq<char>, CachedThumbnail)>, k: Seq<char>, i: int)
    requires
        0 <= i < e.len(),
        e[i].0 == k,
    ensures
        exists|m: int| 0 <= m <= i && (#[trigger] e[m]).0 == k && forall|j: int| 0 <= j < m ==> e[j].0 != k,
    decreases i,
{
    if exists|j: int| 0 <= j < i && (#[trigger] e[j]).0 == k {
        let j = choose|j: int| 0 <= j < i && (#[trigger] e[j]).0 == k;
        lemma_least_key(e, k, j);
    } else {
        assert(forall|j: int| 0 <= j < i ==> (#[trigger] e[j]).0 != k);
    }
}

proof fn lemma_take_bytes(e: Seq<(Seq<char>, CachedThumbnail)>, n: int)
    requires
        0 <= n <= e.len(),
    ensures
        entries_bytes(e.take(n)) <= entries_bytes(e),
    decreases e.len(),
{
    if n < e.len() {
        assert(e.drop_last().take(n) =~= e.take(n));
        lemma_take_bytes(e.drop_last(), n);
    } else {
        assert(e.take(n) =~= e);
    }
}

proof fn lemma_prefix_bytes(e: Seq<(Seq<char>, CachedThumbnail)>, n: int)
    requires
        0 <= n < e.len(),
    ensures
        entries_bytes(e.take(n + 1)) == entries_bytes(e.take(n)) + e[n].1.sixel@.len(),
{
    assert(e.take(n + 1).drop_last() =~= e.take(n));
}

/// The bytes of a sequence are those of its first entry and the rest.
proof fn lemma_cons_bytes(e: Seq<(Seq<char>, CachedThumbnail)>)
    requires
        e.len() > 0,
    ensures
        entries_bytes(e) == e[0].1.sixel@.len() + entries_bytes(e.skip(1)),
    decreases e.len(),
{
    if e.len() > 1 {
        lemma_cons_bytes(e.drop_last());
        assert(e.drop_last().skip(1) =~= e.skip(1).drop_last());
    } else {
        assert(e.skip(1) =~= Seq::<(Seq<char>, CachedThumbnail)>::empty());
        assert(e.drop_last() =~= Seq::<(Seq<char>, CachedThumbnail)>::empty());
    }
}

proof fn lemma_remove_bytes(e: Seq<(Seq<char>, CachedThumbnail)>, i: int)
    requires
        0 <= i < e.len(),
    ensures
        entries_bytes(e.remove(i)) + e[i].1.sixel@.len() == entries_bytes(e),
    decreases e.len(),
{
    if i == e.len() - 1 {
        assert(e.remove(i) =~= e.drop_last());
    } else {
        lemma_remove_bytes(e.drop_last(), i);
        assert(e.remove(i).drop_last() =~= e.drop_last().remove(i));
        assert(e.remove(i).last() == e.last());
    }
}

proof fn lemma_drop_last_bytes(e: Seq<(Seq<char>, CachedThumbnail)>)
    requires
        e.len() > 0,
    ensures
        entries_bytes(e.drop_last()) <= entries_bytes(e),
{
}

proof fn lemma_to_front_bytes(e: Seq<(Seq<char>, CachedThumbnail)>, i: int)
    requires
        0 <= i < e.len(),
    ensures
        entries_bytes(to_front(e, i)) == entries_bytes(e),
        to_front(e, i).len() == e.len(),
{
    let f = to_front(e, i);
    lemma_cons_bytes(f);
    assert(f.skip(1) =~= e.remove(i));
    lemma_remove_bytes(e, i);
}

} // verus!

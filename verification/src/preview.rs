//! Preview state: the status of the preview pane, the byte-budgeted cache of
//! decoded frames with least-recently-used eviction, and the small LRU cache
//! of GPU pipelines keyed by shader variant.

use vstd::prelude::*;
use std::collections::HashMap;
use crate::file::BayerPattern;

verus! {

/// `std::time::Instant`, carried through unchanged.
#[verifier::external_type_specification]
#[verifier::external_body]
pub struct ExInstant(std::time::Instant);

/// Marks a GPU preview pipeline that has not been initialised.
pub struct Uninitialized;

/// Marks a GPU preview pipeline ready to render.
pub struct Ready;

/// Turns an RGBA frame into the bytes a terminal image protocol expects.
pub trait ImageEncoder {
    fn encode(&mut self, rgba: &[u8], width: u32, height: u32) -> &[u8];
}

/// What the preview pane shows.
#[derive(Debug)]
pub enum PreviewState {
    Empty,
    Loading { started: std::time::Instant },
    Ready { sixel: Vec<u8>, width: u32, height: u32 },
    Error(String),
}

impl Default for PreviewState {
    fn default() -> (r: Self)
        ensures
            r is Empty,
    {
        PreviewState::Empty
    }
}

impl PreviewState {
    pub fn is_empty(&self) -> (r: bool)
        ensures
            r == (self is Empty),
    {
        matches!(self, PreviewState::Empty)
    }

    pub fn is_loading(&self) -> (r: bool)
        ensures
            r == (self is Loading),
    {
        matches!(self, PreviewState::Loading { .. })
    }

    pub fn is_ready(&self) -> (r: bool)
        ensures
            r == (self is Ready),
    {
        matches!(self, PreviewState::Ready { .. })
    }
}

/// Bayer phase discriminant: 0=RGGB, 1=GRBG, 2=GBRG, 3=BGGR (a quad-Bayer
/// pattern has the phase of its 2x2 arrangement). Matches the
/// `bayer_color` function of the preview shader.
pub fn bayer_phase_to_u32(pattern: &BayerPattern) -> (r: u32)
    ensures
        r == pattern.spec_id() % 4,
{
    match pattern {
        BayerPattern::RGGB | BayerPattern::QuadBayerRGGB => 0,
        BayerPattern::GRBG | BayerPattern::QuadBayerGRBG => 1,
        BayerPattern::GBRG | BayerPattern::QuadBayerGBRG => 2,
        BayerPattern::BGGR | BayerPattern::QuadBayerBGGR => 3,
    }
}

// ---------------------------------------------------------------------------
// Frame cache
// ---------------------------------------------------------------------------

#[derive(Debug, Clone, Copy, PartialEq, Eq, Hash, Structural)]
pub struct FrameKey {
    pub timestamp_ns: i64,
}

/// A decoded frame. `last_access` is a reading of the cache's access clock:
/// larger means more recently used.
#[derive(Debug)]
pub struct CachedFrame {
    pub timestamp_ns: i64,
    pub bayer: Vec<u16>,
    pub last_access: u64,
}

/// Bytes a frame occupies: two per sample.
pub open spec fn frame_bytes(f: CachedFrame) -> nat {
    2 * f.bayer@.len()
}

/// Bytes of all frames of `s`.
pub open spec fn total_bytes(s: Seq<CachedFrame>) -> nat
    decreases s.len(),
{
    if s.len() == 0 {
        0
    } else {
        total_bytes(s.drop_last()) + frame_bytes(s.last())
    }
}

/// The frame of `s` with timestamp `ts`, if any.
pub open spec fn lookup(s: Seq<CachedFrame>, ts: i64) -> Option<CachedFrame> {
    if exists|i: int| 0 <= i < s.len() && (#[trigger] s[i]).timestamp_ns == ts {
        Some(s[choose|i: int| 0 <= i < s.len() && (#[trigger] s[i]).timestamp_ns == ts])
    } else {
        None
    }
}

/// No two frames of `s` share a timestamp.
pub open spec fn distinct_keys(s: Seq<CachedFrame>) -> bool {
    forall|i: int, j: int|
        0 <= i < s.len() && 0 <= j < s.len() && i != j ==> (#[trigger] s[i]).timestamp_ns != (
        #[trigger] s[j]).timestamp_ns
}

impl CachedFrame {
    pub fn byte_size(&self) -> (r: usize)
        requires
            2 * self.bayer@.len() <= usize::MAX,
        ensures
            r == frame_bytes(*self),
    {
        self.bayer.len() * 2
    }
}

pub proof fn lemma_total_bytes_push(s: Seq<CachedFrame>, f: CachedFrame)
    ensures
        total_bytes(s.push(f)) == total_bytes(s) + frame_bytes(f),
{
    assert(s.push(f).drop_last() =~= s);
}

pub proof fn lemma_total_bytes_remove(s: Seq<CachedFrame>, i: int)
    requires
        0 <= i < s.len(),
    ensures
        total_bytes(s.remove(i)) + frame_bytes(s[i]) == total_bytes(s),
    decreases s.len(),
{
    if i < s.len() - 1 {
        let t = s.drop_last();
        lemma_total_bytes_remove(t, i);
        assert(s.remove(i).drop_last() =~= t.remove(i));
        assert(s.remove(i).last() == s.last());
    } else {
        assert(s.remove(i) =~= s.drop_last());
    }
}

pub proof fn lemma_frame_within_total(s: Seq<CachedFrame>, i: int)
    requires
        0 <= i < s.len(),
    ensures
        frame_bytes(s[i]) <= total_bytes(s),
{
    lemma_total_bytes_remove(s, i);
}

/// Decoded frames kept within a byte budget; when a new frame does not fit,
/// the least recently used frames leave first. Frames are held in a hash map
/// keyed by timestamp; `order` lists the keys in the order they were stored.
pub struct FrameCache {
    entries: HashMap<i64, CachedFrame>,
    order: Vec<i64>,
    max_bytes: usize,
    current_bytes: usize,
    clock: u64,
}

impl FrameCache {
    /// The cached frames, in the order they were stored.
    pub closed spec fn frames(&self) -> Seq<CachedFrame> {
        Seq::new(self.order@.len(), |i: int| self.entries@[self.order@[i]])
    }

    /// The byte budget.
    pub closed spec fn budget(&self) -> nat {
        self.max_bytes as nat
    }

    /// The current reading of the access clock.
    pub closed spec fn now(&self) -> u64 {
        self.clock
    }

    /// The map holds exactly the listed keys, once each, each under its own
    /// frame's timestamp.
    closed spec fn keyed(&self) -> bool {
        &&& self.order@.no_duplicates()
        &&& forall|k: i64| self.entries@.contains_key(k) <==> self.order@.contains(k)
        &&& forall|i: int|
            #![trigger self.order@[i]]
            0 <= i < self.order@.len() ==> self.entries@[self.order@[i]].timestamp_ns == self.order@[i]
    }

    /// The cache's invariant: keys are distinct, the byte count is the sum of
    /// the frames' sizes, and no frame was used after the clock's reading.
    pub closed spec fn wf(&self) -> bool {
        &&& self.keyed()
        &&& distinct_keys(self.frames())
        &&& self.current_bytes == total_bytes(self.frames())
        &&& forall|i: int|
            0 <= i < self.frames().len() ==> (#[trigger] self.frames()[i]).last_access <= self.clock
    }

    pub fn new(max_bytes_mb: usize) -> (r: Self)
        requires
            max_bytes_mb * 1048576 <= usize::MAX,
        ensures
            r.wf(),
            r.frames() == Seq::<CachedFrame>::empty(),
            r.budget() == max_bytes_mb * 1048576,
    {
        let r = FrameCache {
            entries: HashMap::new(),
            order: Vec::new(),
            max_bytes: max_bytes_mb * 1024 * 1024,
            current_bytes: 0,
            clock: 0,
        };
        assert(r.frames() =~= Seq::<CachedFrame>::empty());
        r
    }

    /// The frame stored at position `i`.
    fn frame_at(&self, i: usize) -> (r: &CachedFrame)
        requires
            self.keyed(),
            i < self.order@.len(),
        ensures
            *r == self.frames()[i as int],
    {
        let k = self.order[i];
        assert(self.order@.contains(k));
        self.entries.get(&k).unwrap()
    }

    /// Takes out the frame stored at position `i`.
    fn remove_at(&mut self, i: usize) -> (r: CachedFrame)
        requires
            old(self).keyed(),
            i < old(self).order@.len(),
        ensures
            final(self).keyed(),
            final(self).frames() == old(self).frames().remove(i as int),
            r == old(self).frames()[i as int],
            final(self).max_bytes == old(self).max_bytes,
            final(self).current_bytes == old(self).current_bytes,
            final(self).clock == old(self).clock,
    {
        let ghost o = self.order@;
        let ghost m = self.entries@;
        let k = self.order.remove(i);
        assert(o.contains(k)) by {
            assert(o[i as int] == k);
        }
        let r = self.entries.remove(&k).unwrap();
        proof {
            let no = self.order@;
            assert(no =~= o.remove(i as int));
            assert forall|a: int, b: int|
                0 <= a < no.len() && 0 <= b < no.len() && a != b implies no[a] != no[b] by {
                let a2 = if a < i { a } else { a + 1 };
                let b2 = if b < i { b } else { b + 1 };
                assert(no[a] == o[a2]);
                assert(no[b] == o[b2]);
            }
            assert forall|x: i64| self.entries@.contains_key(x) <==> no.contains(x) by {
                if no.contains(x) {
                    let a = choose|a: int| 0 <= a < no.len() && no[a] == x;
                    let a2 = if a < i { a } else { a + 1 };
                    assert(o[a2] == x);
                    assert(a2 != i);
                    assert(x != k);
                    assert(o.contains(x));
                    assert(m.contains_key(x));
                }
                if self.entries@.contains_key(x) {
                    assert(x != k);
                    assert(o.contains(x));
                    let a = choose|a: int| 0 <= a < o.len() && o[a] == x;
                    assert(a != i);
                    if a < i {
                        assert(no[a] == x);
                    } else {
                        assert(no[a - 1] == x);
                    }
                }
            }
            assert forall|a: int| #![trigger no[a]] 0 <= a < no.len() implies self.entries@[no[a]].timestamp_ns
                == no[a] && self.entries@[no[a]] == m[no[a]] by {
                let a2 = if a < i { a } else { a + 1 };
                assert(no[a] == o[a2]);
                assert(o[a2] != k);
            }
            assert(self.frames() =~= Seq::new(o.len(), |j: int| m[o[j]]).remove(i as int));
        }
        r
    }

    /// Stores a frame under a timestamp not yet listed, at the end.
    fn push_frame(&mut self, f: CachedFrame)
        requires
            old(self).keyed(),
            !old(self).order@.contains(f.timestamp_ns),
        ensures
            final(self).keyed(),
            final(self).frames() == old(self).frames().push(f),
            final(self).max_bytes == old(self).max_bytes,
            final(self).current_bytes == old(self).current_bytes,
            final(self).clock == old(self).clock,
    {
        let ghost o = self.order@;
        let ghost m = self.entries@;
        let k = f.timestamp_ns;
        self.order.push(k);
        self.entries.insert(k, f);
        proof {
            let no = self.order@;
            assert(no =~= o.push(k));
            assert forall|a: int, b: int|
                0 <= a < no.len() && 0 <= b < no.len() && a != b implies no[a] != no[b] by {
                if a < o.len() && b < o.len() {
                    assert(no[a] == o[a] && no[b] == o[b]);
                } else if a < o.len() {
                    assert(no[a] == o[a]);
                    assert(o.contains(o[a]));
                } else if b < o.len() {
                    assert(no[b] == o[b]);
                    assert(o.contains(o[b]));
                }
            }
            assert forall|x: i64| self.entries@.contains_key(x) <==> no.contains(x) by {
                if no.contains(x) && x != k {
                    let a = choose|a: int| 0 <= a < no.len() && no[a] == x;
                    assert(o[a] == x);
                    assert(o.contains(x));
                    assert(m.contains_key(x));
                }
                if self.entries@.contains_key(x) && x != k {
                    assert(o.contains(x));
                    let a = choose|a: int| 0 <= a < o.len() && o[a] == x;
                    assert(no[a] == x);
                }
                if x == k {
                    assert(no[o.len() as int] == k);
                }
            }
            assert forall|a: int| #![trigger no[a]] 0 <= a < no.len() implies self.entries@[no[a]].timestamp_ns
                == no[a] && (a < o.len() ==> self.entries@[no[a]] == m[no[a]]) by {
                if a < o.len() {
                    assert(no[a] == o[a]);
                    assert(o.contains(o[a]));
                }
            }
            assert(self.frames() =~= Seq::new(o.len(), |j: int| m[o[j]]).push(f));
        }
    }

    /// Sets the access time of the frame listed at position `i` (under `ts`).
    fn touch(&mut self, ts: i64, now: u64, Ghost(i): Ghost<int>)
        requires
            old(self).keyed(),
            0 <= i < old(self).order@.len(),
            old(self).order@[i] == ts,
        ensures
            final(self).keyed(),
            final(self).order@ == old(self).order@,
            final(self).frames() == old(self).frames().update(
                i,
                CachedFrame {
                    timestamp_ns: old(self).frames()[i].timestamp_ns,
                    bayer: old(self).frames()[i].bayer,
                    last_access: now,
                },
            ),
            final(self).max_bytes == old(self).max_bytes,
            final(self).current_bytes == old(self).current_bytes,
            final(self).clock == old(self).clock,
    {
        let ghost o = self.order@;
        let ghost m = self.entries@;
        assert(o.contains(ts));
        let mut f = self.entries.remove(&ts).unwrap();
        f.last_access = now;
        self.entries.insert(ts, f);
        proof {
            assert forall|x: i64| self.entries@.contains_key(x) <==> o.contains(x) by {}
            assert forall|a: int| #![trigger o[a]] 0 <= a < o.len() implies self.entries@[o[a]].timestamp_ns
                == o[a] && (a != i ==> self.entries@[o[a]] == m[o[a]]) by {
                if a != i {
                    assert(o[a] != o[i]);
                }
            }
            assert(self.frames() =~= Seq::new(o.len(), |j: int| m[o[j]]).update(
                i,
                CachedFrame { timestamp_ns: m[o[i]].timestamp_ns, bayer: m[o[i]].bayer, last_access: now },
            ));
        }
    }

    /// Looks up a frame and marks it as the most recently used.
    pub fn get(&mut self, key: &FrameKey) -> (r: Option<&CachedFrame>)
        requires
            old(self).wf(),
        ensures
            final(self).wf(),
            final(self).budget() == old(self).budget(),
            lookup(old(self).frames(), key.timestamp_ns) is None ==> r is None && final(self).frames()
                == old(self).frames(),
            lookup(old(self).frames(), key.timestamp_ns) is Some ==> {
                &&& r is Some
                &&& final(self).frames().len() == old(self).frames().len()
                &&& lookup(final(self).frames(), key.timestamp_ns) == Some(*r.unwrap())
                &&& r.unwrap().timestamp_ns == key.timestamp_ns
                &&& r.unwrap().bayer == lookup(old(self).frames(), key.timestamp_ns).unwrap().bayer
                &&& r.unwrap().last_access == final(self).now()
                &&& final(self).now() == if old(self).now() < u64::MAX {
                    (old(self).now() + 1) as u64
                } else {
                    old(self).now()
                }
                &&& forall|i: int|
                    0 <= i < old(self).frames().len() && (#[trigger] old(self).frames()[i]).timestamp_ns
                        != key.timestamp_ns ==> final(self).frames()[i] == old(self).frames()[i]
            },
            total_bytes(final(self).frames()) == total_bytes(old(self).frames()),
    {
        let ts = key.timestamp_ns;
        if self.entries.contains_key(&ts) {
            let ghost before = self.frames();
            assert(self.order@.contains(ts));
            let ghost i = choose|i: int| 0 <= i < self.order@.len() && self.order@[i] == ts;
            assert(before[i].timestamp_ns == ts);
            let now = if self.clock < u64::MAX { self.clock + 1 } else { self.clock };
            self.clock = now;
            self.touch(ts, now, Ghost(i));
            proof {
                let after = self.frames();
                assert forall|a: int| 0 <= a < after.len() implies (#[trigger] after[a]).timestamp_ns
                    == before[a].timestamp_ns && (a != i ==> after[a] == before[a]) by {}
                assert forall|a: int| 0 <= a < after.len() && (#[trigger] after[a]).timestamp_ns == ts
                    implies a == i by {
                    assert(before[a].timestamp_ns == ts);
                }
                assert forall|a: int| 0 <= a < before.len() && (#[trigger] before[a]).timestamp_ns == ts
                    implies a == i by {}
                assert(after[i].timestamp_ns == ts);
                assert(frame_bytes(after[i]) == frame_bytes(before[i]));
                lemma_total_bytes_remove(before, i);
                lemma_total_bytes_remove(after, i);
                assert(after.remove(i) =~= before.remove(i));
                assert forall|q: int| 0 <= q < after.len() implies (#[trigger] after[q]).last_access
                    <= self.clock by {
                    if q != i {
                        assert(after[q] == before[q]);
                    }
                }
                assert(after[i] == self.entries@[ts]);
            }
            assert(self.order@.contains(ts));
            self.entries.get(&ts)
        } else {
            proof {
                assert forall|j: int| 0 <= j < self.frames().len() implies (
                #[trigger] self.frames()[j]).timestamp_ns != ts by {
                    assert(self.frames()[j].timestamp_ns == self.order@[j]);
                    assert(self.order@.contains(self.order@[j]));
                }
            }
            None
        }
    }

    /// Position of the frame with timestamp `ts`, if any.
    fn position(&self, ts: i64) -> (r: Option<usize>)
        requires
            self.keyed(),
        ensures
            r is Some ==> r.unwrap() < self.frames().len() && self.frames()[r.unwrap() as int].timestamp_ns
                == ts,
            r is None ==> forall|j: int|
                0 <= j < self.frames().len() ==> (#[trigger] self.frames()[j]).timestamp_ns != ts,
    {
        let mut i: usize = 0;
        while i < self.order.len()
            invariant
                self.keyed(),
                i <= self.order@.len(),
                forall|j: int| 0 <= j < i ==> (#[trigger] self.frames()[j]).timestamp_ns != ts,
            decreases self.order@.len() - i,
        {
            assert(self.frames()[i as int].timestamp_ns == self.order@[i as int]);
            if self.order[i] == ts {
                return Some(i);
            }
            i = i + 1;
        }
        None
    }

    /// Position of a least recently used frame (the first one, on ties).
    fn lru_index(&self) -> (r: usize)
        requires
            self.keyed(),
            self.frames().len() > 0,
        ensures
            r < self.frames().len(),
            forall|j: int|
                0 <= j < self.frames().len() ==> self.frames()[r as int].last_access <= (
                #[trigger] self.frames()[j]).last_access,
    {
        let mut best: usize = 0;
        let mut best_access: u64 = self.frame_at(0).last_access;
        let mut i: usize = 1;
        while i < self.order.len()
            invariant
                self.keyed(),
                self.frames().len() > 0,
                best < self.frames().len(),
                best_access == self.frames()[best as int].last_access,
                1 <= i <= self.frames().len(),
                forall|j: int|
                    0 <= j < i ==> self.frames()[best as int].last_access <= (
                    #[trigger] self.frames()[j]).last_access,
            decreases self.order@.len() - i,
        {
            let a = self.frame_at(i).last_access;
            if a < best_access {
                best = i;
                best_access = a;
            }
            i = i + 1;
        }
        best
    }

    /// Stores a frame, replacing the one with the same timestamp. While the
    /// new frame does not fit the budget, least recently used frames leave.
    pub fn insert(&mut self, frame: CachedFrame)
        requires
            old(self).wf(),
            total_bytes(old(self).frames()) + 2 * frame.bayer@.len() <= usize::MAX,
        ensures
            final(self).wf(),
            final(self).budget() == old(self).budget(),
            final(self).frames().len() >= 1,
            final(self).frames().last() == frame,
            lookup(final(self).frames(), frame.timestamp_ns) == Some(frame),
            // what stays was there before, under another timestamp
            forall|i: int|
                0 <= i < final(self).frames().len() - 1 ==> old(self).frames().contains(
                    #[trigger] final(self).frames()[i],
                ) && final(self).frames()[i].timestamp_ns != frame.timestamp_ns,
            // what left under another timestamp was used no later than what stayed
            forall|e: CachedFrame, k: CachedFrame|
                #![trigger old(self).frames().contains(e), final(self).frames().contains(k)]
                old(self).frames().contains(e) && e.timestamp_ns != frame.timestamp_ns
                    && !final(self).frames().contains(e) && final(self).frames().contains(k)
                    && k.timestamp_ns != frame.timestamp_ns ==> e.last_access <= k.last_access,
            // the budget holds, unless the new frame alone exceeds it
            total_bytes(final(self).frames()) <= final(self).budget() || final(self).frames().len()
                == 1,
            // no frame left that did not have to: the most recently used of
            // those that left did not fit beside what stayed and the new one
            (exists|e: CachedFrame|
                old(self).frames().contains(e) && e.timestamp_ns != frame.timestamp_ns
                    && !final(self).frames().contains(e)) ==> exists|e: CachedFrame|
                old(self).frames().contains(e) && e.timestamp_ns != frame.timestamp_ns
                    && !final(self).frames().contains(e) && total_bytes(final(self).frames())
                    + frame_bytes(e) > final(self).budget() && forall|d: CachedFrame|
                    old(self).frames().contains(d) && d.timestamp_ns != frame.timestamp_ns
                        && !final(self).frames().contains(d) ==> d.last_access <= e.last_access,
            // while the frames and the new one fit the budget, nothing leaves
            total_bytes(old(self).frames()) + frame_bytes(frame) <= old(self).budget() ==> forall|
                e: CachedFrame,
            |
                old(self).frames().contains(e) && e.timestamp_ns != frame.timestamp_ns
                    ==> #[trigger] final(self).frames().contains(e),
    {
        let ghost start = self.frames();
        let ts = frame.timestamp_ns;
        let fb = frame.byte_size();
        match self.position(ts) {
            Some(i) => {
                proof {
                    lemma_total_bytes_remove(self.frames(), i as int);
                    lemma_frame_within_total(self.frames(), i as int);
                }
                let gone = self.remove_at(i);
                self.current_bytes = self.current_bytes - gone.byte_size();
            },
            None => {},
        }
        let ghost base = self.frames();
        assert(self.current_bytes <= total_bytes(start));
        proof {
            assert forall|e: CachedFrame| start.contains(e) && e.timestamp_ns != ts implies base.contains(
                e,
            ) by {
                let a = choose|a: int| 0 <= a < start.len() && start[a] == e;
                if base.len() < start.len() {
                    let i = choose|i: int| 0 <= i < start.len() && base == start.remove(i) && start[i].timestamp_ns == ts;
                    if a < i {
                        assert(base[a] == e);
                    } else {
                        assert(base[a - 1] == e);
                    }
                }
            }
            assert forall|k: CachedFrame| base.contains(k) implies start.contains(k) && k.timestamp_ns != ts by {
                let a = choose|a: int| 0 <= a < base.len() && base[a] == k;
            }
        }
        let ghost mut evicted: Seq<CachedFrame> = Seq::empty();
        while self.current_bytes + fb > self.max_bytes && self.order.len() > 0
            invariant
                self.keyed(),
                distinct_keys(self.frames()),
                self.current_bytes == total_bytes(self.frames()),
                self.current_bytes + fb <= usize::MAX,
                forall|j: int|
                    0 <= j < self.frames().len() ==> (#[trigger] self.frames()[j]).last_access
                        <= self.clock,
                forall|k: CachedFrame| self.frames().contains(k) ==> base.contains(k),
                forall|e: CachedFrame|
                    base.contains(e) ==> self.frames().contains(e) || evicted.contains(e),
                forall|e: CachedFrame, k: CachedFrame|
                    #![trigger evicted.contains(e), self.frames().contains(k)]
                    evicted.contains(e) && self.frames().contains(k) ==> e.last_access
                        <= k.last_access,
                forall|e: CachedFrame| evicted.contains(e) ==> !self.frames().contains(e),
                forall|e: CachedFrame| evicted.contains(e) ==> base.contains(e),
                forall|k: CachedFrame| base.contains(k) ==> start.contains(k) && k.timestamp_ns != ts,
                evicted.len() > 0 ==> self.current_bytes + frame_bytes(evicted.last()) + fb
                    > self.max_bytes,
                evicted.len() > 0 ==> forall|e: CachedFrame|
                    evicted.contains(e) ==> e.last_access <= evicted.last().last_access,
                self.max_bytes == old(self).max_bytes,
                self.current_bytes <= total_bytes(start),
                total_bytes(start) + fb <= self.max_bytes ==> evicted.len() == 0,
            decreases self.order@.len(),
        {
            let j = self.lru_index();
            let ghost before = self.frames();
            proof {
                lemma_total_bytes_remove(self.frames(), j as int);
                lemma_frame_within_total(self.frames(), j as int);
            }
            let gone = self.remove_at(j);
            proof {
                assert(before.remove(j as int) == self.frames());
                assert forall|k: CachedFrame| self.frames().contains(k) implies before.contains(k) && k
                    != gone by {
                    let a = choose|a: int| 0 <= a < self.frames().len() && self.frames()[a] == k;
                    if a < j {
                        assert(before[a] == k);
                        assert(before[a].timestamp_ns != before[j as int].timestamp_ns);
                    } else {
                        assert(before[a + 1] == k);
                        assert(before[a + 1].timestamp_ns != before[j as int].timestamp_ns);
                    }
                }
                assert forall|e: CachedFrame| before.contains(e) implies self.frames().contains(e) || e
                    == gone by {
                    let a = choose|a: int| 0 <= a < before.len() && before[a] == e;
                    if a < j {
                        assert(self.frames()[a] == e);
                    } else if a > j {
                        assert(self.frames()[a - 1] == e);
                    }
                }
                assert forall|k: CachedFrame| self.frames().contains(k) implies gone.last_access
                    <= k.last_access by {
                    let a = choose|a: int| 0 <= a < self.frames().len() && self.frames()[a] == k;
                    if a < j {
                        assert(before[a] == k);
                    } else {
                        assert(before[a + 1] == k);
                    }
                }
                let old_ev = evicted;
                evicted = evicted.push(gone);
                assert(evicted[evicted.len() - 1] == gone);
                assert(before.contains(gone)) by {
                    assert(before[j as int] == gone);
                }
                assert forall|e: CachedFrame| old_ev.contains(e) implies e.last_access
                    <= gone.last_access by {}
                assert forall|e: CachedFrame| evicted.contains(e) <==> (old_ev.contains(e) || e == gone) by {
                    if old_ev.contains(e) {
                        let a = choose|a: int| 0 <= a < old_ev.len() && old_ev[a] == e;
                        assert(evicted[a] == e);
                    }
                    if evicted.contains(e) && e != gone {
                        let a = choose|a: int| 0 <= a < evicted.len() && evicted[a] == e;
                        assert(old_ev[a] == e);
                    }
                }
                assert(before.contains(gone)) by {
                    assert(before[j as int] == gone);
                }
                assert forall|a: int, b: int|
                    0 <= a < self.frames().len() && 0 <= b < self.frames().len() && a != b implies (
                    #[trigger] self.frames()[a]).timestamp_ns != (#[trigger] self.frames()[b]).timestamp_ns by {
                    let a2 = if a < j { a } else { a + 1 };
                    let b2 = if b < j { b } else { b + 1 };
                    assert(self.frames()[a] == before[a2]);
                    assert(self.frames()[b] == before[b2]);
                }
                assert forall|q: int| 0 <= q < self.frames().len() implies (
                    #[trigger] self.frames()[q]).last_access <= self.clock by {
                    let q2 = if q < j { q } else { q + 1 };
                    assert(self.frames()[q] == before[q2]);
                }
            }
            self.current_bytes = self.current_bytes - gone.byte_size();
            proof {
                assert(evicted.last() == gone);
            }
        }
        let ghost kept = self.frames();
        proof {
            assert forall|q: int| 0 <= q < kept.len() implies (#[trigger] kept[q]).timestamp_ns != ts by {
                assert(kept.contains(kept[q]));
                assert(base.contains(kept[q]));
            }
        }
        self.current_bytes = self.current_bytes + fb;
        if frame.last_access > self.clock {
            self.clock = frame.last_access;
        }
        proof {
            if self.order@.contains(ts) {
                let q = choose|q: int| 0 <= q < self.order@.len() && self.order@[q] == ts;
                assert(self.frames()[q].timestamp_ns == self.order@[q]);
                assert(kept[q].timestamp_ns != ts);
            }
        }
        self.push_frame(frame);
        proof {
            let fin = self.frames();
            assert(fin == kept.push(frame));
            lemma_total_bytes_push(kept, frame);
            assert forall|a: int, b: int|
                0 <= a < fin.len() && 0 <= b < fin.len() && a != b implies (
                #[trigger] fin[a]).timestamp_ns != (#[trigger] fin[b]).timestamp_ns by {
                if a < kept.len() && b < kept.len() {
                    assert(fin[a] == kept[a]);
                    assert(fin[b] == kept[b]);
                } else if a < kept.len() {
                    assert(fin[a] == kept[a]);
                } else if b < kept.len() {
                    assert(fin[b] == kept[b]);
                }
            }
            assert(fin[fin.len() - 1].timestamp_ns == ts);
            assert forall|a: int| 0 <= a < fin.len() && (#[trigger] fin[a]).timestamp_ns == ts implies a
                == fin.len() - 1 by {
                if a < kept.len() {
                    assert(fin[a] == kept[a]);
                }
            }
            assert forall|q: int| 0 <= q < fin.len() implies (#[trigger] fin[q]).last_access
                <= self.clock by {
                if q < kept.len() {
                    assert(fin[q] == kept[q]);
                }
            }
            assert forall|q: int| 0 <= q < fin.len() - 1 implies start.contains(#[trigger] fin[q])
                && fin[q].timestamp_ns != ts by {
                assert(fin[q] == kept[q]);
                assert(kept.contains(kept[q]));
            }
            assert forall|k: CachedFrame| fin.contains(k) && k.timestamp_ns != ts implies kept.contains(k) by {
                let a = choose|a: int| 0 <= a < fin.len() && fin[a] == k;
                assert(fin[a] == kept[a]);
            }
            assert forall|e: CachedFrame| start.contains(e) && e.timestamp_ns != ts && !fin.contains(e)
                implies evicted.contains(e) by {
                if kept.contains(e) {
                    let a = choose|a: int| 0 <= a < kept.len() && kept[a] == e;
                    assert(fin[a] == e);
                }
            }
            if total_bytes(start) + fb <= self.max_bytes {
                assert forall|e: CachedFrame|
                    start.contains(e) && e.timestamp_ns != ts implies #[trigger] fin.contains(e) by {
                    if !fin.contains(e) {
                        assert(evicted.contains(e));
                        let a = choose|a: int| 0 <= a < evicted.len() && evicted[a] == e;
                    }
                }
            }
            if exists|e: CachedFrame|
                start.contains(e) && e.timestamp_ns != ts && !fin.contains(e) {
                let e0 = choose|e: CachedFrame| start.contains(e) && e.timestamp_ns != ts && !fin.contains(e);
                assert(evicted.contains(e0));
                let w = evicted.last();
                assert(evicted.contains(w)) by {
                    assert(evicted[evicted.len() - 1] == w);
                }
                assert forall|d: CachedFrame|
                    start.contains(d) && d.timestamp_ns != ts && !fin.contains(d) implies d.last_access
                        <= w.last_access by {
                    assert(evicted.contains(d));
                }
                assert(base.contains(w));
                assert(!kept.contains(w));
                assert(w.timestamp_ns != ts);
                assert(!fin.contains(w)) by {
                    if fin.contains(w) {
                        let a = choose|a: int| 0 <= a < fin.len() && fin[a] == w;
                        if a < kept.len() {
                            assert(fin[a] == kept[a]);
                        }
                    }
                }
            }
        }
    }

    pub fn clear(&mut self)
        ensures
            final(self).wf(),
            final(self).frames() == Seq::<CachedFrame>::empty(),
            final(self).budget() == old(self).budget(),
    {
        self.entries.clear();
        self.order.clear();
        self.current_bytes = 0;
        assert(self.frames() =~= Seq::<CachedFrame>::empty());
    }

    pub fn current_bytes(&self) -> (r: usize)
        requires
            self.wf(),
        ensures
            r == total_bytes(self.frames()),
    {
        self.current_bytes
    }

    pub fn len(&self) -> (r: usize)
        ensures
            r == self.frames().len(),
    {
        self.order.len()
    }

    pub fn is_empty(&self) -> (r: bool)
        ensures
            r == (self.frames().len() == 0),
    {
        self.order.len() == 0
    }
}

// ---------------------------------------------------------------------------
// Pipeline cache
// ---------------------------------------------------------------------------

/// Selects a compiled preview pipeline: the shader variant for a colour
/// space, a transfer function and whether adjustments are on.
#[derive(Debug, Clone, Copy, PartialEq, Eq, Hash, Structural)]
pub struct PipelineKey {
    pub color_space: u32,
    pub transfer: u32,
    pub adjust_enabled: u32,
}

/// The hash-map key of a pipeline key: its three fields side by side.
pub open spec fn packed_key(k: PipelineKey) -> u128 {
    ((k.color_space as u128) << 64u32) | ((k.transfer as u128) << 32u32) | (k.adjust_enabled as u128)
}

/// Distinct pipeline keys have distinct packed keys.
pub proof fn lemma_packed_key_injective(a: PipelineKey, b: PipelineKey)
    ensures
        packed_key(a) == packed_key(b) ==> a == b,
{
    let (a0, a1, a2) = (a.color_space, a.transfer, a.adjust_enabled);
    let (b0, b1, b2) = (b.color_space, b.transfer, b.adjust_enabled);
    assert(((a0 as u128) << 64u32) | ((a1 as u128) << 32u32) | (a2 as u128) == ((b0 as u128)
        << 64u32) | ((b1 as u128) << 32u32) | (b2 as u128) ==> a0 == b0 && a1 == b1 && a2 == b2)
        by (bit_vector);
}

fn pack_key(k: &PipelineKey) -> (r: u128)
    ensures
        r == packed_key(*k),
{
    ((k.color_space as u128) << 64u32) | ((k.transfer as u128) << 32u32) | (k.adjust_enabled as u128)
}

/// `s` without its first occurrence of `k`.
pub open spec fn remove_first(s: Seq<PipelineKey>, k: PipelineKey) -> Seq<PipelineKey>
    decreases s.len(),
{
    if s.len() == 0 {
        s
    } else if s[0] == k {
        s.drop_first()
    } else {
        seq![s[0]] + remove_first(s.drop_first(), k)
    }
}

/// Compiled pipelines (`V`) by key, with the order in which keys were last
/// used: on a full cache the key at the front of that order is evicted.
pub struct PipelineCache<V> {
    entries: HashMap<u128, V>,
    pub access_order: Vec<PipelineKey>,
    pub max_entries: usize,
}

impl<V> PipelineCache<V> {
    pub const MAX_ENTRIES: usize = 20;

    /// The cached pipelines by key.
    pub closed spec fn map(&self) -> Map<PipelineKey, V> {
        Map::new(
            |k: PipelineKey| self.entries@.contains_key(packed_key(k)),
            |k: PipelineKey| self.entries@[packed_key(k)],
        )
    }

    /// Keys in the order of their last use, oldest first.
    pub closed spec fn order(&self) -> Seq<PipelineKey> {
        self.access_order@
    }

    pub closed spec fn capacity(&self) -> nat {
        self.max_entries as nat
    }

    pub closed spec fn size(&self) -> nat {
        self.entries@.len()
    }

    /// Every stored entry is filed under the packed form of a pipeline key.
    pub closed spec fn wf(&self) -> bool {
        forall|x: u128| #[trigger] self.entries@.contains_key(x) ==> exists|k: PipelineKey| packed_key(k) == x
    }

    pub fn new() -> (r: Self)
        ensures
            r.wf(),
            r.map() == Map::<PipelineKey, V>::empty(),
            r.order() == Seq::<PipelineKey>::empty(),
            r.size() == 0,
            r.capacity() == 20,
    {
        let r = PipelineCache { entries: HashMap::new(), access_order: Vec::new(), max_entries: 20 };
        assert(r.map() =~= Map::<PipelineKey, V>::empty());
        r
    }

    /// Removes the first occurrence of `key` from the use order.
    fn forget_use(&mut self, key: &PipelineKey)
        ensures
            final(self).access_order@ == remove_first(old(self).access_order@, *key),
            final(self).entries@ == old(self).entries@,
            final(self).max_entries == old(self).max_entries,
    {
        let mut i: usize = 0;
        proof {
            let s = self.access_order@;
            assert(s.skip(0) =~= s);
            assert(s.take(0) + remove_first(s, *key) =~= remove_first(s, *key));
        }
        while i < self.access_order.len()
            invariant
                i <= self.access_order@.len(),
                self.access_order@ == old(self).access_order@,
                self.entries@ == old(self).entries@,
                self.max_entries == old(self).max_entries,
                forall|j: int| 0 <= j < i ==> (#[trigger] self.access_order@[j]) != *key,
                remove_first(self.access_order@, *key) == self.access_order@.take(i as int)
                    + remove_first(self.access_order@.skip(i as int), *key),
            decreases self.access_order@.len() - i,
        {
            let ghost s = self.access_order@;
            if self.access_order[i] == *key {
                proof {
                    let t = s.skip(i as int);
                    assert(t[0] == *key);
                    assert(s.take(i as int) + t.drop_first() =~= s.remove(i as int));
                }
                self.access_order.remove(i);
                return;
            }
            proof {
                let t = s.skip(i as int);
                assert(t[0] != *key);
                assert(t.drop_first() =~= s.skip(i + 1));
                assert(s.take(i as int) + (seq![t[0]] + remove_first(t.drop_first(), *key)) =~= s.take(
                    i + 1,
                ) + remove_first(s.skip(i + 1), *key));
            }
            i = i + 1;
        }
        proof {
            let s = self.access_order@;
            assert(s.skip(i as int) =~= Seq::<PipelineKey>::empty());
            assert(s.take(i as int) =~= s);
            assert(s.take(i as int) + Seq::<PipelineKey>::empty() =~= s);
        }
    }

    /// The pipeline for `key`, which becomes the most recently used.
    pub fn get(&mut self, key: &PipelineKey) -> (r: Option<&V>)
        requires
            old(self).wf(),
        ensures
            final(self).wf(),
            final(self).map() == old(self).map(),
            final(self).size() == old(self).size(),
            final(self).capacity() == old(self).capacity(),
            old(self).map().contains_key(*key) ==> r == Some(&old(self).map()[*key])
                && final(self).order() == remove_first(old(self).order(), *key).push(*key),
            !old(self).map().contains_key(*key) ==> r is None && final(self).order()
                == old(self).order(),
    {
        let pk = pack_key(key);
        if self.entries.contains_key(&pk) {
            self.forget_use(key);
            self.access_order.push(*key);
            proof {
                assert(self.map() =~= old(self).map());
            }
            self.entries.get(&pk)
        } else {
            None
        }
    }

    /// Stores `pipeline` under `key`. When the cache holds its capacity or
    /// more, the least recently used key is evicted first.
    pub fn insert(&mut self, key: PipelineKey, pipeline: V)
        requires
            old(self).wf(),
        ensures
            final(self).wf(),
            final(self).capacity() == old(self).capacity(),
            ({
                let evict = old(self).size() >= old(self).capacity() && old(self).order().len() > 0;
                let m = if evict {
                    old(self).map().remove(old(self).order()[0])
                } else {
                    old(self).map()
                };
                let o = if evict {
                    old(self).order().drop_first()
                } else {
                    old(self).order()
                };
                &&& final(self).map() == m.insert(key, pipeline)
                &&& final(self).order() == o.push(key)
            }),
    {
        let ghost m0 = self.map();
        if self.entries.len() >= self.max_entries && self.access_order.len() > 0 {
            let evict = self.access_order[0];
            let ek = pack_key(&evict);
            let ghost before = self.entries@;
            self.entries.remove(&ek);
            self.access_order.remove(0);
            proof {
                assert forall|k: PipelineKey| #[trigger] packed_key(k) == ek implies k == evict by {
                    lemma_packed_key_injective(k, evict);
                }
                assert forall|k: PipelineKey| k != evict implies packed_key(k) != ek by {
                    lemma_packed_key_injective(k, evict);
                }
                assert(self.map() =~= m0.remove(evict));
                assert forall|x: u128| #[trigger] self.entries@.contains_key(x) implies exists|
                    k: PipelineKey,
                | packed_key(k) == x by {
                    assert(before.contains_key(x));
                }
            }
        }
        let ghost m1 = self.map();
        let ghost before = self.entries@;
        let pk = pack_key(&key);
        self.entries.insert(pk, pipeline);
        self.access_order.push(key);
        proof {
            assert forall|k: PipelineKey| k != key implies packed_key(k) != pk by {
                lemma_packed_key_injective(k, key);
            }
            assert(self.map() =~= m1.insert(key, pipeline));
            assert forall|x: u128| #[trigger] self.entries@.contains_key(x) implies exists|
                k: PipelineKey,
            | packed_key(k) == x by {
                if x != pk {
                    assert(before.contains_key(x));
                }
            }
        }
    }

    pub fn len(&self) -> (r: usize)
        ensures
            r == self.size(),
    {
        self.entries.len()
    }

    pub fn is_empty(&self) -> (r: bool)
        ensures
            r == (self.size() == 0),
    {
        self.entries.is_empty()
    }
}

} // verus!

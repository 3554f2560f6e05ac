//! The file browser: a directory listing arranged for display (the way up
//! first, hidden entries left out unless asked for, files before folders,
//! each group by name without case), the cursor over it, and the moves
//! into and out of folders. Reading directories is the caller's.

use vstd::prelude::*;
use crate::preset::clone_path;
use crate::text::{lowercase, owned, str_eq, to_chars, to_lowercase};

verus! {

broadcast use vstd::string::group_string_axioms;

/// One listed entry.
pub struct FileEntry {
    pub path: std::path::PathBuf,
    pub name: String,
    pub is_dir: bool,
    pub size: u64,
}

/// The browser's folder, its arranged listing and the cursor.
pub struct FileBrowser {
    pub current_path: std::path::PathBuf,
    pub entries: Vec<FileEntry>,
    pub selected_index: usize,
    pub show_hidden: bool,
}

/// `Path::eq`: equal paths compare equal. Paths that differ as values may
/// compare equal too (`a//b` and `a/b`); when they do is not stated.
#[verifier::external_body]
pub(crate) fn path_eq(a: &std::path::PathBuf, b: &std::path::PathBuf) -> (r: bool)
    ensures
        *a == *b ==> r,
{
    a == b
}

/// Seconds between two readings of the current folder.
pub const REFRESH_INTERVAL_SECS: u64 = 2;

/// `a` sorts before or with `b`, comparing characters by code point (the
/// order of their UTF-8 bytes).
pub open spec fn chars_le(a: Seq<char>, b: Seq<char>) -> bool
    decreases a.len(),
{
    if a.len() == 0 {
        true
    } else if b.len() == 0 {
        false
    } else if a[0] != b[0] {
        a[0] < b[0]
    } else {
        chars_le(a.drop_first(), b.drop_first())
    }
}

/// The listing order: files before folders, then by lower-cased name.
pub open spec fn entry_le(a: FileEntry, b: FileEntry) -> bool {
    (!a.is_dir && b.is_dir) || (a.is_dir == b.is_dir && chars_le(
        lowercase(a.name@),
        lowercase(b.name@),
    ))
}

pub open spec fn sorted_entries(s: Seq<FileEntry>) -> bool {
    forall|i: int, j: int| 0 <= i < j < s.len() ==> entry_le(#[trigger] s[i], #[trigger] s[j])
}

/// A name starting with a dot is hidden.
pub open spec fn is_hidden(e: FileEntry) -> bool {
    e.name@.len() > 0 && e.name@[0] == '.'
}

/// The entries shown: all of them, or the ones not hidden.
pub open spec fn visible(s: Seq<FileEntry>, include_hidden: bool) -> Seq<FileEntry>
    decreases s.len(),
{
    if s.len() == 0 {
        s
    } else if include_hidden || !is_hidden(s.last()) {
        visible(s.drop_last(), include_hidden).push(s.last())
    } else {
        visible(s.drop_last(), include_hidden)
    }
}

pub proof fn lemma_chars_le_total(a: Seq<char>, b: Seq<char>)
    ensures
        chars_le(a, b) || chars_le(b, a),
    decreases a.len(),
{
    if a.len() > 0 && b.len() > 0 && a[0] == b[0] {
        lemma_chars_le_total(a.drop_first(), b.drop_first());
    }
}

pub proof fn lemma_chars_le_transitive(a: Seq<char>, b: Seq<char>, c: Seq<char>)
    requires
        chars_le(a, b),
        chars_le(b, c),
    ensures
        chars_le(a, c),
    decreases a.len(),
{
    if a.len() > 0 && b.len() > 0 && c.len() > 0 && a[0] == b[0] && b[0] == c[0] {
        lemma_chars_le_transitive(a.drop_first(), b.drop_first(), c.drop_first());
    }
}

pub proof fn lemma_entry_le_total(a: FileEntry, b: FileEntry)
    ensures
        entry_le(a, b) || entry_le(b, a),
{
    lemma_chars_le_total(lowercase(a.name@), lowercase(b.name@));
}

pub proof fn lemma_entry_le_transitive(a: FileEntry, b: FileEntry, c: FileEntry)
    requires
        entry_le(a, b),
        entry_le(b, c),
    ensures
        entry_le(a, c),
{
    if a.is_dir == b.is_dir && b.is_dir == c.is_dir {
        lemma_chars_le_transitive(lowercase(a.name@), lowercase(b.name@), lowercase(c.name@));
    }
}

/// Entries of equal rank: neither goes strictly before the other.
pub open spec fn same_rank(a: FileEntry, b: FileEntry) -> bool {
    entry_le(a, b) && entry_le(b, a)
}

/// The entries of `s` that rank with `e`, in their order in `s`.
pub open spec fn rank_class(s: Seq<FileEntry>, e: FileEntry) -> Seq<FileEntry> {
    s.filter(|y: FileEntry| same_rank(y, e))
}

/// Inserting `x` in front of entries that all go strictly after it adds `x`
/// at the end of its own rank class and leaves the other classes alone.
proof fn lemma_rank_class_insert(before: Seq<FileEntry>, j: int, x: FileEntry, e: FileEntry)
    requires
        0 <= j <= before.len(),
        forall|m: int| j <= m < before.len() ==> !entry_le(#[trigger] before[m], x),
    ensures
        rank_class(before.insert(j, x), e) == (if same_rank(x, e) {
            rank_class(before, e).push(x)
        } else {
            rank_class(before, e)
        }),
{
    let p = |y: FileEntry| same_rank(y, e);
    let a = before.take(j);
    let b = before.skip(j);
    let one = Seq::<FileEntry>::empty().push(x);
    assert(before =~= a + b);
    assert(before.insert(j, x) =~= (a + one) + b);
    Seq::filter_distributes_over_add(a + one, b, p);
    Seq::filter_distributes_over_add(a, one, p);
    Seq::filter_distributes_over_add(a, b, p);
    Seq::<FileEntry>::empty().lemma_filter_push(x, p);
    assert(Seq::<FileEntry>::empty().filter(p) =~= Seq::<FileEntry>::empty()) by {
        reveal(Seq::filter);
    }
    if same_rank(x, e) {
        assert forall|m: int| 0 <= m < b.len() implies !same_rank(#[trigger] b[m], e) by {
            if same_rank(b[m], e) {
                lemma_entry_le_transitive(b[m], e, x);
                assert(before[j + m] == b[m]);
            }
        }
        assert(b.all(|y: FileEntry| !p(y)));
        b.lemma_all_neg_filter_empty(p);
        assert(b.filter(p) =~= Seq::<FileEntry>::empty());
        assert(rank_class(before.insert(j, x), e) =~= a.filter(p).push(x));
        assert(rank_class(before, e) =~= a.filter(p));
    } else {
        assert(rank_class(before.insert(j, x), e) =~= a.filter(p) + b.filter(p));
    }
}

fn chars_le_exec(a: &[char], b: &[char]) -> (r: bool)
    ensures
        r == chars_le(a@, b@),
{
    let mut i: usize = 0;
    proof {
        assert(a@.skip(0) =~= a@);
        assert(b@.skip(0) =~= b@);
    }
    while i < a.len() && i < b.len() && a[i] == b[i]
        invariant
            i <= a@.len(),
            i <= b@.len(),
            chars_le(a@, b@) == chars_le(a@.skip(i as int), b@.skip(i as int)),
        decreases a@.len() - i,
    {
        proof {
            assert(a@.skip(i as int).drop_first() =~= a@.skip(i + 1));
            assert(b@.skip(i as int).drop_first() =~= b@.skip(i + 1));
        }
        i = i + 1;
    }
    if i == a.len() {
        true
    } else if i == b.len() {
        false
    } else {
        a[i] < b[i]
    }
}

/// Whether `a` goes before or with `b` in a listing.
fn entry_le_exec(a: &FileEntry, b: &FileEntry) -> (r: bool)
    ensures
        r == entry_le(*a, *b),
{
    if a.is_dir != b.is_dir {
        return !a.is_dir;
    }
    let la = to_lowercase(a.name.as_str());
    let lb = to_lowercase(b.name.as_str());
    let ca = to_chars(la.as_str());
    let cb = to_chars(lb.as_str());
    chars_le_exec(ca.as_slice(), cb.as_slice())
}

/// Sorts a listing in listing order, keeping entries of equal rank in
/// their given order.
pub fn sort_entries(v: Vec<FileEntry>) -> (r: Vec<FileEntry>)
    ensures
        sorted_entries(r@),
        r@.to_multiset() == v@.to_multiset(),
        forall|e: FileEntry| #[trigger] rank_class(r@, e) == rank_class(v@, e),
{
    broadcast use vstd::seq_lib::group_to_multiset_ensures;

    let ghost all = v@;
    let mut rest = v;
    let mut out: Vec<FileEntry> = Vec::new();
    let mut k: usize = 0;
    let _n = rest.len();
    proof {
        assert(all.take(0) =~= Seq::<FileEntry>::empty());
        assert(all.skip(0) =~= all);
    }
    while rest.len() > 0
        invariant
            k <= all.len(),
            all.len() <= usize::MAX,
            rest@ == all.skip(k as int),
            sorted_entries(out@),
            out@.to_multiset() == all.take(k as int).to_multiset(),
            forall|e: FileEntry| #[trigger] rank_class(out@, e) == rank_class(all.take(k as int), e),
        decreases rest@.len(),
    {
        let x = rest.remove(0);
        proof {
            assert(all.skip(k as int)[0] == x);
            assert(rest@ =~= all.skip(k + 1));
            assert(all.take(k + 1) =~= all.take(k as int).push(x));
        }
        let mut j = out.len();
        while j > 0 && !entry_le_exec(&out[j - 1], &x)
            invariant
                j <= out@.len(),
                sorted_entries(out@),
                forall|m: int| j <= m < out@.len() ==> !entry_le(#[trigger] out@[m], x),
            decreases j,
        {
            j = j - 1;
        }
        let ghost before = out@;
        proof {
            assert forall|m: int| 0 <= m < j implies entry_le(#[trigger] before[m], x) by {
                if m < j - 1 {
                    lemma_entry_le_transitive(before[m], before[j - 1], x);
                }
            }
            assert forall|m: int| j <= m < before.len() implies entry_le(x, #[trigger] before[m]) by {
                lemma_entry_le_total(before[m], x);
            }
        }
        out.insert(j, x);
        proof {
            let after = out@;
            assert(after =~= before.insert(j as int, x));
            assert forall|a: int, b: int| 0 <= a < b < after.len() implies entry_le(
                #[trigger] after[a],
                #[trigger] after[b],
            ) by {
                if a < j && b < j {
                    assert(entry_le(before[a], before[b]));
                } else if a < j && b == j {
                } else if a < j && b > j {
                    assert(entry_le(before[a], before[b - 1]));
                } else if a == j {
                } else {
                    assert(entry_le(before[a - 1], before[b - 1]));
                }
            }
            vstd::seq_lib::to_multiset_insert(before, j as int, x);
            vstd::seq_lib::to_multiset_build(all.take(k as int), x);
            assert forall|e: FileEntry| #[trigger] rank_class(after, e) == rank_class(
                all.take(k + 1),
                e,
            ) by {
                lemma_rank_class_insert(before, j as int, x, e);
                all.take(k as int).lemma_filter_push(x, |y: FileEntry| same_rank(y, e));
            }
        }
        k = k + 1;
    }
    proof {
        assert(all.take(k as int) =~= all);
    }
    out
}

fn is_hidden_exec(e: &FileEntry) -> (r: bool)
    ensures
        r == is_hidden(*e),
{
    let cs = to_chars(e.name.as_str());
    cs.len() > 0 && cs[0] == '.'
}

/// The listing shown for a folder: the way up first when the folder has a
/// parent, then the entries (all, or only those not hidden) in listing
/// order.
pub fn arrange_listing(parent: Option<std::path::PathBuf>, listing: Vec<FileEntry>, include_hidden: bool) -> (r: Vec<FileEntry>)
    ensures
        ({
            let up = if parent is Some { 1int } else { 0int };
            &&& r@.len() == up + visible(listing@, include_hidden).len()
            &&& (parent matches Some(p) ==> r@[0].path == p && r@[0].name@ == ".."@ && r@[0].is_dir
                && r@[0].size == 0)
            &&& sorted_entries(r@.skip(up))
            &&& r@.skip(up).to_multiset() == visible(listing@, include_hidden).to_multiset()
            &&& forall|e: FileEntry| #[trigger] rank_class(r@.skip(up), e) == rank_class(
                visible(listing@, include_hidden),
                e,
            )
        }),
{
    let ghost all = listing@;
    let mut rest = listing;
    let mut kept: Vec<FileEntry> = Vec::new();
    let mut k: usize = 0;
    let _n = rest.len();
    proof {
        assert(all.take(0) =~= Seq::<FileEntry>::empty());
        assert(all.skip(0) =~= all);
    }
    while rest.len() > 0
        invariant
            k <= all.len(),
            all.len() <= usize::MAX,
            rest@ == all.skip(k as int),
            kept@ == visible(all.take(k as int), include_hidden),
        decreases rest@.len(),
    {
        let e = rest.remove(0);
        proof {
            assert(all.skip(k as int)[0] == e);
            assert(rest@ =~= all.skip(k + 1));
            assert(all.take(k + 1).drop_last() =~= all.take(k as int));
            assert(all.take(k + 1).last() == e);
        }
        if include_hidden || !is_hidden_exec(&e) {
            kept.push(e);
        }
        k = k + 1;
    }
    proof {
        assert(all.take(k as int) =~= all);
    }
    let sorted = sort_entries(kept);
    proof {
        vstd::seq_lib::to_multiset_len(sorted@);
        vstd::seq_lib::to_multiset_len(visible(all, include_hidden));
    }
    match parent {
        Some(p) => {
            let mut r: Vec<FileEntry> = Vec::new();
            r.push(FileEntry { path: p, name: String::from_str(".."), is_dir: true, size: 0 });
            let ghost head = r@;
            let mut s = sorted;
            r.append(&mut s);
            proof {
                reveal_strlit("..");
                assert(r@.skip(1) =~= sorted@);
            }
            r
        },
        None => {
            proof {
                assert(sorted@.skip(0) =~= sorted@);
            }
            sorted
        },
    }
}

impl FileBrowser {
    /// A browser on `path` with its arranged listing, the cursor on the
    /// first entry and hidden entries left out.
    pub fn from_listing(path: std::path::PathBuf, entries: Vec<FileEntry>) -> (r: Self)
        ensures
            r.current_path == path,
            r.entries == entries,
            r.selected_index == 0,
            !r.show_hidden,
    {
        FileBrowser { current_path: path, entries, selected_index: 0, show_hidden: false }
    }

    /// Moves the cursor down, stopping at the last entry.
    pub fn navigate_down(&mut self)
        ensures
            final(self).selected_index == if old(self).selected_index + 1 < old(self).entries@.len() {
                old(self).selected_index + 1
            } else {
                old(self).selected_index as int
            },
            final(self).entries == old(self).entries,
            final(self).current_path == old(self).current_path,
            final(self).show_hidden == old(self).show_hidden,
    {
        let last = if self.entries.len() > 0 {
            self.entries.len() - 1
        } else {
            0
        };
        if self.selected_index < last {
            self.selected_index = self.selected_index + 1;
        }
    }

    /// Moves the cursor up, stopping at the first entry.
    pub fn navigate_up(&mut self)
        ensures
            final(self).selected_index == if old(self).selected_index > 0 {
                old(self).selected_index - 1
            } else {
                0
            },
            final(self).entries == old(self).entries,
            final(self).current_path == old(self).current_path,
            final(self).show_hidden == old(self).show_hidden,
    {
        if self.selected_index > 0 {
            self.selected_index = self.selected_index - 1;
        }
    }

    /// The entry under the cursor.
    pub fn selected_entry(&self) -> (r: Option<&FileEntry>)
        ensures
            self.selected_index < self.entries@.len() ==> r == Some(&self.entries@[self.selected_index as int]),
            self.selected_index >= self.entries@.len() ==> r is None,
    {
        if self.selected_index < self.entries.len() {
            Some(&self.entries[self.selected_index])
        } else {
            None
        }
    }

    /// The folder entering the entry under the cursor leads to: that
    /// entry, when it is a folder.
    pub fn enter_target(&self) -> (r: Option<&std::path::PathBuf>)
        ensures
            (self.selected_index < self.entries@.len() && self.entries@[self.selected_index as int].is_dir)
                ==> r == Some(&self.entries@[self.selected_index as int].path),
            !(self.selected_index < self.entries@.len() && self.entries@[self.selected_index as int].is_dir)
                ==> r is None,
    {
        if self.selected_index < self.entries.len() && self.entries[self.selected_index].is_dir {
            Some(&self.entries[self.selected_index].path)
        } else {
            None
        }
    }

    /// The folder going up leads to: the entry under the cursor, when it is
    /// the way up.
    pub fn go_up_target(&self) -> (r: Option<&std::path::PathBuf>)
        ensures
            (self.selected_index < self.entries@.len() && self.entries@[self.selected_index as int].name@
                == ".."@) ==> r == Some(&self.entries@[self.selected_index as int].path),
            !(self.selected_index < self.entries@.len() && self.entries@[self.selected_index as int].name@
                == ".."@) ==> r is None,
    {
        if self.selected_index < self.entries.len() && str_eq(
            self.entries[self.selected_index].name.as_str(),
            "..",
        ) {
            Some(&self.entries[self.selected_index].path)
        } else {
            None
        }
    }

    /// Shows a folder: its path, its listing, the cursor on the first entry.
    pub fn open_folder(&mut self, path: std::path::PathBuf, entries: Vec<FileEntry>)
        ensures
            final(self).current_path == path,
            final(self).entries == entries,
            final(self).selected_index == 0,
            final(self).show_hidden == old(self).show_hidden,
    {
        self.current_path = path;
        self.entries = entries;
        self.selected_index = 0;
    }

    /// Flips whether hidden entries are shown and shows the listing read
    /// with the new choice, the cursor on the first entry.
    pub fn toggle_hidden(&mut self, entries: Vec<FileEntry>)
        ensures
            final(self).show_hidden == !old(self).show_hidden,
            final(self).entries == entries,
            final(self).selected_index == 0,
            final(self).current_path == old(self).current_path,
    {
        self.show_hidden = !self.show_hidden;
        self.entries = entries;
        self.selected_index = 0;
    }
}


// ---------------------------------------------------------------------------
// Favourite folders
// ---------------------------------------------------------------------------

/// The favourite folders, the cursor in their list, and whether that list
/// is shown in place of the folder listing. Saving them is the caller's.
pub struct Favourites {
    pub folders: Vec<std::path::PathBuf>,
    pub cursor: usize,
    pub browsing: bool,
}

/// `v` clamped into `lo..=hi`.
pub open spec fn clamp_int(v: int, lo: int, hi: int) -> int {
    if v < lo {
        lo
    } else if v > hi {
        hi
    } else {
        v
    }
}

impl Favourites {
    pub fn new(folders: Vec<std::path::PathBuf>) -> (r: Self)
        ensures
            r.folders == folders,
            r.cursor == 0,
            !r.browsing,
    {
        Favourites { folders, cursor: 0, browsing: false }
    }

    /// Adds `folder`, or removes the entry at `first_equal`: the first entry
    /// that compares equal to `folder`, when there is one. Returns whether
    /// `folder` was added.
    pub fn toggle_at(&mut self, folder: std::path::PathBuf, first_equal: Option<usize>) -> (added: bool)
        requires
            first_equal matches Some(i) ==> i < old(self).folders@.len(),
        ensures
            added == (first_equal is None),
            first_equal is None ==> final(self).folders@ == old(self).folders@.push(folder),
            first_equal matches Some(i) ==> final(self).folders@ == old(self).folders@.remove(i as int),
            final(self).cursor == old(self).cursor,
            final(self).browsing == old(self).browsing,
    {
        match first_equal {
            Some(i) => {
                self.folders.remove(i);
                false
            },
            None => {
                self.folders.push(folder);
                true
            },
        }
    }

    /// The position of the first entry that compares equal to `folder`
    /// (`Path::eq`), if any.
    fn find_equal(&self, folder: &std::path::PathBuf) -> (r: Option<usize>)
        ensures
            r matches Some(i) ==> i < self.folders@.len() && forall|j: int|
                0 <= j < i ==> #[trigger] self.folders@[j] != *folder,
            r is None ==> forall|j: int| 0 <= j < self.folders@.len() ==> #[trigger] self.folders@[j] != *folder,
    {
        let mut i: usize = 0;
        while i < self.folders.len()
            invariant
                i <= self.folders@.len(),
                forall|j: int| 0 <= j < i ==> #[trigger] self.folders@[j] != *folder,
            decreases self.folders@.len() - i,
        {
            if path_eq(&self.folders[i], folder) {
                return Some(i);
            }
            i = i + 1;
        }
        None
    }

    /// Removes the first favourite equal to `folder`, or adds `folder` when
    /// there is none; returns whether it was added. Equal paths always
    /// match, so a folder already held is removed.
    pub fn toggle(&mut self, folder: std::path::PathBuf) -> (added: bool)
        ensures
            old(self).folders@.contains(folder) ==> !added,
            added ==> final(self).folders@ == old(self).folders@.push(folder),
            added ==> forall|i: int|
                0 <= i < old(self).folders@.len() ==> #[trigger] old(self).folders@[i] != folder,
            !added ==> exists|i: int|
                0 <= i < old(self).folders@.len() && final(self).folders@ == old(self).folders@.remove(i)
                    && forall|j: int| 0 <= j < i ==> #[trigger] old(self).folders@[j] != folder,
            final(self).cursor == old(self).cursor,
            final(self).browsing == old(self).browsing,
    {
        let first = self.find_equal(&folder);
        proof {
            if old(self).folders@.contains(folder) {
                let k = choose|k: int| 0 <= k < old(self).folders@.len() && old(self).folders@[k] == folder;
                assert(old(self).folders@[k] == folder);
            }
        }
        self.toggle_at(folder, first)
    }

    /// The status line after `toggle`.
    pub fn toggle_message(added: bool) -> (r: &'static str)
        ensures
            r@ == if added {
                "Added to favourites"@
            } else {
                "Removed from favourites"@
            },
    {
        if added {
            "Added to favourites"
        } else {
            "Removed from favourites"
        }
    }

    /// Moves the cursor by `delta`, kept inside the list; an empty list
    /// has nothing to move over.
    pub fn navigate(&mut self, delta: i64)
        ensures
            old(self).folders@.len() == 0 ==> final(self).cursor == old(self).cursor,
            old(self).folders@.len() > 0 ==> final(self).cursor == clamp_int(
                old(self).cursor + delta,
                0,
                old(self).folders@.len() - 1,
            ),
            final(self).folders == old(self).folders,
            final(self).browsing == old(self).browsing,
    {
        if self.folders.len() == 0 {
            return;
        }
        let last = (self.folders.len() - 1) as i128;
        let target = self.cursor as i128 + delta as i128;
        let next = if target < 0 {
            0
        } else if target > last {
            last
        } else {
            target
        };
        self.cursor = next as usize;
    }

    /// The favourite under the cursor, to be opened; the list view closes.
    pub fn open_selected(&mut self) -> (r: Option<std::path::PathBuf>)
        ensures
            old(self).cursor < old(self).folders@.len() ==> r == Some(
                old(self).folders@[old(self).cursor as int],
            ) && !final(self).browsing,
            old(self).cursor >= old(self).folders@.len() ==> r is None && final(self).browsing
                == old(self).browsing,
            final(self).folders == old(self).folders,
            final(self).cursor == old(self).cursor,
    {
        if self.cursor < self.folders.len() {
            let p = clone_path(&self.folders[self.cursor]);
            self.browsing = false;
            Some(p)
        } else {
            None
        }
    }

    /// Removes the favourite under the cursor and returns it. The cursor
    /// stays inside the list, and the list view closes once it is empty.
    pub fn delete_selected(&mut self) -> (r: Option<std::path::PathBuf>)
        ensures
            old(self).cursor >= old(self).folders@.len() ==> r is None && final(self).folders
                == old(self).folders && final(self).cursor == old(self).cursor && final(self).browsing == old(self).browsing,
            old(self).cursor < old(self).folders@.len() ==> {
                let rest = old(self).folders@.remove(old(self).cursor as int);
                &&& r == Some(old(self).folders@[old(self).cursor as int])
                &&& final(self).folders@ == rest
                &&& final(self).browsing == (old(self).browsing && rest.len() > 0)
                &&& final(self).cursor == if rest.len() > 0 && old(self).cursor >= rest.len() {
                    (rest.len() - 1) as usize
                } else {
                    old(self).cursor
                }
            },
    {
        if self.cursor >= self.folders.len() {
            return None;
        }
        let gone = self.folders.remove(self.cursor);
        if self.folders.len() == 0 {
            self.browsing = false;
        } else if self.cursor >= self.folders.len() {
            self.cursor = self.folders.len() - 1;
        }
        Some(gone)
    }

    /// Switches between the folder listing and the favourites list, and
    /// returns the status line; with no favourites it only says how to add
    /// one.
    pub fn toggle_view(&mut self) -> (r: String)
        ensures
            old(self).browsing ==> !final(self).browsing && final(self).cursor == old(self).cursor
                && r@ == "Folder view"@,
            !old(self).browsing && old(self).folders@.len() == 0 ==> !final(self).browsing
                && final(self).cursor == old(self).cursor && r@
                == "No favourites yet \u{2014} press [F] to add the current folder"@,
            !old(self).browsing && old(self).folders@.len() > 0 ==> final(self).browsing
                && final(self).cursor == 0 && r@
                == "Favourites view (press [f] or [Esc] to return)"@,
            final(self).folders == old(self).folders,
    {
        if self.browsing {
            self.browsing = false;
            owned("Folder view")
        } else if self.folders.len() == 0 {
            owned("No favourites yet \u{2014} press [F] to add the current folder")
        } else {
            self.browsing = true;
            self.cursor = 0;
            owned("Favourites view (press [f] or [Esc] to return)")
        }
    }
}

} // verus!

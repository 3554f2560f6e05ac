//! The media pool and the render queue: clips are imported into the pool,
//! selected, added to the queue without repeating a path, and rendered one
//! after another. Each entry carries the caller's clip information `I`,
//! which the workflow only clones.

use vstd::prelude::*;
use crate::session::QueueStatus;
use crate::text::{decimal, decimal_string, owned, push_str, str_eq};

verus! {

broadcast use vstd::string::group_string_axioms;

/// A clip in the media pool.
pub struct ImportedFile<I> {
    pub path: String,
    pub info: I,
    pub selected: bool,
    pub first_timestamp: i64,
}

/// A clip in the render queue. The fraction rendered is kept as the bit
/// pattern of an `f64` in `progress_bits`.
pub struct QueuedFile<I> {
    pub path: String,
    pub info: I,
    pub selected: bool,
    pub status: QueueStatus,
    pub progress_bits: u64,
}

/// The media pool, the render queue, their cursors and the status line.
pub struct RenderWorkflow<I> {
    pub imported_files: Vec<ImportedFile<I>>,
    pub media_pool_index: usize,
    pub queue: Vec<QueuedFile<I>>,
    pub queue_index: usize,
    /// The queue entry being rendered.
    pub current_rendering_index: Option<usize>,
    pub status_message: String,
}

pub open spec fn queue_paths<I>(q: Seq<QueuedFile<I>>) -> Seq<Seq<char>> {
    q.map_values(|x: QueuedFile<I>| x.path@)
}

/// Paths of the clips of the pool, in order: every clip, or only the
/// selected ones.
pub open spec fn pool_paths<I>(f: Seq<ImportedFile<I>>, only_selected: bool) -> Seq<Seq<char>>
    decreases f.len(),
{
    if f.len() == 0 {
        Seq::empty()
    } else if f.last().selected || !only_selected {
        pool_paths(f.drop_last(), only_selected).push(f.last().path@)
    } else {
        pool_paths(f.drop_last(), only_selected)
    }
}

/// `known` followed by each candidate that is not yet among them.
pub open spec fn extend_unique(known: Seq<Seq<char>>, cands: Seq<Seq<char>>) -> Seq<Seq<char>>
    decreases cands.len(),
{
    if cands.len() == 0 {
        known
    } else {
        let k = extend_unique(known, cands.drop_last());
        if k.contains(cands.last()) {
            k
        } else {
            k.push(cands.last())
        }
    }
}

/// A fresh queue entry for a pool clip: selected, waiting, nothing done.
pub open spec fn fresh_entry<I>(q: QueuedFile<I>) -> bool {
    q.selected && q.status == QueueStatus::Waiting && q.progress_bits == 0
}

/// The queue entries past `from` are fresh entries of clips of `files`
/// (selected ones only, when `only_selected`).
pub open spec fn entries_from_pool<I: Clone>(
    q: Seq<QueuedFile<I>>,
    from: int,
    files: Seq<ImportedFile<I>>,
    only_selected: bool,
) -> bool {
    forall|i: int|
        from <= i < q.len() ==> fresh_entry(#[trigger] q[i]) && exists|j: int|
            0 <= j < files.len() && (files[j].selected || !only_selected) && files[j].path
                == q[i].path && cloned(files[j].info, q[i].info)
}


/// The text after the last `sep` of a path: its file name.
pub open spec fn last_component(p: Seq<char>, sep: char) -> Seq<char>
    decreases p.len(),
{
    if p.len() == 0 {
        p
    } else if p.last() == sep {
        Seq::empty()
    } else {
        last_component(p.drop_last(), sep).push(p.last())
    }
}

/// The clips that are not selected, in order.
pub open spec fn unselected_files<I>(f: Seq<ImportedFile<I>>) -> Seq<ImportedFile<I>>
    decreases f.len(),
{
    if f.len() == 0 {
        f
    } else if f.last().selected {
        unselected_files(f.drop_last())
    } else {
        unselected_files(f.drop_last()).push(f.last())
    }
}

/// The queue entries that are not selected, in order.
pub open spec fn unselected_entries<I>(q: Seq<QueuedFile<I>>) -> Seq<QueuedFile<I>>
    decreases q.len(),
{
    if q.len() == 0 {
        q
    } else if q.last().selected {
        unselected_entries(q.drop_last())
    } else {
        unselected_entries(q.drop_last()).push(q.last())
    }
}

pub open spec fn is_finished(st: QueueStatus) -> bool {
    st is Completed || st is Failed
}

/// The queue entries neither completed nor failed, in order.
pub open spec fn unfinished_entries<I>(q: Seq<QueuedFile<I>>) -> Seq<QueuedFile<I>>
    decreases q.len(),
{
    if q.len() == 0 {
        q
    } else if is_finished(q.last().status) {
        unfinished_entries(q.drop_last())
    } else {
        unfinished_entries(q.drop_last()).push(q.last())
    }
}

/// Number of selected queue entries (that have completed, when
/// `completed_only`).
pub open spec fn selected_count<I>(q: Seq<QueuedFile<I>>, completed_only: bool) -> nat
    decreases q.len(),
{
    if q.len() == 0 {
        0
    } else {
        selected_count(q.drop_last(), completed_only) + if q.last().selected && (!completed_only
            || q.last().status is Completed) {
            1nat
        } else {
            0nat
        }
    }
}

/// The first selected queue entry at or after `from`, waiting to render
/// when `waiting_only`.
pub open spec fn next_selected<I>(q: Seq<QueuedFile<I>>, from: int, waiting_only: bool) -> Option<int>
    decreases q.len() - from,
{
    if from < 0 || from >= q.len() {
        None
    } else if q[from].selected && (!waiting_only || q[from].status is Waiting) {
        Some(from)
    } else {
        next_selected(q, from + 1, waiting_only)
    }
}

/// The cursor kept inside a list of `len` entries.
pub open spec fn clamp_cursor(index: usize, len: nat) -> usize {
    if len > 0 && index >= len {
        (len - 1) as usize
    } else {
        index
    }
}

/// Bit pattern of the `f64` 100.0, the progress of a finished entry.
pub const PROGRESS_DONE_BITS: u64 = 0x4059_0000_0000_0000;

/// `n` in at least two digits, as `{:02}` writes it.
pub open spec fn two_digits(n: nat) -> Seq<char> {
    if n < 10 {
        "0"@ + decimal(n)
    } else {
        decimal(n)
    }
}


/// The queue after an export ended: the entry rendered is done, and waits
/// again when the export was cancelled, else completed or failed.
pub open spec fn marked_queue<I>(
    q: Seq<QueuedFile<I>>,
    current: Option<usize>,
    cancelled: bool,
    result: Result<(), String>,
) -> Seq<QueuedFile<I>> {
    match current {
        Some(k) => if k < q.len() {
            q.update(
                k as int,
                QueuedFile {
                    progress_bits: PROGRESS_DONE_BITS,
                    status: if cancelled {
                        QueueStatus::Waiting
                    } else {
                        match result {
                            Ok(_) => QueueStatus::Completed,
                            Err(e) => QueueStatus::Failed(e),
                        }
                    },
                    ..q[k as int]
                },
            )
        } else {
            q
        },
        None => q,
    }
}

/// The status line after an export that was not cancelled.
pub open spec fn export_done_message(result: Result<(), String>, elapsed_secs: u64) -> Seq<char> {
    match result {
        Ok(_) => "Video export completed ("@ + two_digits((elapsed_secs / 60) as nat) + "m "@
            + two_digits((elapsed_secs % 60) as nat) + "s)"@,
        Err(e) => "Export failed: "@ + e@,
    }
}

/// `a`, the number `n` and `b`.
fn numbered(a: &str, n: u64, b: &str) -> (r: String)
    ensures
        r@ == a@ + decimal(n as nat) + b@,
{
    let mut s = owned(a);
    let d = decimal_string(n);
    push_str(&mut s, d.as_str());
    push_str(&mut s, b);
    s
}


pub(crate) fn last_component_of(p: &str, sep: char) -> (r: String)
    ensures
        r@ == last_component(p@, sep),
{
    let cs = crate::text::to_chars(p);
    let mut start: usize = cs.len();
    while start > 0 && cs[start - 1] != sep
        invariant
            start <= cs@.len(),
            cs@ == p@,
            forall|k: int| start <= k < cs@.len() ==> cs@[k] != sep,
        decreases start,
    {
        start = start - 1;
    }
    proof {
        lemma_last_component(cs@, sep, start as int);
    }
    let mut r = String::new();
    crate::metadata::push_chars(&mut r, cs.as_slice(), start, cs.len());
    proof {
        assert(r@ =~= cs@.subrange(start as int, cs@.len() as int));
    }
    r
}

proof fn lemma_last_component(p: Seq<char>, sep: char, start: int)
    requires
        0 <= start <= p.len(),
        start == 0 || p[start - 1] == sep,
        forall|k: int| start <= k < p.len() ==> p[k] != sep,
    ensures
        last_component(p, sep) == p.subrange(start, p.len() as int),
    decreases p.len(),
{
    if p.len() == 0 {
    } else if start == p.len() {
        assert(p.last() == sep);
        assert(p.subrange(start, p.len() as int) =~= Seq::<char>::empty());
    } else {
        let q = p.drop_last();
        assert forall|k: int| start <= k < q.len() implies q[k] != sep by {
            assert(q[k] == p[k]);
        }
        if start > 0 {
            assert(q[start - 1] == p[start - 1]);
        }
        lemma_last_component(q, sep, start);
        assert(p.subrange(start, p.len() as int) =~= q.subrange(start, q.len() as int).push(p.last()));
    }
}

/// `n` in at least two digits.
pub(crate) fn two_digit_string(n: u64) -> (r: String)
    ensures
        r@ == two_digits(n as nat),
{
    let d = decimal_string(n);
    if n < 10 {
        let mut s = owned("0");
        push_str(&mut s, d.as_str());
        s
    } else {
        d
    }
}


fn keep_unselected_files<I>(v: Vec<ImportedFile<I>>) -> (r: Vec<ImportedFile<I>>)
    ensures
        r@ == unselected_files(v@),
{
    let ghost all = v@;
    let mut rest = v;
    let mut kept: Vec<ImportedFile<I>> = Vec::new();
    let mut k: usize = 0;
    let _n = rest.len();
    proof {
        assert(all.take(0) =~= Seq::<ImportedFile<I>>::empty());
        assert(all.skip(0) =~= all);
    }
    while rest.len() > 0
        invariant
            k <= all.len(),
            all.len() <= usize::MAX,
            rest@ == all.skip(k as int),
            kept@ == unselected_files(all.take(k as int)),
        decreases rest@.len(),
    {
        let f = rest.remove(0);
        proof {
            assert(all.skip(k as int)[0] == f);
            assert(rest@ =~= all.skip(k + 1));
            assert(all.take(k + 1).drop_last() =~= all.take(k as int));
            assert(all.take(k + 1).last() == f);
        }
        if !f.selected {
            kept.push(f);
        }
        k = k + 1;
    }
    proof {
        assert(all.take(k as int) =~= all);
    }
    kept
}

fn keep_entries<I>(v: Vec<QueuedFile<I>>, unfinished: bool) -> (r: Vec<QueuedFile<I>>)
    ensures
        r@ == if unfinished {
            unfinished_entries(v@)
        } else {
            unselected_entries(v@)
        },
{
    let ghost all = v@;
    let mut rest = v;
    let mut kept: Vec<QueuedFile<I>> = Vec::new();
    let mut k: usize = 0;
    let _n = rest.len();
    proof {
        assert(all.take(0) =~= Seq::<QueuedFile<I>>::empty());
        assert(all.skip(0) =~= all);
    }
    while rest.len() > 0
        invariant
            k <= all.len(),
            all.len() <= usize::MAX,
            rest@ == all.skip(k as int),
            kept@ == if unfinished {
                unfinished_entries(all.take(k as int))
            } else {
                unselected_entries(all.take(k as int))
            },
        decreases rest@.len(),
    {
        let q = rest.remove(0);
        proof {
            assert(all.skip(k as int)[0] == q);
            assert(rest@ =~= all.skip(k + 1));
            assert(all.take(k + 1).drop_last() =~= all.take(k as int));
            assert(all.take(k + 1).last() == q);
        }
        let drop = if unfinished {
            matches!(q.status, QueueStatus::Completed) || matches!(q.status, QueueStatus::Failed(_))
        } else {
            q.selected
        };
        if !drop {
            kept.push(q);
        }
        k = k + 1;
    }
    proof {
        assert(all.take(k as int) =~= all);
    }
    kept
}

/// The selected clips and the others make up the pool.
pub proof fn lemma_unselected_len<I>(f: Seq<ImportedFile<I>>)
    ensures
        unselected_files(f).len() + pool_paths(f, true).len() == f.len(),
    decreases f.len(),
{
    if f.len() > 0 {
        lemma_unselected_len(f.drop_last());
    }
}

pub proof fn lemma_unselected_entries_len<I>(q: Seq<QueuedFile<I>>)
    ensures
        unselected_entries(q).len() + selected_count(q, false) == q.len(),
    decreases q.len(),
{
    if q.len() > 0 {
        lemma_unselected_entries_len(q.drop_last());
    }
}

pub proof fn lemma_unfinished_len<I>(q: Seq<QueuedFile<I>>)
    ensures
        unfinished_entries(q).len() <= q.len(),
    decreases q.len(),
{
    if q.len() > 0 {
        lemma_unfinished_len(q.drop_last());
    }
}

/// The pool after flipping the selection of the clip under the cursor.
pub open spec fn toggle_pool_result<I: Clone>(o: RenderWorkflow<I>, n: RenderWorkflow<I>) -> bool {
    &&& n.imported_files@.len() == o.imported_files@.len()
    &&& forall|i: int|
        0 <= i < o.imported_files@.len() && i != o.media_pool_index
            ==> #[trigger] n.imported_files@[i] == o.imported_files@[i]
    &&& o.media_pool_index < o.imported_files@.len() ==> {
        let k = o.media_pool_index as int;
        let f = o.imported_files@[k];
        n.imported_files@[k] == (ImportedFile { selected: !f.selected, ..f })
    }
    &&& n.queue == o.queue
    &&& n.media_pool_index == o.media_pool_index
    &&& n.queue_index == o.queue_index
    &&& n.current_rendering_index == o.current_rendering_index
    &&& n.status_message == o.status_message
}

/// The queue after flipping the selection of the entry under the cursor.
pub open spec fn toggle_queue_result<I: Clone>(o: RenderWorkflow<I>, n: RenderWorkflow<I>) -> bool {
    &&& n.queue@.len() == o.queue@.len()
    &&& forall|i: int|
        0 <= i < o.queue@.len() && i != o.queue_index ==> #[trigger] n.queue@[i] == o.queue@[i]
    &&& o.queue_index < o.queue@.len() ==> {
        let k = o.queue_index as int;
        let q = o.queue@[k];
        n.queue@[k] == (QueuedFile { selected: !q.selected, ..q })
    }
    &&& n.imported_files == o.imported_files
    &&& n.media_pool_index == o.media_pool_index
    &&& n.queue_index == o.queue_index
    &&& n.current_rendering_index == o.current_rendering_index
    &&& n.status_message == o.status_message
}

/// The pool after selecting every clip, or deselecting all of them when
/// all were selected.
pub open spec fn select_all_result<I: Clone>(o: RenderWorkflow<I>, n: RenderWorkflow<I>) -> bool {
    &&& o.imported_files@.len() == 0 ==> n == o
    &&& o.imported_files@.len() > 0 ==> {
        let all = forall|i: int|
            0 <= i < o.imported_files@.len()
                ==> #[trigger] o.imported_files@[i].selected;
        &&& n.imported_files@.len() == o.imported_files@.len()
        &&& forall|i: int|
            0 <= i < o.imported_files@.len() ==> #[trigger] n.imported_files@[i] == (ImportedFile {
                selected: !all,
                ..o.imported_files@[i]
            })
        &&& n.status_message@ == (if all {
            "Deselected all ("@
        } else {
            "Selected all ("@
        }) + decimal(o.imported_files@.len()) + " files)"@
        &&& n.queue == o.queue
        &&& n.media_pool_index == o.media_pool_index
        &&& n.queue_index == o.queue_index
        &&& n.current_rendering_index == o.current_rendering_index
    }
}

/// The workflow after adding the selected clips to the queue.
pub open spec fn add_selected_result<I: Clone>(o: RenderWorkflow<I>, n: RenderWorkflow<I>) -> bool {
    &&& pool_paths(o.imported_files@, true).len() == 0 ==> {
        &&& n.status_message@
            == "No files selected - use Space to select, then a to add"@
        &&& n.queue@ == o.queue@
    }
    &&& pool_paths(o.imported_files@, true).len() > 0 ==> {
        &&& queue_paths(n.queue@) == extend_unique(
            queue_paths(o.queue@),
            pool_paths(o.imported_files@, true),
        )
        &&& n.status_message@ == "Added "@ + decimal(
            pool_paths(o.imported_files@, true).len(),
        ) + " file(s) to render queue"@
    }
    &&& forall|i: int|
        0 <= i < o.queue@.len() ==> #[trigger] n.queue@[i] == o.queue@[i]
    &&& entries_from_pool(
        n.queue@,
        o.queue@.len() as int,
        o.imported_files@,
        true,
    )
    &&& n.imported_files == o.imported_files
    &&& n.media_pool_index == o.media_pool_index
    &&& n.queue_index == o.queue_index
    &&& n.current_rendering_index == o.current_rendering_index
}

/// The workflow after adding every clip to the queue.
pub open spec fn add_all_result<I: Clone>(o: RenderWorkflow<I>, n: RenderWorkflow<I>) -> bool {
    &&& o.imported_files@.len() == 0 ==> {
        &&& n.status_message@ == "No files in media pool"@
        &&& n.queue@ == o.queue@
    }
    &&& o.imported_files@.len() > 0 ==> {
        &&& queue_paths(n.queue@) == extend_unique(
            queue_paths(o.queue@),
            pool_paths(o.imported_files@, false),
        )
        &&& n.status_message@ == "Added all "@ + decimal(
            o.imported_files@.len(),
        ) + " file(s) to render queue"@
    }
    &&& forall|i: int|
        0 <= i < o.queue@.len() ==> #[trigger] n.queue@[i] == o.queue@[i]
    &&& entries_from_pool(
        n.queue@,
        o.queue@.len() as int,
        o.imported_files@,
        false,
    )
    &&& n.imported_files == o.imported_files
    &&& n.media_pool_index == o.media_pool_index
    &&& n.queue_index == o.queue_index
    &&& n.current_rendering_index == o.current_rendering_index
}

/// The workflow after removing the clip under the cursor from the pool.
pub open spec fn remove_from_pool_result<I: Clone>(o: RenderWorkflow<I>, n: RenderWorkflow<I>, sep: char) -> bool {
    &&& o.imported_files@.len() == 0 ==> n == o
    &&& o.imported_files@.len() > 0 ==> {
        let k = o.media_pool_index as int;
        &&& n.imported_files@ == o.imported_files@.remove(k)
        &&& n.media_pool_index == clamp_cursor(
            o.media_pool_index,
            n.imported_files@.len(),
        )
        &&& n.status_message@ == "Removed "@ + last_component(
            o.imported_files@[k].path@,
            sep,
        ) + " from media pool"@
        &&& n.queue == o.queue
        &&& n.queue_index == o.queue_index
        &&& n.current_rendering_index == o.current_rendering_index
    }
}

/// The workflow after removing the selected clips from the pool.
pub open spec fn remove_selected_result<I: Clone>(o: RenderWorkflow<I>, n: RenderWorkflow<I>) -> bool {
    &&& pool_paths(o.imported_files@, true).len() == 0 ==> {
        &&& n.status_message@ == "No files selected - use Space to select"@
        &&& n == (RenderWorkflow {
            status_message: n.status_message,
            ..o
        })
    }
    &&& pool_paths(o.imported_files@, true).len() > 0 ==> {
        &&& n.imported_files@ == unselected_files(o.imported_files@)
        &&& n.media_pool_index == clamp_cursor(
            o.media_pool_index,
            n.imported_files@.len(),
        )
        &&& n.status_message@ == "Removed "@ + decimal(
            pool_paths(o.imported_files@, true).len(),
        ) + " selected file(s) from media pool"@
        &&& n.queue == o.queue
        &&& n.queue_index == o.queue_index
        &&& n.current_rendering_index == o.current_rendering_index
    }
}

/// The workflow after removing the selected queue entries, or the one
/// under the cursor when none is selected.
pub open spec fn remove_from_queue_result<I: Clone>(o: RenderWorkflow<I>, n: RenderWorkflow<I>, sep: char) -> bool {
    &&& o.queue@.len() == 0 ==> n == o
    &&& o.queue@.len() > 0 && selected_count(o.queue@, false) > 0 ==> {
        &&& n.queue@ == unselected_entries(o.queue@)
        &&& n.status_message@ == "Removed selected items from queue"@
    }
    &&& o.queue@.len() > 0 && selected_count(o.queue@, false) == 0 ==> {
        let k = o.queue_index as int;
        &&& n.queue@ == o.queue@.remove(k)
        &&& n.status_message@ == "Removed "@ + last_component(
            o.queue@[k].path@,
            sep,
        ) + " from queue"@
    }
    &&& o.queue@.len() > 0 ==> {
        &&& n.queue_index == clamp_cursor(
            o.queue_index,
            n.queue@.len(),
        )
        &&& n.imported_files == o.imported_files
        &&& n.media_pool_index == o.media_pool_index
        &&& n.current_rendering_index == o.current_rendering_index
    }
}

/// The workflow after dropping the finished queue entries.
pub open spec fn clear_completed_result<I: Clone>(o: RenderWorkflow<I>, n: RenderWorkflow<I>) -> bool {
    &&& n.queue@ == unfinished_entries(o.queue@)
    &&& n.queue_index == clamp_cursor(o.queue_index, n.queue@.len())
    &&& n.status_message@ == if n.queue@.len() < o.queue@.len() {
        "Cleared "@ + decimal((o.queue@.len() - n.queue@.len()) as nat)
            + " completed/failed item(s)"@
    } else {
        "No completed/failed items to clear"@
    }
    &&& n.imported_files == o.imported_files
    &&& n.media_pool_index == o.media_pool_index
    &&& n.current_rendering_index == o.current_rendering_index
}

/// The workflow, and the entry to render first (`r`), when the selected
/// queue entries are to be rendered.
pub open spec fn render_selected_result<I: Clone>(o: RenderWorkflow<I>, n: RenderWorkflow<I>, r: Option<usize>) -> bool {
    &&& r matches Some(k) ==> next_selected(o.queue@, 0, false) == Some(k as int) && k
        < o.queue@.len() <= usize::MAX
    &&& r is None ==> next_selected(o.queue@, 0, false) is None
    &&& r is None ==> n.status_message@
        == "No items selected in queue - use Space to select"@
    &&& r is None ==> n.current_rendering_index == o.current_rendering_index
    &&& r is Some ==> n.status_message@ == "Starting render of "@ + decimal(
        selected_count(o.queue@, false),
    ) + " selected file(s)..."@
    &&& r is Some ==> n.current_rendering_index == r
    &&& n.queue == o.queue
    &&& n.imported_files == o.imported_files
    &&& n.media_pool_index == o.media_pool_index
    &&& n.queue_index == o.queue_index
}

/// The workflow, and the entry to render first (`r`), when the whole queue
/// is to be rendered.
pub open spec fn render_all_result<I: Clone>(o: RenderWorkflow<I>, n: RenderWorkflow<I>, r: Option<usize>) -> bool {
    &&& o.queue@.len() == 0 ==> r is None && n.status_message@
        == "Queue is empty"@ && n.queue == o.queue
        && n.current_rendering_index == o.current_rendering_index
    &&& o.queue@.len() > 0 ==> {
        &&& r == Some(0usize)
        &&& n.current_rendering_index == Some(0usize)
        &&& n.queue@.len() == o.queue@.len()
        &&& forall|i: int|
            0 <= i < o.queue@.len() ==> #[trigger] n.queue@[i] == (QueuedFile {
                selected: true,
                ..o.queue@[i]
            })
        &&& n.status_message@ == "Starting render of all "@ + decimal(
            o.queue@.len(),
        ) + " file(s)..."@
    }
    &&& n.imported_files == o.imported_files
    &&& n.media_pool_index == o.media_pool_index
    &&& n.queue_index == o.queue_index
}

impl<I: Clone> RenderWorkflow<I> {
    /// An empty pool and queue.
    pub fn new(status_message: String) -> (r: Self)
        ensures
            r.imported_files@.len() == 0,
            r.queue@.len() == 0,
            r.media_pool_index == 0,
            r.queue_index == 0,
            r.current_rendering_index is None,
            r.status_message == status_message,
    {
        RenderWorkflow {
            imported_files: Vec::new(),
            media_pool_index: 0,
            queue: Vec::new(),
            queue_index: 0,
            current_rendering_index: None,
            status_message,
        }
    }

    /// Flips the selection of the clip under the cursor.
    pub fn toggle_media_pool_selection(&mut self)
        ensures
            toggle_pool_result(*old(self), *final(self)),
    {
        let k = self.media_pool_index;
        if k < self.imported_files.len() {
            let mut f = self.imported_files.remove(k);
            f.selected = !f.selected;
            self.imported_files.insert(k, f);
            proof {
                assert forall|i: int|
                    0 <= i < old(self).imported_files@.len() && i != k implies #[trigger] self.imported_files@[i]
                        == old(self).imported_files@[i] by {
                    if i < k {
                    } else {
                    }
                }
            }
        }
    }

    /// Flips the selection of the queue entry under the cursor.
    pub fn toggle_queue_selection(&mut self)
        ensures
            toggle_queue_result(*old(self), *final(self)),
    {
        let k = self.queue_index;
        if k < self.queue.len() {
            let mut q = self.queue.remove(k);
            q.selected = !q.selected;
            self.queue.insert(k, q);
            proof {
                assert forall|i: int|
                    0 <= i < old(self).queue@.len() && i != k implies #[trigger] self.queue@[i]
                        == old(self).queue@[i] by {
                    if i < k {
                    } else {
                    }
                }
            }
        }
    }

    /// Selects every clip when any is unselected, else deselects them all.
    pub fn toggle_select_all(&mut self)
        ensures
            select_all_result(*old(self), *final(self)),
    {
        let n = self.imported_files.len();
        if n == 0 {
            return;
        }
        let mut all_selected = true;
        let mut i: usize = 0;
        while i < n
            invariant
                n == self.imported_files@.len(),
                i <= n,
                all_selected == forall|j: int| 0 <= j < i ==> #[trigger] self.imported_files@[j].selected,
            decreases n - i,
        {
            if !self.imported_files[i].selected {
                all_selected = false;
            }
            i = i + 1;
        }
        let ghost before = self.imported_files@;
        let mut j: usize = 0;
        while j < n
            invariant
                n == before.len(),
                j <= n,
                self.imported_files@.len() == n,
                self.queue == old(self).queue,
                self.media_pool_index == old(self).media_pool_index,
                self.queue_index == old(self).queue_index,
                self.current_rendering_index == old(self).current_rendering_index,
                before == old(self).imported_files@,
                forall|k: int|
                    0 <= k < j ==> #[trigger] self.imported_files@[k] == (ImportedFile {
                        selected: !all_selected,
                        ..before[k]
                    }),
                forall|k: int| j <= k < n ==> #[trigger] self.imported_files@[k] == before[k],
            decreases n - j,
        {
            let mut f = self.imported_files.remove(j);
            f.selected = !all_selected;
            self.imported_files.insert(j, f);
            proof {
                assert forall|k: int| 0 <= k < j + 1 implies #[trigger] self.imported_files@[k] == (ImportedFile {
                        selected: !all_selected,
                        ..before[k]
                    }) by {
                    if k < j {
                    } else {
                    }
                }
                assert forall|k: int| j + 1 <= k < n implies #[trigger] self.imported_files@[k] == before[k] by {
                }
            }
            j = j + 1;
        }
        let msg = if all_selected {
            "Deselected all ("
        } else {
            "Selected all ("
        };
        self.status_message = numbered(msg, n as u64, " files)");
    }

    /// Whether some queue entry has this path.
    fn queue_has_path(&self, path: &str) -> (r: bool)
        ensures
            r == queue_paths(self.queue@).contains(path@),
    {
        let mut j: usize = 0;
        while j < self.queue.len()
            invariant
                j <= self.queue@.len(),
                forall|k: int| 0 <= k < j ==> (#[trigger] self.queue@[k]).path@ != path@,
            decreases self.queue@.len() - j,
        {
            if str_eq(self.queue[j].path.as_str(), path) {
                proof {
                    assert(queue_paths(self.queue@)[j as int] == path@);
                }
                return true;
            }
            j = j + 1;
        }
        proof {
            if queue_paths(self.queue@).contains(path@) {
                let k = choose|k: int| 0 <= k < queue_paths(self.queue@).len() && queue_paths(self.queue@)[k] == path@;
                assert(self.queue@[k].path@ == path@);
            }
        }
        false
    }

    /// Appends a fresh entry for each pool clip (each selected one, when
    /// `only_selected`) whose path the queue does not hold yet; gives the
    /// number of clips considered.
    fn enqueue(&mut self, only_selected: bool) -> (count: u64)
        ensures
            count == pool_paths(old(self).imported_files@, only_selected).len(),
            queue_paths(final(self).queue@) == extend_unique(
                queue_paths(old(self).queue@),
                pool_paths(old(self).imported_files@, only_selected),
            ),
            final(self).queue@.len() >= old(self).queue@.len(),
            forall|i: int|
                0 <= i < old(self).queue@.len() ==> #[trigger] final(self).queue@[i] == old(self).queue@[i],
            entries_from_pool(
                final(self).queue@,
                old(self).queue@.len() as int,
                old(self).imported_files@,
                only_selected,
            ),
            final(self).imported_files == old(self).imported_files,
            final(self).media_pool_index == old(self).media_pool_index,
            final(self).queue_index == old(self).queue_index,
            final(self).current_rendering_index == old(self).current_rendering_index,
            final(self).status_message == old(self).status_message,
    {
        let n = self.imported_files.len();
        let ghost files = self.imported_files@;
        let ghost q0 = self.queue@;
        let mut count: u64 = 0;
        let mut i: usize = 0;
        proof {
            assert(files.take(0) =~= Seq::<ImportedFile<I>>::empty());
            assert(queue_paths(self.queue@) =~= extend_unique(queue_paths(q0), pool_paths(files.take(0), only_selected)));
        }
        while i < n
            invariant
                n == files.len(),
                i <= n,
                files == self.imported_files@,
                count == pool_paths(files.take(i as int), only_selected).len(),
                count <= i,
                queue_paths(self.queue@) == extend_unique(
                    queue_paths(q0),
                    pool_paths(files.take(i as int), only_selected),
                ),
                self.queue@.len() >= q0.len(),
                forall|k: int| 0 <= k < q0.len() ==> #[trigger] self.queue@[k] == q0[k],
                entries_from_pool(self.queue@, q0.len() as int, files, only_selected),
                self.imported_files == old(self).imported_files,
                self.media_pool_index == old(self).media_pool_index,
                self.queue_index == old(self).queue_index,
                self.current_rendering_index == old(self).current_rendering_index,
                self.status_message == old(self).status_message,
                q0 == old(self).queue@,
            decreases n - i,
        {
            let ghost c = pool_paths(files.take(i as int), only_selected);
            let ghost c2 = pool_paths(files.take(i + 1), only_selected);
            proof {
                assert(files.take(i + 1).drop_last() =~= files.take(i as int));
                assert(files.take(i + 1).last() == files[i as int]);
                if files[i as int].selected || !only_selected {
                    assert(c2 == c.push(files[i as int].path@));
                    assert(c2.drop_last() =~= c);
                    assert(c2.last() == files[i as int].path@);
                } else {
                    assert(c2 == c);
                }
            }
            if self.imported_files[i].selected || !only_selected {
                count = count + 1;
                let queued = self.queue_has_path(self.imported_files[i].path.as_str());
                if !queued {
                    let path = self.imported_files[i].path.clone();
                    let info = self.imported_files[i].info.clone();
                    let ghost before = self.queue@;
                    self.queue.push(
                        QueuedFile {
                            path,
                            info,
                            selected: true,
                            status: QueueStatus::Waiting,
                            progress_bits: 0,
                        },
                    );
                    proof {
                        assert(cloned(files[i as int].info, info));
                        assert(queue_paths(self.queue@) =~= queue_paths(before).push(files[i as int].path@));
                        assert forall|k: int| q0.len() <= k < self.queue@.len() implies fresh_entry(
                            #[trigger] self.queue@[k],
                        ) && exists|j: int|
                            0 <= j < files.len() && (files[j].selected || !only_selected)
                                && files[j].path == self.queue@[k].path && cloned(
                                files[j].info,
                                self.queue@[k].info,
                            ) by {
                            if k < before.len() {
                                assert(self.queue@[k] == before[k]);
                            } else {
                                assert(self.queue@[k].info == info);
                                assert(files[i as int].path == self.queue@[k].path);
                            }
                        }
                    }
                }
            }
            i = i + 1;
        }
        proof {
            assert(files.take(n as int) =~= files);
        }
        count
    }

    /// Queues the selected clips not queued yet.
    pub fn add_selected_to_queue(&mut self)
        ensures
            add_selected_result(*old(self), *final(self)),
    {
        let count = self.enqueue(true);
        if count == 0 {
            proof {
                assert(pool_paths(old(self).imported_files@, true) =~= Seq::empty());
                assert(extend_unique(queue_paths(old(self).queue@), Seq::empty()) == queue_paths(old(self).queue@));
                assert(self.queue@ =~= old(self).queue@) by {
                    assert(queue_paths(self.queue@).len() == old(self).queue@.len());
                }
            }
            self.status_message = owned("No files selected - use Space to select, then a to add");
        } else {
            self.status_message = numbered("Added ", count, " file(s) to render queue");
        }
    }

    /// Queues every pool clip not queued yet.
    pub fn add_all_to_queue(&mut self)
        ensures
            add_all_result(*old(self), *final(self)),
    {
        if self.imported_files.len() == 0 {
            self.status_message = owned("No files in media pool");
            return;
        }
        let n = self.imported_files.len();
        let count = self.enqueue(false);
        proof {
            lemma_all_paths_len(old(self).imported_files@);
        }
        self.status_message = numbered("Added all ", n as u64, " file(s) to render queue");
    }

    /// Removes the clip under the cursor and keeps the cursor inside the
    /// pool.
    pub fn remove_from_media_pool(&mut self, sep: char)
        requires
            old(self).imported_files@.len() > 0 ==> old(self).media_pool_index < old(self).imported_files@.len(),
        ensures
            remove_from_pool_result(*old(self), *final(self), sep),
    {
        if self.imported_files.len() == 0 {
            return;
        }
        let k = self.media_pool_index;
        let name = last_component_of(self.imported_files[k].path.as_str(), sep);
        self.imported_files.remove(k);
        let len = self.imported_files.len();
        if self.media_pool_index >= len && len > 0 {
            self.media_pool_index = len - 1;
        }
        let mut m = owned("Removed ");
        push_str(&mut m, name.as_str());
        push_str(&mut m, " from media pool");
        self.status_message = m;
    }

    /// Removes every selected clip and keeps the cursor inside the pool.
    pub fn remove_selected_from_media_pool(&mut self)
        ensures
            remove_selected_result(*old(self), *final(self)),
    {
        let n = self.imported_files.len();
        let mut count: u64 = 0;
        let mut i: usize = 0;
        while i < n
            invariant
                n == self.imported_files@.len(),
                i <= n,
                count <= i,
                count == pool_paths(self.imported_files@.take(i as int), true).len(),
            decreases n - i,
        {
            proof {
                assert(self.imported_files@.take(i + 1).drop_last() =~= self.imported_files@.take(i as int));
            }
            if self.imported_files[i].selected {
                count = count + 1;
            }
            i = i + 1;
        }
        proof {
            assert(self.imported_files@.take(n as int) =~= self.imported_files@);
        }
        if count == 0 {
            self.status_message = owned("No files selected - use Space to select");
            return;
        }
        let mut files: Vec<ImportedFile<I>> = Vec::new();
        std::mem::swap(&mut files, &mut self.imported_files);
        self.imported_files = keep_unselected_files(files);
        let len = self.imported_files.len();
        if self.media_pool_index >= len && len > 0 {
            self.media_pool_index = len - 1;
        }
        self.status_message = numbered("Removed ", count, " selected file(s) from media pool");
    }

    /// Removes the selected queue entries, or the one under the cursor when
    /// none is selected, and keeps the cursor inside the queue.
    pub fn remove_from_queue(&mut self, sep: char)
        requires
            old(self).queue@.len() > 0 ==> old(self).queue_index < old(self).queue@.len(),
        ensures
            remove_from_queue_result(*old(self), *final(self), sep),
    {
        if self.queue.len() == 0 {
            return;
        }
        let n = self.queue.len();
        let mut any = false;
        let mut i: usize = 0;
        while i < n
            invariant
                n == self.queue@.len(),
                i <= n,
                any == (selected_count(self.queue@.take(i as int), false) > 0),
            decreases n - i,
        {
            proof {
                assert(self.queue@.take(i + 1).drop_last() =~= self.queue@.take(i as int));
            }
            if self.queue[i].selected {
                any = true;
            }
            i = i + 1;
        }
        proof {
            assert(self.queue@.take(n as int) =~= self.queue@);
        }
        if any {
            let mut q: Vec<QueuedFile<I>> = Vec::new();
            std::mem::swap(&mut q, &mut self.queue);
            self.queue = keep_entries(q, false);
            self.status_message = owned("Removed selected items from queue");
        } else {
            let k = self.queue_index;
            let name = last_component_of(self.queue[k].path.as_str(), sep);
            self.queue.remove(k);
            let len = self.queue.len();
            if self.queue_index >= len && len > 0 {
                self.queue_index = len - 1;
            }
            let mut m = owned("Removed ");
            push_str(&mut m, name.as_str());
            push_str(&mut m, " from queue");
            self.status_message = m;
        }
        let len = self.queue.len();
        if self.queue_index >= len && len > 0 {
            self.queue_index = len - 1;
        }
    }

    /// Drops completed and failed entries and keeps the cursor inside the
    /// queue.
    pub fn clear_completed_queue(&mut self)
        ensures
            clear_completed_result(*old(self), *final(self)),
    {
        let before = self.queue.len();
        let mut q: Vec<QueuedFile<I>> = Vec::new();
        std::mem::swap(&mut q, &mut self.queue);
        self.queue = keep_entries(q, true);
        proof {
            lemma_unfinished_len(old(self).queue@);
        }
        let removed = before - self.queue.len();
        if removed > 0 {
            self.status_message = numbered(
                "Cleared ",
                removed as u64,
                " completed/failed item(s)",
            );
        } else {
            self.status_message = owned("No completed/failed items to clear");
        }
        let len = self.queue.len();
        if self.queue_index >= len && len > 0 {
            self.queue_index = len - 1;
        }
    }

    /// First selected entry at or after `from` (waiting ones only, when
    /// `waiting_only`).
    fn find_selected(&self, from: usize, waiting_only: bool) -> (r: Option<usize>)
        ensures
            r matches Some(k) ==> next_selected(self.queue@, from as int, waiting_only) == Some(
                k as int,
            ) && k < self.queue@.len() && self.queue@.len() <= usize::MAX,
            r is None ==> next_selected(self.queue@, from as int, waiting_only) is None,
    {
        let n = self.queue.len();
        let mut i = from;
        if i >= n {
            return None;
        }
        while i < n
            invariant
                from <= i <= n,
                n == self.queue@.len(),
                next_selected(self.queue@, from as int, waiting_only) == next_selected(
                    self.queue@,
                    i as int,
                    waiting_only,
                ),
            decreases n - i,
        {
            if self.queue[i].selected && (!waiting_only || matches!(self.queue[i].status, QueueStatus::Waiting)) {
                return Some(i);
            }
            i = i + 1;
        }
        None
    }

    /// Number of selected entries (completed ones only, when
    /// `completed_only`).
    fn count_selected(&self, completed_only: bool) -> (r: u64)
        ensures
            r == selected_count(self.queue@, completed_only),
    {
        let n = self.queue.len();
        let mut c: u64 = 0;
        let mut i: usize = 0;
        while i < n
            invariant
                n == self.queue@.len(),
                i <= n,
                c <= i,
                c == selected_count(self.queue@.take(i as int), completed_only),
            decreases n - i,
        {
            proof {
                assert(self.queue@.take(i + 1).drop_last() =~= self.queue@.take(i as int));
            }
            if self.queue[i].selected && (!completed_only || matches!(self.queue[i].status, QueueStatus::Completed)) {
                c = c + 1;
            }
            i = i + 1;
        }
        proof {
            assert(self.queue@.take(n as int) =~= self.queue@);
        }
        c
    }

    /// Starts a batch with the selected entries: the first of them is the
    /// one to render, which the caller exports.
    pub fn render_selected(&mut self) -> (r: Option<usize>)
        ensures
            render_selected_result(*old(self), *final(self), r),
    {
        match self.find_selected(0, false) {
            None => {
                self.status_message = owned("No items selected in queue - use Space to select");
                None
            },
            Some(k) => {
                let count = self.count_selected(false);
                self.status_message = numbered("Starting render of ", count, " selected file(s)...");
                self.current_rendering_index = Some(k);
                Some(k)
            },
        }
    }

    /// Selects every entry and starts the batch with the first one.
    pub fn render_all(&mut self) -> (r: Option<usize>)
        ensures
            render_all_result(*old(self), *final(self), r),
    {
        let n = self.queue.len();
        if n == 0 {
            self.status_message = owned("Queue is empty");
            return None;
        }
        self.status_message = numbered("Starting render of all ", n as u64, " file(s)...");
        let ghost before = self.queue@;
        let mut j: usize = 0;
        while j < n
            invariant
                n == before.len(),
                j <= n,
                self.queue@.len() == n,
                self.imported_files == old(self).imported_files,
                self.media_pool_index == old(self).media_pool_index,
                self.queue_index == old(self).queue_index,
                before == old(self).queue@,
                self.status_message@ == "Starting render of all "@ + decimal(n as nat) + " file(s)..."@,
                forall|k: int|
                    0 <= k < j ==> #[trigger] self.queue@[k] == (QueuedFile {
                        selected: true,
                        ..before[k]
                    }),
                forall|k: int| j <= k < n ==> #[trigger] self.queue@[k] == before[k],
            decreases n - j,
        {
            let mut q = self.queue.remove(j);
            q.selected = true;
            self.queue.insert(j, q);
            proof {
                assert forall|k: int| 0 <= k < j + 1 implies #[trigger] self.queue@[k] == (QueuedFile {
                        selected: true,
                        ..before[k]
                    }) by {
                    if k < j {
                    } else {
                    }
                }
                assert forall|k: int| j + 1 <= k < n implies #[trigger] self.queue@[k] == before[k] by {
                }
            }
            j = j + 1;
        }
        self.current_rendering_index = Some(0);
        Some(0)
    }

    /// Marks the entry being rendered as rendering.
    pub fn mark_rendering(&mut self)
        ensures
            final(self).queue@ == match old(self).current_rendering_index {
                Some(k) => if k < old(self).queue@.len() {
                    old(self).queue@.update(
                        k as int,
                        QueuedFile { status: QueueStatus::Rendering, ..old(self).queue@[k as int] },
                    )
                } else {
                    old(self).queue@
                },
                None => old(self).queue@,
            },
            final(self).imported_files == old(self).imported_files,
            final(self).media_pool_index == old(self).media_pool_index,
            final(self).queue_index == old(self).queue_index,
            final(self).current_rendering_index == old(self).current_rendering_index,
            final(self).status_message == old(self).status_message,
    {
        if let Some(k) = self.current_rendering_index {
            if k < self.queue.len() {
                let mut q = self.queue.remove(k);
                q.status = QueueStatus::Rendering;
                self.queue.insert(k, q);
                proof {
                    assert(self.queue@ =~= old(self).queue@.update(
                        k as int,
                        QueuedFile { status: QueueStatus::Rendering, ..old(self).queue@[k as int] },
                    ));
                }
            }
        }
    }

    /// Moves the batch on to the next selected entry still waiting after
    /// the one rendered, marking it rendering; at the end of the batch it
    /// reports how many selected entries completed.
    pub fn start_next_queued_render(&mut self) -> (r: Option<usize>)
        requires
            old(self).current_rendering_index matches Some(c) ==> c < usize::MAX,
        ensures
            old(self).current_rendering_index is None ==> r is None && *final(self) == *old(self),
            old(self).current_rendering_index matches Some(c) ==> {
                let next = next_selected(old(self).queue@, c + 1, true);
                &&& (r matches Some(k) ==> next == Some(k as int))
                &&& (r is None ==> next is None)
                &&& final(self).current_rendering_index == r
                &&& (r matches Some(k) ==> final(self).queue@ == old(self).queue@.update(
                    k as int,
                    QueuedFile { status: QueueStatus::Rendering, ..old(self).queue@[k as int] },
                ) && final(self).status_message == old(self).status_message)
                &&& (r is None ==> final(self).queue == old(self).queue
                    && final(self).status_message@ == "Batch render complete: "@ + decimal(
                    selected_count(old(self).queue@, true),
                ) + "/"@ + decimal(selected_count(old(self).queue@, false)) + " done"@)
            },
            final(self).imported_files == old(self).imported_files,
            final(self).media_pool_index == old(self).media_pool_index,
            final(self).queue_index == old(self).queue_index,
    {
        let c = match self.current_rendering_index {
            Some(c) => c,
            None => return None,
        };
        match self.find_selected(c + 1, true) {
            Some(k) => {
                self.current_rendering_index = Some(k);
                self.mark_rendering();
                Some(k)
            },
            None => {
                self.current_rendering_index = None;
                let done = self.count_selected(true);
                let total = self.count_selected(false);
                let mut m = numbered("Batch render complete: ", done, "/");
                let t = decimal_string(total);
                push_str(&mut m, t.as_str());
                push_str(&mut m, " done");
                proof {
                    assert(m@ =~= "Batch render complete: "@ + decimal(done as nat) + "/"@ + decimal(
                        total as nat,
                    ) + " done"@);
                }
                self.status_message = m;
                None
            },
        }
    }

    /// Records the progress of the entry being rendered (the first one
    /// marked rendering), as the bits of an `f64`.
    pub fn set_rendering_progress(&mut self, progress_bits: u64)
        ensures
            (exists|i: int| 0 <= i < old(self).queue@.len() && (#[trigger] old(self).queue@[i]).status is Rendering) ==> {
                let k = choose|k: int| 0 <= k < old(self).queue@.len() && (#[trigger] old(self).queue@[k]).status is Rendering
                    && forall|j: int| 0 <= j < k ==> !(old(self).queue@[j].status is Rendering);
                final(self).queue@ == old(self).queue@.update(
                    k,
                    QueuedFile { progress_bits, ..old(self).queue@[k] },
                )
            },
            !(exists|i: int| 0 <= i < old(self).queue@.len() && (#[trigger] old(self).queue@[i]).status is Rendering) ==> final(self).queue@ == old(self).queue@,
            final(self).imported_files == old(self).imported_files,
            final(self).media_pool_index == old(self).media_pool_index,
            final(self).queue_index == old(self).queue_index,
            final(self).current_rendering_index == old(self).current_rendering_index,
            final(self).status_message == old(self).status_message,
    {
        let n = self.queue.len();
        let mut i: usize = 0;
        while i < n
            invariant
                n == self.queue@.len(),
                i <= n,
                *self == *old(self),
                forall|j: int| 0 <= j < i ==> !(#[trigger] self.queue@[j].status is Rendering),
            decreases n - i,
        {
            if matches!(self.queue[i].status, QueueStatus::Rendering) {
                let mut q = self.queue.remove(i);
                q.progress_bits = progress_bits;
                self.queue.insert(i, q);
                proof {
                    let q0 = old(self).queue@;
                    let k = choose|k: int| 0 <= k < q0.len() && (#[trigger] q0[k]).status is Rendering
                        && forall|j: int| 0 <= j < k ==> !(q0[j].status is Rendering);
                    assert(q0[i as int].status is Rendering);
                    if k < i {
                        assert(!(q0[k].status is Rendering));
                    } else if k > i {
                        assert(!(q0[i as int].status is Rendering));
                    }
                    assert(self.queue@ =~= q0.update(i as int, QueuedFile { progress_bits, ..q0[i as int] }));
                }
                return;
            }
            i = i + 1;
        }
    }

    /// Takes the end of an export. The entry rendered gets full progress and
    /// waits again when the export was cancelled, else completes or fails
    /// with the error. A cancelled export ends the batch; otherwise the
    /// status line tells how it went and the batch moves on to its next
    /// entry, which is returned for the caller to export.
    pub fn finish_render(&mut self, result: Result<(), String>, cancelled: bool, elapsed_secs: u64) -> (r: Option<usize>)
        requires
            old(self).current_rendering_index matches Some(c) ==> c < usize::MAX,
        ensures
            ({
                let marked = marked_queue(
                    old(self).queue@,
                    old(self).current_rendering_index,
                    cancelled,
                    result,
                );
                &&& cancelled ==> r is None && final(self).current_rendering_index is None
                    && final(self).queue@ == marked && final(self).status_message@
                    == "Export cancelled"@
                &&& !cancelled && old(self).current_rendering_index is None ==> r is None
                    && final(self).current_rendering_index is None && final(self).queue@ == marked
                    && final(self).status_message@ == export_done_message(result, elapsed_secs)
                &&& !cancelled ==> (old(self).current_rendering_index matches Some(c) ==> {
                    let next = next_selected(marked, c + 1, true);
                    &&& (r matches Some(k) ==> next == Some(k as int) && final(self).queue@
                        == marked.update(
                        k as int,
                        QueuedFile { status: QueueStatus::Rendering, ..marked[k as int] },
                    ) && final(self).status_message@ == export_done_message(result, elapsed_secs))
                    &&& (r is None ==> next is None && final(self).queue@ == marked
                        && final(self).status_message@ == "Batch render complete: "@ + decimal(
                        selected_count(marked, true),
                    ) + "/"@ + decimal(selected_count(marked, false)) + " done"@)
                    &&& final(self).current_rendering_index == r
                })
            }),
            final(self).imported_files == old(self).imported_files,
            final(self).media_pool_index == old(self).media_pool_index,
            final(self).queue_index == old(self).queue_index,
    {
        if let Some(k) = self.current_rendering_index {
            if k < self.queue.len() {
                let status = if cancelled {
                    QueueStatus::Waiting
                } else {
                    match &result {
                        Ok(()) => QueueStatus::Completed,
                        Err(e) => QueueStatus::Failed(e.clone()),
                    }
                };
                let mut q = self.queue.remove(k);
                q.progress_bits = PROGRESS_DONE_BITS;
                q.status = status;
                self.queue.insert(k, q);
                proof {
                    assert(self.queue@ =~= marked_queue(
                        old(self).queue@,
                        old(self).current_rendering_index,
                        cancelled,
                        result,
                    ));
                }
            }
        }
        if cancelled {
            self.status_message = owned("Export cancelled");
            self.current_rendering_index = None;
            return None;
        }
        match &result {
            Ok(()) => {
                let mut m = owned("Video export completed (");
                let mins = two_digit_string(elapsed_secs / 60);
                let secs = two_digit_string(elapsed_secs % 60);
                push_str(&mut m, mins.as_str());
                push_str(&mut m, "m ");
                push_str(&mut m, secs.as_str());
                push_str(&mut m, "s)");
                self.status_message = m;
            },
            Err(e) => {
                let mut m = owned("Export failed: ");
                push_str(&mut m, e.as_str());
                self.status_message = m;
            },
        }
        self.start_next_queued_render()
    }
}

/// `extend_unique` keeps what was known in front and holds every
/// candidate.
pub proof fn lemma_extend_unique_holds(known: Seq<Seq<char>>, cands: Seq<Seq<char>>)
    ensures
        extend_unique(known, cands).len() >= known.len(),
        extend_unique(known, cands).take(known.len() as int) == known,
        forall|x: Seq<char>| #[trigger] cands.contains(x) ==> extend_unique(known, cands).contains(x),
        forall|x: Seq<char>| #[trigger] known.contains(x) ==> extend_unique(known, cands).contains(x),
    decreases cands.len(),
{
    if cands.len() > 0 {
        let init = cands.drop_last();
        lemma_extend_unique_holds(known, init);
        let k = extend_unique(known, init);
        assert forall|x: Seq<char>| #[trigger] cands.contains(x) implies extend_unique(known, cands).contains(x) by {
            let i = choose|i: int| 0 <= i < cands.len() && cands[i] == x;
            if i < init.len() {
                assert(init[i] == x);
                assert(init.contains(x));
                assert(k.contains(x));
                if !k.contains(cands.last()) {
                    let j = choose|j: int| 0 <= j < k.len() && k[j] == x;
                    assert(k.push(cands.last())[j] == x);
                }
            } else {
                if !k.contains(cands.last()) {
                    assert(k.push(cands.last())[k.len() as int] == x);
                }
            }
        }
        assert forall|x: Seq<char>| #[trigger] known.contains(x) implies extend_unique(known, cands).contains(x) by {
            assert(k.contains(x));
            if !k.contains(cands.last()) {
                let j = choose|j: int| 0 <= j < k.len() && k[j] == x;
                assert(k.push(cands.last())[j] == x);
            }
        }
        if !k.contains(cands.last()) {
            assert(k.push(cands.last()).take(known.len() as int) =~= k.take(known.len() as int));
        }
    } else {
        assert(known.take(known.len() as int) =~= known);
    }
}

/// Extending by candidates that are all known already changes nothing.
proof fn lemma_extend_known(known: Seq<Seq<char>>, cands: Seq<Seq<char>>)
    requires
        forall|x: Seq<char>| #[trigger] cands.contains(x) ==> known.contains(x),
    ensures
        extend_unique(known, cands) == known,
    decreases cands.len(),
{
    if cands.len() > 0 {
        let init = cands.drop_last();
        assert forall|x: Seq<char>| #[trigger] init.contains(x) implies known.contains(x) by {
            let i = choose|i: int| 0 <= i < init.len() && init[i] == x;
            assert(cands[i] == x);
            assert(cands.contains(x));
        }
        lemma_extend_known(known, init);
        assert(cands[cands.len() - 1] == cands.last());
        assert(cands.contains(cands.last()));
    }
}

/// Queueing never repeats a path: a queue without repeated paths keeps
/// none after clips are added.
pub proof fn lemma_queue_paths_stay_distinct(known: Seq<Seq<char>>, cands: Seq<Seq<char>>)
    requires
        known.no_duplicates(),
    ensures
        extend_unique(known, cands).no_duplicates(),
    decreases cands.len(),
{
    if cands.len() > 0 {
        lemma_queue_paths_stay_distinct(known, cands.drop_last());
    }
}

/// Queueing the same clips a second time adds nothing.
pub proof fn lemma_enqueue_idempotent(known: Seq<Seq<char>>, cands: Seq<Seq<char>>)
    ensures
        extend_unique(extend_unique(known, cands), cands) == extend_unique(known, cands),
{
    lemma_extend_unique_holds(known, cands);
    lemma_extend_known(extend_unique(known, cands), cands);
}

/// Every clip contributes its path when all are taken.
pub proof fn lemma_all_paths_len<I>(f: Seq<ImportedFile<I>>)
    ensures
        pool_paths(f, false).len() == f.len(),
    decreases f.len(),
{
    if f.len() > 0 {
        lemma_all_paths_len(f.drop_last());
    }
}


/// Thumbnails are fetched ahead for this many clips on each side of the
/// one under the cursor.
pub const PREFETCH_NEIGHBOURS: usize = 3;

/// The clips whose thumbnails are fetched ahead when the cursor lands on
/// `index` of a pool of `len`: up to three on each side, within the pool.
pub fn prefetch_range(index: usize, len: usize) -> (r: (usize, usize))
    requires
        index < len,
    ensures
        r.0 == if index >= PREFETCH_NEIGHBOURS { index - PREFETCH_NEIGHBOURS } else { 0 },
        r.1 == if index + PREFETCH_NEIGHBOURS + 1 < len { index + PREFETCH_NEIGHBOURS + 1 } else { len as int },
{
    let start = if index >= PREFETCH_NEIGHBOURS {
        index - PREFETCH_NEIGHBOURS
    } else {
        0
    };
    let end = if len - index > PREFETCH_NEIGHBOURS + 1 {
        index + PREFETCH_NEIGHBOURS + 1
    } else {
        len
    };
    (start, end)
}

impl<I: Clone> RenderWorkflow<I> {
    /// Moves the media-pool cursor to `new_index`; returns whether it
    /// moved, in which case the caller shows the clip there.
    pub fn switch_media_pool_item(&mut self, new_index: usize) -> (moved: bool)
        ensures
            moved == (new_index < old(self).imported_files@.len() && new_index
                != old(self).media_pool_index),
            moved ==> *final(self) == (RenderWorkflow { media_pool_index: new_index, ..*old(self) }),
            !moved ==> *final(self) == *old(self),
    {
        if new_index >= self.imported_files.len() || new_index == self.media_pool_index {
            return false;
        }
        self.media_pool_index = new_index;
        true
    }

    /// The clip under the media-pool cursor.
    pub fn focused_file(&self) -> (r: Option<&ImportedFile<I>>)
        ensures
            r == if self.media_pool_index < self.imported_files@.len() {
                Some(&self.imported_files@[self.media_pool_index as int])
            } else {
                None
            },
    {
        if self.media_pool_index < self.imported_files.len() {
            Some(&self.imported_files[self.media_pool_index])
        } else {
            None
        }
    }

    /// Moves the queue cursor up one entry, stopping at the first.
    pub fn queue_cursor_up(&mut self)
        ensures
            *final(self) == (RenderWorkflow {
                queue_index: if old(self).queue_index > 0 {
                    (old(self).queue_index - 1) as usize
                } else {
                    0
                },
                ..*old(self)
            }),
    {
        if self.queue_index > 0 {
            self.queue_index = self.queue_index - 1;
        }
    }

    /// Moves the queue cursor down one entry, stopping at the last.
    pub fn queue_cursor_down(&mut self)
        ensures
            *final(self) == (RenderWorkflow {
                queue_index: if old(self).queue_index + 1 < old(self).queue@.len() {
                    (old(self).queue_index + 1) as usize
                } else {
                    old(self).queue_index
                },
                ..*old(self)
            }),
    {
        if self.queue_index < self.queue.len() && self.queue_index + 1 < self.queue.len() {
            self.queue_index = self.queue_index + 1;
        }
    }
}


/// Whether some clip of the pool has the path `p`.
pub open spec fn pool_has_path<I>(f: Seq<ImportedFile<I>>, p: Seq<char>) -> bool {
    exists|i: int| 0 <= i < f.len() && (#[trigger] f[i]).path@ == p
}

impl<I: Clone> RenderWorkflow<I> {
    /// Adds a clip to the pool, selected, unless a clip with the same path
    /// is there already; returns whether it was added.
    pub fn import_file(&mut self, path: String, info: I, first_timestamp: i64) -> (added: bool)
        ensures
            added == !pool_has_path(old(self).imported_files@, path@),
            added ==> final(self).imported_files@ == old(self).imported_files@.push(
                ImportedFile { path, info, selected: true, first_timestamp },
            ),
            !added ==> final(self).imported_files == old(self).imported_files,
            final(self).media_pool_index == old(self).media_pool_index,
            final(self).queue == old(self).queue,
            final(self).queue_index == old(self).queue_index,
            final(self).current_rendering_index == old(self).current_rendering_index,
            final(self).status_message == old(self).status_message,
    {
        let mut j: usize = 0;
        while j < self.imported_files.len()
            invariant
                j <= self.imported_files@.len(),
                forall|k: int| 0 <= k < j ==> (#[trigger] self.imported_files@[k]).path@ != path@,
            decreases self.imported_files@.len() - j,
        {
            if str_eq(self.imported_files[j].path.as_str(), path.as_str()) {
                return false;
            }
            j = j + 1;
        }
        self.imported_files.push(ImportedFile { path, info, selected: true, first_timestamp });
        true
    }

    /// After a batch brought `imported` new clips into the pool, puts the
    /// cursor on the first of them.
    pub fn focus_first_new(&mut self, imported: usize)
        ensures
            final(self).media_pool_index == if imported > 0 {
                if imported <= old(self).imported_files@.len() {
                    (old(self).imported_files@.len() - imported) as usize
                } else {
                    0
                }
            } else {
                old(self).media_pool_index
            },
            *final(self) == (RenderWorkflow {
                media_pool_index: final(self).media_pool_index,
                ..*old(self)
            }),
    {
        if imported > 0 {
            self.media_pool_index = if imported <= self.imported_files.len() {
                self.imported_files.len() - imported
            } else {
                0
            };
        }
    }
}


/// No two clips of the pool share a path.
pub open spec fn pool_paths_distinct<I>(f: Seq<ImportedFile<I>>) -> bool {
    forall|i: int, j: int| 0 <= i < j < f.len() ==> (#[trigger] f[i]).path@ != (#[trigger] f[j]).path@
}

/// Importing keeps the pool free of repeated paths: a clip is only added
/// when its path is new.
pub proof fn lemma_import_keeps_pool_distinct<I>(f: Seq<ImportedFile<I>>, x: ImportedFile<I>)
    requires
        pool_paths_distinct(f),
    ensures
        pool_paths_distinct(if pool_has_path(f, x.path@) { f } else { f.push(x) }),
{
    if !pool_has_path(f, x.path@) {
        let g = f.push(x);
        assert forall|i: int, j: int| 0 <= i < j < g.len() implies (#[trigger] g[i]).path@ != (
        #[trigger] g[j]).path@ by {
            if j == f.len() {
                assert(g[i] == f[i]);
            } else {
                assert(g[i] == f[i] && g[j] == f[j]);
            }
        }
    }
}


impl<I: Clone> RenderWorkflow<I> {
    /// Flips the selection of the clip at `k`, if there is one.
    pub fn toggle_selection_at(&mut self, k: usize)
        ensures
            final(self).imported_files@.len() == old(self).imported_files@.len(),
            forall|i: int|
                0 <= i < old(self).imported_files@.len() && i != k
                    ==> #[trigger] final(self).imported_files@[i] == old(self).imported_files@[i],
            k < old(self).imported_files@.len() ==> {
                let f = old(self).imported_files@[k as int];
                final(self).imported_files@[k as int] == (ImportedFile { selected: !f.selected, ..f })
            },
            *final(self) == (RenderWorkflow { imported_files: final(self).imported_files, ..*old(self) }),
    {
        if k < self.imported_files.len() {
            let mut f = self.imported_files.remove(k);
            f.selected = !f.selected;
            self.imported_files.insert(k, f);
            proof {
                assert forall|i: int|
                    0 <= i < old(self).imported_files@.len() && i != k implies #[trigger] self.imported_files@[i]
                        == old(self).imported_files@[i] by {
                    if i < k {
                    } else {
                    }
                }
            }
        }
    }

    /// Flips the selection of the queue entry at `k`, if there is one.
    pub fn toggle_queue_selection_at(&mut self, k: usize)
        ensures
            final(self).queue@.len() == old(self).queue@.len(),
            forall|i: int|
                0 <= i < old(self).queue@.len() && i != k ==> #[trigger] final(self).queue@[i] == old(self).queue@[i],
            k < old(self).queue@.len() ==> {
                let q = old(self).queue@[k as int];
                final(self).queue@[k as int] == (QueuedFile { selected: !q.selected, ..q })
            },
            *final(self) == (RenderWorkflow { queue: final(self).queue, ..*old(self) }),
    {
        if k < self.queue.len() {
            let mut q = self.queue.remove(k);
            q.selected = !q.selected;
            self.queue.insert(k, q);
            proof {
                assert forall|i: int|
                    0 <= i < old(self).queue@.len() && i != k implies #[trigger] self.queue@[i]
                        == old(self).queue@[i] by {
                    if i < k {
                    } else {
                    }
                }
            }
        }
    }
}

} // verus!

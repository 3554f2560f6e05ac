//! State of the interactive session (screens, focus, the render queue,
//! overlays) and the clean-up of paths dropped onto the terminal.

use vstd::prelude::*;
use vstd::utf8::{decode_utf8, encode_utf8, valid_utf8};
use crate::metadata::{push_chars, trim_range, trim_ws};
use crate::text::{
    decimal, decimal_string, ends_with, lowercase, owned, push_char, push_str, starts_with,
    str_ends_with, str_starts_with, to_chars, to_lowercase,
};

verus! {

broadcast use vstd::string::group_string_axioms;

#[derive(Debug, Clone, PartialEq, Eq)]
pub enum QueueStatus {
    Waiting,
    Rendering,
    Completed,
    Failed(String),
}

#[derive(Debug, Clone, Copy, PartialEq, Eq, Structural)]
pub enum FocusTarget {
    MediaPool,
    Queue,
    ExportSettings,
    Grade,
}

#[derive(Debug, Clone, PartialEq, Eq)]
pub enum ImportPopupState {
    Hidden,
    DroppedFiles { files: Vec<String>, folder: String, all_in_folder: Vec<String> },
}

/// Snapshot of the most recently finished export, for the post-render
/// summary.
#[derive(Debug)]
pub struct ExportSummary {
    pub output_path: String,
    pub codec_label: String,
    pub profile_label: String,
    pub color_space: String,
    pub transfer: String,
    pub rate_control: String,
    pub frame_count: usize,
    pub elapsed: std::time::Duration,
    pub result: Result<(), String>,
}

#[derive(Debug, Clone, PartialEq, Eq, Structural)]
pub enum Screen {
    Browse,
    Info,
    Export,
}

/// Overlay state for the preset picker: whether it is open, the cursor and
/// a transient message.
#[derive(Debug, Clone, Default)]
pub struct PresetPickerState {
    pub open: bool,
    pub index: usize,
    pub message: Option<String>,
}

#[derive(Debug, Clone)]
pub struct PresetNamingState {
    pub name: String,
    pub message: Option<String>,
}

/// Visual preview of dropped files.
pub struct DropPreview {
    pub files: Vec<String>,
    pub start_time: std::time::Instant,
}

#[derive(Debug, Clone, Copy, PartialEq, Eq, Structural)]
pub enum ExportFocus {
    ColorSpace,
    TransferFunction,
    CodecFamily,
    Profile,
    RateControl,
    Fps,
}

pub enum BrowserDirection {
    Up,
    Down,
    Enter,
    GoUp,
    ToggleHidden,
}

/// The panel focus moves to on Tab: media pool, render queue, export
/// settings, and round again; from the grade panel, on to the export
/// settings.
pub open spec fn spec_next_focus(f: FocusTarget) -> FocusTarget {
    match f {
        FocusTarget::MediaPool => FocusTarget::Queue,
        FocusTarget::Queue => FocusTarget::ExportSettings,
        FocusTarget::ExportSettings => FocusTarget::MediaPool,
        FocusTarget::Grade => FocusTarget::ExportSettings,
    }
}

pub open spec fn spec_focus_label(f: FocusTarget) -> Seq<char> {
    match f {
        FocusTarget::MediaPool => "Media Pool"@,
        FocusTarget::Grade => "Grade"@,
        FocusTarget::ExportSettings => "Export Settings"@,
        FocusTarget::Queue => "Render Queue"@,
    }
}

impl FocusTarget {
    pub fn next(self) -> (r: FocusTarget)
        ensures
            r == spec_next_focus(self),
    {
        match self {
            FocusTarget::MediaPool => FocusTarget::Queue,
            FocusTarget::Queue => FocusTarget::ExportSettings,
            FocusTarget::ExportSettings => FocusTarget::MediaPool,
            FocusTarget::Grade => FocusTarget::ExportSettings,
        }
    }

    pub fn label(self) -> (r: &'static str)
        ensures
            r@ == spec_focus_label(self),
    {
        match self {
            FocusTarget::MediaPool => "Media Pool",
            FocusTarget::Grade => "Grade",
            FocusTarget::ExportSettings => "Export Settings",
            FocusTarget::Queue => "Render Queue",
        }
    }

    /// The status line shown when the focus moves here.
    pub fn status_message(self) -> (r: String)
        ensures
            r@ == "Focus: "@ + spec_focus_label(self),
    {
        let mut s = owned("Focus: ");
        push_str(&mut s, self.label());
        s
    }
}

/// Tab never lands on the grade panel; from any of the three other panels
/// three moves come back to where they started, visiting the other two on
/// the way.
pub proof fn lemma_focus_cycle(f: FocusTarget)
    ensures
        spec_next_focus(f) != FocusTarget::Grade,
        f != FocusTarget::Grade ==> spec_next_focus(spec_next_focus(spec_next_focus(f))) == f,
        spec_next_focus(f) != f,
        f != FocusTarget::Grade ==> spec_next_focus(spec_next_focus(f)) != f,
{
}

// ---------------------------------------------------------------------------
// Dropped paths
// ---------------------------------------------------------------------------

/// `s` trimmed, without one pair of matching surrounding quotes.
pub open spec fn spec_strip_quotes(s: Seq<char>) -> Seq<char> {
    let t = trim_ws(s);
    if t.len() >= 2 && ((t[0] == '"' && t.last() == '"') || (t[0] == '\'' && t.last() == '\'')) {
        t.subrange(1, t.len() - 1)
    } else {
        t
    }
}

/// Strip surrounding quotes from a path string.
pub fn strip_surrounding_quotes(s: &str) -> (r: String)
    ensures
        r@ == spec_strip_quotes(s@),
{
    let cs = to_chars(s);
    let (a, b) = trim_range(cs.as_slice(), 0, cs.len());
    proof {
        assert(cs@.subrange(0, cs@.len() as int) =~= s@);
    }
    let ghost t = cs@.subrange(a as int, b as int);
    let mut r = String::new();
    if b - a >= 2 {
        let first = cs[a];
        let last = cs[b - 1];
        if (first == '"' && last == '"') || (first == '\'' && last == '\'') {
            push_chars(&mut r, cs.as_slice(), a + 1, b - 1);
            proof {
                assert(t[0] == first && t.last() == last);
                assert(cs@.subrange(a + 1, b - 1) =~= t.subrange(1, t.len() - 1));
                assert(r@ =~= Seq::<char>::empty() + cs@.subrange(a + 1, b - 1));
            }
            return r;
        }
        proof {
            assert(t[0] == first && t.last() == last);
        }
    }
    push_chars(&mut r, cs.as_slice(), a, b);
    assert(r@ =~= t);
    r
}

pub open spec fn is_ascii_alpha(c: char) -> bool {
    ('a' <= c && c <= 'z') || ('A' <= c && c <= 'Z')
}

/// Index of the first `/` in `s`, if any.
pub open spec fn first_slash(s: Seq<char>) -> Option<int> {
    if exists|i: int| 0 <= i < s.len() && s[i] == '/' {
        Some(choose|i: int| 0 <= i < s.len() && s[i] == '/' && forall|j: int| 0 <= j < i ==> s[j] != '/')
    } else {
        None
    }
}

/// The native path a `file://` URI names: `file:///C:/x` stays `C:/x` on
/// Windows, `file:///x` becomes `/x`, and `file://host/x` loses the host.
/// Anything else is unchanged.
pub open spec fn spec_decode_file_uri(s: Seq<char>, windows: bool) -> Seq<char> {
    if starts_with(s, "file:///"@) {
        let rest = s.skip(8);
        if windows && rest.len() >= 2 && is_ascii_alpha(rest[0]) && rest[1] == ':' {
            rest
        } else {
            seq!['/'] + rest
        }
    } else if starts_with(s, "file://"@) {
        let rest = s.skip(7);
        match first_slash(rest) {
            Some(p) => rest.skip(p),
            None => rest,
        }
    } else {
        s
    }
}

/// Decode file:// URIs to native paths; `windows` tells whether the paths
/// are Windows paths (`cfg!(windows)`).
pub fn decode_file_uri(s: &str, windows: bool) -> (r: String)
    ensures
        r@ == spec_decode_file_uri(s@, windows),
{
    let cs = to_chars(s);
    proof {
        reveal_strlit("file:///");
        reveal_strlit("file://");
    }
    if str_starts_with(s, "file:///") {
        let n = cs.len();
        if windows && n >= 10 {
            let c0 = cs[8];
            let c1 = cs[9];
            if (('a' <= c0 && c0 <= 'z') || ('A' <= c0 && c0 <= 'Z')) && c1 == ':' {
                let mut r = String::new();
                push_chars(&mut r, cs.as_slice(), 8, n);
                assert(r@ =~= s@.skip(8));
                return r;
            }
        }
        let mut r = owned("/");
        push_chars(&mut r, cs.as_slice(), 8, n);
        proof {
            reveal_strlit("/");
            assert(r@ =~= seq!['/'] + s@.skip(8));
        }
        return r;
    }
    if str_starts_with(s, "file://") {
        let n = cs.len();
        let mut i: usize = 7;
        while i < n && cs[i] != '/'
            invariant
                7 <= i <= n,
                n == cs@.len(),
                cs@ == s@,
                forall|j: int| 7 <= j < i ==> cs@[j] != '/',
            decreases n - i,
        {
            i = i + 1;
        }
        let mut r = String::new();
        let from = if i < n { i } else { 7 };
        push_chars(&mut r, cs.as_slice(), from, n);
        proof {
            let rest = s@.skip(7);
            if i < n {
                assert(rest[i - 7] == '/');
                let p = first_slash(rest);
                assert(p is Some);
                let q = p.unwrap();
                assert(q == i - 7) by {
                    if q < i - 7 {
                        assert(rest[q] == cs@[q + 7]);
                    }
                    if q > i - 7 {
                    }
                }
                assert(r@ =~= rest.skip(q));
            } else {
                assert(forall|j: int| 0 <= j < rest.len() ==> rest[j] == cs@[j + 7]);
                assert(first_slash(rest) is None);
                assert(r@ =~= rest);
            }
        }
        return r;
    }
    owned(s)
}

/// `s` for the platform: on Windows forward slashes become backslashes,
/// except in UNC paths (`\\server\share`).
pub open spec fn spec_normalize_path(s: Seq<char>, windows: bool) -> Seq<char> {
    if windows && !starts_with(s, "\\\\"@) {
        s.map_values(|c: char| if c == '/' { '\\' } else { c })
    } else {
        s
    }
}

/// Normalize path separators for the platform.
pub fn normalize_path(s: &str, windows: bool) -> (r: String)
    ensures
        r@ == spec_normalize_path(s@, windows),
{
    if windows {
        if str_starts_with(s, "\\\\") {
            return owned(s);
        }
        let cs = to_chars(s);
        let mut r = String::new();
        let mut i: usize = 0;
        while i < cs.len()
            invariant
                cs@ == s@,
                i <= cs@.len(),
                r@ == s@.take(i as int).map_values(|c: char| if c == '/' { '\\' } else { c }),
            decreases cs@.len() - i,
        {
            let c = cs[i];
            push_char(&mut r, if c == '/' { '\\' } else { c });
            i = i + 1;
            assert(r@ =~= s@.take(i as int).map_values(|c: char| if c == '/' { '\\' } else { c }));
        }
        assert(s@.take(i as int) =~= s@);
        r
    } else {
        owned(s)
    }
}

// ---------------------------------------------------------------------------
// Percent-decoding
// ---------------------------------------------------------------------------

/// The value of an ASCII hexadecimal digit, if `b` is one.
pub open spec fn hex_digit(b: u8) -> Option<u8> {
    if 0x30 <= b <= 0x39 {
        Some((b - 0x30) as u8)
    } else if 0x41 <= b <= 0x46 {
        Some((b - 0x41 + 10) as u8)
    } else if 0x61 <= b <= 0x66 {
        Some((b - 0x61 + 10) as u8)
    } else {
        None
    }
}

/// Percent-decoding of bytes: `%` and two hexadecimal digits stand for the
/// byte they spell; every other byte, a lone `%` included, stands for
/// itself.
pub open spec fn percent_decoded(b: Seq<u8>) -> Seq<u8>
    decreases b.len(),
{
    if b.len() == 0 {
        Seq::empty()
    } else if b.len() >= 3 && b[0] == 0x25 && hex_digit(b[1]) is Some && hex_digit(b[2]) is Some {
        seq![(hex_digit(b[1]).unwrap() * 16 + hex_digit(b[2]).unwrap()) as u8] + percent_decoded(
            b.skip(3),
        )
    } else {
        seq![b[0]] + percent_decoded(b.skip(1))
    }
}

/// `percent_encoding::percent_decode_str(s).decode_utf8()`: the decoded
/// bytes as text when they are valid UTF-8.
#[verifier::external_body]
fn percent_decode_utf8(s: &str) -> (r: Option<String>)
    ensures
        r is Some <==> valid_utf8(percent_decoded(encode_utf8(s@))),
        r is Some ==> r->Some_0@ == decode_utf8(percent_decoded(encode_utf8(s@))),
{
    match percent_encoding::percent_decode_str(s).decode_utf8() {
        Ok(decoded) => Some(decoded.into_owned()),
        Err(_) => None,
    }
}

/// What `percent_decode_path` gives: `s` unchanged when it has no `%` or
/// does not decode to valid UTF-8, its decoding otherwise.
pub open spec fn spec_percent_decode_path(s: Seq<char>) -> Seq<char> {
    if !s.contains('%') {
        s
    } else if valid_utf8(percent_decoded(encode_utf8(s))) {
        decode_utf8(percent_decoded(encode_utf8(s)))
    } else {
        s
    }
}

/// Percent-decode URI-encoded characters (e.g. %20 -> space, %C3%A9 -> é),
/// keeping the text as it is when the decoding is not UTF-8.
pub fn percent_decode_path(s: &str) -> (r: String)
    ensures
        r@ == spec_percent_decode_path(s@),
{
    let cs = to_chars(s);
    let mut has_percent = false;
    let mut i: usize = 0;
    while i < cs.len()
        invariant
            cs@ == s@,
            i <= cs@.len(),
            has_percent == exists|j: int| 0 <= j < i && cs@[j] == '%',
        decreases cs@.len() - i,
    {
        if cs[i] == '%' {
            has_percent = true;
        }
        i = i + 1;
    }
    if !has_percent {
        proof {
            if s@.contains('%') {
                let j = choose|j: int| 0 <= j < s@.len() && s@[j] == '%';
                assert(cs@[j] == '%');
            }
        }
        return owned(s);
    }
    proof {
        let j = choose|j: int| 0 <= j < i && cs@[j] == '%';
        assert(s@[j] == '%');
    }
    match percent_decode_utf8(s) {
        Some(d) => d,
        None => owned(s),
    }
}

// ---------------------------------------------------------------------------
// Dropped file lists
// ---------------------------------------------------------------------------

/// `s` without repeats: each string at its first occurrence, in order.
pub open spec fn first_occurrences(s: Seq<Seq<char>>) -> Seq<Seq<char>>
    decreases s.len(),
{
    if s.len() == 0 {
        s
    } else if first_occurrences(s.drop_last()).contains(s.last()) {
        first_occurrences(s.drop_last())
    } else {
        first_occurrences(s.drop_last()).push(s.last())
    }
}

pub open spec fn string_views(v: Seq<String>) -> Seq<Seq<char>> {
    v.map_values(|s: String| s@)
}

/// The strings keep only their first occurrence, and their order.
pub fn dedup_preserving_order(items: Vec<String>) -> (r: Vec<String>)
    ensures
        string_views(r@) == first_occurrences(string_views(items@)),
{
    let ghost all = string_views(items@);
    let mut rest = items;
    let mut kept: Vec<String> = Vec::new();
    let mut k: usize = 0;
    let _n = rest.len();
    proof {
        assert(all.take(0) =~= Seq::<Seq<char>>::empty());
        assert(string_views(rest@) =~= all.skip(0));
    }
    while rest.len() > 0
        invariant
            k <= all.len(),
            all.len() <= usize::MAX,
            string_views(rest@) == all.skip(k as int),
            string_views(kept@) == first_occurrences(all.take(k as int)),
        decreases rest@.len(),
    {
        let ghost before = rest@;
        let s = rest.remove(0);
        proof {
            assert(string_views(before)[0] == s@);
            assert(string_views(rest@) =~= string_views(before).drop_first());
            assert(all.skip(k as int)[0] == s@);
            assert(all.take(k + 1).drop_last() =~= all.take(k as int));
            assert(all.take(k + 1).last() == s@);
        }
        let mut found = false;
        let mut j: usize = 0;
        while j < kept.len()
            invariant
                j <= kept@.len(),
                found == (exists|i: int| 0 <= i < j && kept@[i]@ == s@),
            decreases kept@.len() - j,
        {
            if crate::text::str_eq(kept[j].as_str(), s.as_str()) {
                found = true;
            }
            j = j + 1;
        }
        proof {
            let f = first_occurrences(all.take(k as int));
            if found {
                let i = choose|i: int| 0 <= i < j && kept@[i]@ == s@;
                assert(string_views(kept@)[i] == s@);
                assert(f.contains(s@));
            } else {
                if f.contains(s@) {
                    let i = choose|i: int| 0 <= i < f.len() && f[i] == s@;
                    assert(string_views(kept@)[i] == kept@[i]@);
                }
            }
        }
        if !found {
            let ghost kv = string_views(kept@);
            kept.push(s);
            proof {
                assert(string_views(kept@) =~= kv.push(s@));
            }
        }
        k = k + 1;
    }
    proof {
        assert(all.take(k as int) =~= all);
    }
    kept
}


// ---------------------------------------------------------------------------
// What a drop leads to
// ---------------------------------------------------------------------------

/// A drop of at most this many clips, with no folder among the dropped
/// paths, is imported at once without asking.
pub const DROP_IMPORT_AT_ONCE: usize = 3;

/// A dropped path names a clip when its lower-cased text ends in `.mcraw`.
pub open spec fn spec_is_clip_path(p: Seq<char>) -> bool {
    ends_with(lowercase(p), ".mcraw"@)
}

pub fn is_clip_path(p: &str) -> (r: bool)
    ensures
        r == spec_is_clip_path(p@),
{
    let lower = to_lowercase(p);
    str_ends_with(lower.as_str(), ".mcraw")
}

/// The decision taken on a drop once its paths are cleaned up and the
/// dropped folders are scanned.
#[derive(Debug, Clone, Copy, PartialEq, Eq, Structural)]
pub enum DropOutcome {
    /// No dropped line named an existing path.
    NoValidPaths,
    /// Nothing dropped was, or held, a clip.
    NoClips,
    /// Import the clips in the background at once.
    ImportNow,
    /// A lone clip came with folders: list the clip's own folder and
    /// decide with `lone_clip_outcome`.
    ListClipFolder,
    /// Show the import pop-up and let the user choose.
    AskFirst,
}

pub open spec fn spec_drop_outcome(paths: nat, clips: nat, folders: nat) -> DropOutcome {
    if paths == 0 {
        DropOutcome::NoValidPaths
    } else if clips == 0 {
        DropOutcome::NoClips
    } else if clips <= DROP_IMPORT_AT_ONCE && folders == 0 {
        DropOutcome::ImportNow
    } else if clips == 1 {
        DropOutcome::ListClipFolder
    } else {
        DropOutcome::AskFirst
    }
}

/// Decides on a drop from the number of usable paths, of distinct clips
/// found (dropped or inside dropped folders) and of dropped folders.
pub fn drop_outcome(paths: usize, clips: usize, folders: usize) -> (r: DropOutcome)
    ensures
        r == spec_drop_outcome(paths as nat, clips as nat, folders as nat),
{
    if paths == 0 {
        DropOutcome::NoValidPaths
    } else if clips == 0 {
        DropOutcome::NoClips
    } else if clips <= DROP_IMPORT_AT_ONCE && folders == 0 {
        DropOutcome::ImportNow
    } else if clips == 1 {
        DropOutcome::ListClipFolder
    } else {
        DropOutcome::AskFirst
    }
}

/// For a lone clip dropped with folders: it is imported at once only when
/// it is the one clip in its folder.
pub fn lone_clip_outcome(clips_in_folder: usize) -> (r: DropOutcome)
    ensures
        r == (if clips_in_folder == 1 { DropOutcome::ImportNow } else { DropOutcome::AskFirst }),
{
    if clips_in_folder == 1 {
        DropOutcome::ImportNow
    } else {
        DropOutcome::AskFirst
    }
}

impl DropOutcome {
    /// The status line for a drop that imports nothing.
    pub fn status_message(self) -> (r: Option<String>)
        ensures
            self == DropOutcome::NoValidPaths ==> r is Some && r.unwrap()@
                == "Drag-drop: no valid paths received"@,
            self == DropOutcome::NoClips ==> r is Some && r.unwrap()@
                == "Drag-drop: no .mcraw files found in dropped items"@,
            self != DropOutcome::NoValidPaths && self != DropOutcome::NoClips ==> r is None,
    {
        match self {
            DropOutcome::NoValidPaths => Some(owned("Drag-drop: no valid paths received")),
            DropOutcome::NoClips => Some(owned("Drag-drop: no .mcraw files found in dropped items")),
            _ => None,
        }
    }
}

/// A drop of more than three clips always asks first; a drop imported at
/// once holds one to three clips and no folder, and only a lone clip that
/// came with folders has its own folder listed.
pub proof fn lemma_drop_imports_at_once_only_small(paths: nat, clips: nat, folders: nat)
    ensures
        spec_drop_outcome(paths, clips, folders) == DropOutcome::ImportNow ==> 1 <= clips
            <= DROP_IMPORT_AT_ONCE && folders == 0,
        spec_drop_outcome(paths, clips, folders) == DropOutcome::ListClipFolder ==> clips == 1
            && folders > 0,
        paths > 0 && clips > DROP_IMPORT_AT_ONCE ==> spec_drop_outcome(paths, clips, folders)
            == DropOutcome::AskFirst,
{
}


impl ImportPopupState {
    /// Whether the pop-up offers, as its second choice, every clip of the
    /// folder: only when the folder holds more clips than were dropped.
    pub fn offers_whole_folder(&self) -> (r: bool)
        ensures
            r == (self matches ImportPopupState::DroppedFiles { files, all_in_folder, .. }
                && all_in_folder@.len() > files@.len()),
    {
        match self {
            ImportPopupState::DroppedFiles { files, all_in_folder, .. } => all_in_folder.len()
                > files.len(),
            ImportPopupState::Hidden => false,
        }
    }
}

pub open spec fn spec_import_result_message(imported: nat, failed: nat, whole_folder: bool) -> Seq<
    char,
> {
    if failed > 0 {
        "Imported "@ + decimal(imported) + " file(s), "@ + decimal(failed) + " failed"@
    } else if whole_folder {
        "Imported all "@ + decimal(imported) + " file(s)"@
    } else {
        "Imported "@ + decimal(imported) + " file(s)"@
    }
}

/// The status line after importing a batch from the pop-up: the dropped
/// clips, or every clip of the folder.
pub fn import_result_message(imported: usize, failed: usize, whole_folder: bool) -> (r: String)
    ensures
        r@ == spec_import_result_message(imported as nat, failed as nat, whole_folder),
{
    let n = decimal_string(imported as u64);
    if failed > 0 {
        let f = decimal_string(failed as u64);
        let mut m = owned("Imported ");
        push_str(&mut m, n.as_str());
        push_str(&mut m, " file(s), ");
        push_str(&mut m, f.as_str());
        push_str(&mut m, " failed");
        m
    } else if whole_folder {
        let mut m = owned("Imported all ");
        push_str(&mut m, n.as_str());
        push_str(&mut m, " file(s)");
        m
    } else {
        let mut m = owned("Imported ");
        push_str(&mut m, n.as_str());
        push_str(&mut m, " file(s)");
        m
    }
}


// ---------------------------------------------------------------------------
// Moving through the export settings, and Esc
// ---------------------------------------------------------------------------

/// The setting below `f` in the export panel, the last wrapping to the
/// first.
pub open spec fn spec_export_focus_down(f: ExportFocus) -> ExportFocus {
    match f {
        ExportFocus::ColorSpace => ExportFocus::TransferFunction,
        ExportFocus::TransferFunction => ExportFocus::CodecFamily,
        ExportFocus::CodecFamily => ExportFocus::Profile,
        ExportFocus::Profile => ExportFocus::RateControl,
        ExportFocus::RateControl => ExportFocus::Fps,
        ExportFocus::Fps => ExportFocus::ColorSpace,
    }
}

/// The setting above `f`, the first wrapping to the last.
pub open spec fn spec_export_focus_up(f: ExportFocus) -> ExportFocus {
    match f {
        ExportFocus::ColorSpace => ExportFocus::Fps,
        ExportFocus::Fps => ExportFocus::RateControl,
        ExportFocus::TransferFunction => ExportFocus::ColorSpace,
        ExportFocus::CodecFamily => ExportFocus::TransferFunction,
        ExportFocus::Profile => ExportFocus::CodecFamily,
        ExportFocus::RateControl => ExportFocus::Profile,
    }
}

impl ExportFocus {
    pub fn down(self) -> (r: ExportFocus)
        ensures
            r == spec_export_focus_down(self),
    {
        match self {
            ExportFocus::ColorSpace => ExportFocus::TransferFunction,
            ExportFocus::TransferFunction => ExportFocus::CodecFamily,
            ExportFocus::CodecFamily => ExportFocus::Profile,
            ExportFocus::Profile => ExportFocus::RateControl,
            ExportFocus::RateControl => ExportFocus::Fps,
            ExportFocus::Fps => ExportFocus::ColorSpace,
        }
    }

    pub fn up(self) -> (r: ExportFocus)
        ensures
            r == spec_export_focus_up(self),
    {
        match self {
            ExportFocus::ColorSpace => ExportFocus::Fps,
            ExportFocus::Fps => ExportFocus::RateControl,
            ExportFocus::TransferFunction => ExportFocus::ColorSpace,
            ExportFocus::CodecFamily => ExportFocus::TransferFunction,
            ExportFocus::Profile => ExportFocus::CodecFamily,
            ExportFocus::RateControl => ExportFocus::Profile,
        }
    }
}

/// Up undoes down and down undoes up; six steps down visit every setting
/// and come back.
pub proof fn lemma_export_focus_moves(f: ExportFocus)
    ensures
        spec_export_focus_up(spec_export_focus_down(f)) == f,
        spec_export_focus_down(spec_export_focus_up(f)) == f,
        spec_export_focus_down(spec_export_focus_down(spec_export_focus_down(
            spec_export_focus_down(spec_export_focus_down(spec_export_focus_down(f))),
        ))) == f,
        spec_export_focus_down(f) != f,
{
}

/// What Esc closes, innermost first: the import pop-up, the full file
/// information, the favourites list, the browser, the help; with none of
/// them open it quits.
#[derive(Debug, Clone, Copy, PartialEq, Eq, Structural)]
pub enum EscapeAction {
    CloseImportPopup,
    CloseFullInfo,
    LeaveFavourites,
    CloseBrowser,
    CloseHelp,
    Quit,
}

pub open spec fn spec_escape_action(
    popup_open: bool,
    full_info: bool,
    browsing_favourites: bool,
    browser: bool,
    help: bool,
) -> EscapeAction {
    if popup_open {
        EscapeAction::CloseImportPopup
    } else if full_info {
        EscapeAction::CloseFullInfo
    } else if browsing_favourites {
        EscapeAction::LeaveFavourites
    } else if browser {
        EscapeAction::CloseBrowser
    } else if help {
        EscapeAction::CloseHelp
    } else {
        EscapeAction::Quit
    }
}

/// Decides what Esc does from what is open.
pub fn escape_action(
    popup_open: bool,
    full_info: bool,
    browsing_favourites: bool,
    browser: bool,
    help: bool,
) -> (r: EscapeAction)
    ensures
        r == spec_escape_action(popup_open, full_info, browsing_favourites, browser, help),
{
    if popup_open {
        EscapeAction::CloseImportPopup
    } else if full_info {
        EscapeAction::CloseFullInfo
    } else if browsing_favourites {
        EscapeAction::LeaveFavourites
    } else if browser {
        EscapeAction::CloseBrowser
    } else if help {
        EscapeAction::CloseHelp
    } else {
        EscapeAction::Quit
    }
}

/// Esc quits only when none of the pop-up, full information, favourites,
/// browser and help is open.
pub proof fn lemma_escape_quits_only_when_nothing_is_open(
    popup_open: bool,
    full_info: bool,
    browsing_favourites: bool,
    browser: bool,
    help: bool,
)
    ensures
        (spec_escape_action(popup_open, full_info, browsing_favourites, browser, help)
            == EscapeAction::Quit) <==> !(popup_open || full_info || browsing_favourites || browser
            || help),
{
}

} // verus!

//! Starting an export: whether it may start, and the name of the file it
//! writes. Finding a free name on disk and launching the render are the
//! caller's.

use vstd::prelude::*;
use crate::dng::{after_last_slash, file_stem, portable_path};
use crate::export::CodecFamily;
use crate::settings::ExportSettings;
use crate::text::{decimal, decimal_string, owned, push_char, push_str, to_chars};

verus! {

broadcast use vstd::string::group_string_axioms;

/// Whether a character is dropped from a label put into a file name.
pub open spec fn dropped_from_label(c: char) -> bool {
    c == ' ' || c == '(' || c == ')' || c == '.'
}

/// A label as it goes into a file name: spaces, brackets and dots left
/// out.
pub open spec fn file_label(s: Seq<char>) -> Seq<char>
    decreases s.len(),
{
    if s.len() == 0 {
        s
    } else if dropped_from_label(s.last()) {
        file_label(s.drop_last())
    } else {
        file_label(s.drop_last()).push(s.last())
    }
}

pub fn file_label_of(s: &str) -> (r: String)
    ensures
        r@ == file_label(s@),
{
    let cs = to_chars(s);
    let mut out = String::new();
    let mut i: usize = 0;
    proof {
        assert(cs@.take(0) =~= Seq::<char>::empty());
    }
    while i < cs.len()
        invariant
            i <= cs@.len(),
            cs@ == s@,
            out@ == file_label(cs@.take(i as int)),
        decreases cs@.len() - i,
    {
        let c = cs[i];
        proof {
            assert(cs@.take(i + 1).drop_last() =~= cs@.take(i as int));
            assert(cs@.take(i + 1).last() == c);
        }
        if !(c == ' ' || c == '(' || c == ')' || c == '.') {
            push_char(&mut out, c);
        }
        i = i + 1;
    }
    proof {
        assert(cs@.take(i as int) =~= cs@);
    }
    out
}

/// The file extension for a codec family's container.
pub open spec fn spec_container_extension(f: CodecFamily) -> Seq<char> {
    match f {
        CodecFamily::ProRes => "mov"@,
        CodecFamily::DNxHR => "mov"@,
        CodecFamily::VP9 => "webm"@,
        _ => "mp4"@,
    }
}

pub fn container_extension(f: CodecFamily) -> (r: &'static str)
    ensures
        r@ == spec_container_extension(f),
{
    match f {
        CodecFamily::ProRes | CodecFamily::DNxHR => "mov",
        CodecFamily::VP9 => "webm",
        _ => "mp4",
    }
}

/// Index of the last `.` of `n`, or -1 when it has none.
pub open spec fn last_dot(n: Seq<char>) -> int
    decreases n.len(),
{
    if n.len() == 0 {
        -1
    } else if n.last() == '.' {
        n.len() - 1
    } else {
        last_dot(n.drop_last())
    }
}

/// A file name without its extension, as `Path::file_stem` reads it: the
/// part before the last dot, unless that dot is the first character or
/// there is none.
pub open spec fn name_stem(n: Seq<char>) -> Seq<char> {
    let k = last_dot(n);
    if k <= 0 {
        n
    } else {
        n.take(k)
    }
}

proof fn lemma_last_dot_bounds(n: Seq<char>)
    ensures
        -1 <= last_dot(n) < n.len(),
        last_dot(n) >= 0 ==> n[last_dot(n)] == '.',
    decreases n.len(),
{
    if n.len() > 0 && n.last() != '.' {
        lemma_last_dot_bounds(n.drop_last());
    }
}

fn name_stem_of(n: &str) -> (r: String)
    ensures
        r@ == name_stem(n@),
{
    let cs = to_chars(n);
    let mut k: Option<usize> = None;
    let mut i: usize = 0;
    proof {
        assert(cs@.take(0) =~= Seq::<char>::empty());
    }
    while i < cs.len()
        invariant
            i <= cs@.len(),
            cs@ == n@,
            last_dot(cs@.take(i as int)) == match k {
                Some(v) => v as int,
                None => -1,
            },
            k matches Some(v) ==> v < i,
        decreases cs@.len() - i,
    {
        proof {
            assert(cs@.take(i + 1).drop_last() =~= cs@.take(i as int));
            assert(cs@.take(i + 1).last() == cs@[i as int]);
        }
        if cs[i] == '.' {
            k = Some(i);
        }
        i = i + 1;
    }
    proof {
        assert(cs@.take(i as int) =~= cs@);
        lemma_last_dot_bounds(cs@);
    }
    let mut out = String::new();
    let end: usize = match k {
        Some(v) => if v == 0 {
            cs.len()
        } else {
            v
        },
        None => cs.len(),
    };
    let mut j: usize = 0;
    while j < end
        invariant
            j <= end <= cs@.len(),
            out@ == cs@.take(j as int),
        decreases end - j,
    {
        push_char(&mut out, cs[j]);
        proof {
            assert(cs@.take(j + 1) =~= cs@.take(j as int).push(cs@[j as int]));
        }
        j = j + 1;
    }
    proof {
        if end == cs.len() {
            assert(cs@.take(end as int) =~= cs@);
        }
    }
    out
}

/// The name of the file an export writes, before any attempt to find a
/// free one (`attempt` 0), and for the later attempts 1, 2, ...: the clip's
/// stem (`output` without one), the curve and the gamut as file labels,
/// the attempt number, and the container's extension. A later attempt's
/// name is read as a path whose extension is replaced, so a stem with a
/// dot in it loses what follows that dot.
pub open spec fn spec_export_file_name(
    stem: Option<Seq<char>>,
    settings: ExportSettings,
    attempt: nat,
) -> Seq<char> {
    let s = match stem {
        Some(s) => s,
        None => "output"@,
    };
    let base = s + "_"@ + file_label(settings.export_transfer_function.spec_name()) + "_"@
        + file_label(settings.export_color_space.spec_name());
    let ext = spec_container_extension(settings.export_codec_family);
    if attempt == 0 {
        base + "."@ + ext
    } else {
        name_stem(base + "_"@ + decimal(attempt)) + "."@ + ext
    }
}

/// The export file name for a clip whose stem is `stem`.
pub fn export_file_name_for_stem(settings: &ExportSettings, stem: Option<String>, attempt: u64) -> (r:
    String)
    ensures
        r@ == spec_export_file_name(
            match stem {
                Some(s) => Some(s@),
                None => None,
            },
            *settings,
            attempt as nat,
        ),
{
    let mut base = match stem {
        Some(s) => s,
        None => owned("output"),
    };
    push_str(&mut base, "_");
    let tf = file_label_of(settings.export_transfer_function.name());
    push_str(&mut base, tf.as_str());
    push_str(&mut base, "_");
    let cs = file_label_of(settings.export_color_space.name());
    push_str(&mut base, cs.as_str());
    let ext = container_extension(settings.export_codec_family);
    if attempt == 0 {
        push_str(&mut base, ".");
        push_str(&mut base, ext);
        base
    } else {
        push_str(&mut base, "_");
        let n = decimal_string(attempt);
        push_str(&mut base, n.as_str());
        let mut name = name_stem_of(base.as_str());
        push_str(&mut name, ".");
        push_str(&mut name, ext);
        name
    }
}

/// The export file name for the clip at `input_path`; its stem is read
/// with `Path::file_stem`.
pub fn export_file_name(settings: &ExportSettings, input_path: &str, attempt: u64) -> (r: String)
    ensures
        exists|stem: Option<Seq<char>>| r@ == spec_export_file_name(stem, *settings, attempt as nat),
        portable_path(input_path@) ==> r@ == spec_export_file_name(
            Some(name_stem(after_last_slash(input_path@))),
            *settings,
            attempt as nat,
        ),
{
    let stem = file_stem(input_path);
    export_file_name_for_stem(settings, stem, attempt)
}

/// What a request to start an export leads to.
#[derive(Debug, Clone, Copy, PartialEq, Eq, Structural)]
pub enum ExportStart {
    /// An export is running: the request cancels it.
    CancelRunning,
    /// No clip is loaded.
    NoClip,
    /// A log or HDR curve cannot go into an 8-bit profile.
    EightBitLog,
    /// The export may start.
    Start,
}

pub open spec fn spec_export_start(s: ExportSettings, exporting: bool, has_clip: bool) -> ExportStart {
    if exporting {
        ExportStart::CancelRunning
    } else if !has_clip {
        ExportStart::NoClip
    } else if s.export_transfer_function.spec_is_log() && s.spec_active_is_8bit() {
        ExportStart::EightBitLog
    } else {
        ExportStart::Start
    }
}

/// Decides on a request to start an export.
pub fn export_start(settings: &ExportSettings, exporting: bool, has_clip: bool) -> (r: ExportStart)
    ensures
        r == spec_export_start(*settings, exporting, has_clip),
{
    if exporting {
        ExportStart::CancelRunning
    } else if !has_clip {
        ExportStart::NoClip
    } else if settings.export_transfer_function.requires_10bit()
        && settings.active_profile_is_8bit() {
        ExportStart::EightBitLog
    } else {
        ExportStart::Start
    }
}

impl ExportStart {
    /// The status line for a request that does not start an export.
    pub fn status_message(self) -> (r: Option<String>)
        ensures
            self == ExportStart::CancelRunning ==> r is Some && r.unwrap()@
                == "Export cancelled. Press V again to restart."@,
            self == ExportStart::NoClip ==> r is Some && r.unwrap()@ == "No file loaded"@,
            self == ExportStart::EightBitLog ==> r is Some && r.unwrap()@
                == "Cannot export Log/HDR to 8-bit codec"@,
            self == ExportStart::Start ==> r is None,
    {
        match self {
            ExportStart::CancelRunning => Some(owned("Export cancelled. Press V again to restart.")),
            ExportStart::NoClip => Some(owned("No file loaded")),
            ExportStart::EightBitLog => Some(owned("Cannot export Log/HDR to 8-bit codec")),
            ExportStart::Start => None,
        }
    }
}

/// The status line when an export starts.
pub fn export_started_message(settings: &ExportSettings) -> (r: String)
    ensures
        r@ == "Starting export: "@ + settings.export_color_space.spec_name() + " / "@
            + settings.export_transfer_function.spec_name() + " via "@
            + settings.export_codec_family.spec_name() + " "@
            + settings.spec_active_profile_name() + " ..."@,
{
    let mut m = owned("Starting export: ");
    push_str(&mut m, settings.export_color_space.name());
    push_str(&mut m, " / ");
    push_str(&mut m, settings.export_transfer_function.name());
    push_str(&mut m, " via ");
    push_str(&mut m, settings.export_codec_family.name());
    push_str(&mut m, " ");
    push_str(&mut m, settings.active_profile_name());
    push_str(&mut m, " ...");
    m
}

} // verus!

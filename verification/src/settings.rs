//! The export settings panel: the chosen gamut, curve, codec family, the
//! sticky per-codec profiles and rate control, and the user's presets with
//! the picker and naming overlays that manage them.

use vstd::prelude::*;
use crate::browser::path_eq;
use crate::color::{ColorSpace, TransferFunction};
use crate::export::{
    Av1Profile, CodecFamily, DnxhrProfile, H264Profile, HevcProfile, ProResProfile, RateControl,
    Vp9Profile,
};
use crate::metadata::{push_chars, trim_range, trim_ws};
use crate::preset::{clone_folder, first_named, rate_view, ExportPreset};
use crate::session::{ExportFocus, PresetNamingState, PresetPickerState};
use crate::text::{owned, push_char, push_str, str_eq, to_chars};

verus! {

broadcast use vstd::string::group_string_axioms;

/// `s` with surrounding white space removed, as `str::trim` does.
fn trimmed(s: &str) -> (r: String)
    ensures
        r@ == trim_ws(s@),
{
    let cs = to_chars(s);
    let (a, b) = trim_range(cs.as_slice(), 0, cs.len());
    let mut t = String::new();
    push_chars(&mut t, cs.as_slice(), a, b);
    proof {
        assert(cs@.subrange(0, cs@.len() as int) =~= s@);
        assert(t@ =~= cs@.subrange(a as int, b as int));
    }
    t
}

/// The frame rate an export is written at: the clip's own, or one of the
/// usual rates.
#[derive(Debug, Clone, Copy, PartialEq, Eq, Structural)]
pub enum ExportFps {
    Original,
    Fps23_976,
    Fps24,
    Fps25,
    Fps30,
    Fps50,
    Fps60,
    Fps120,
}

pub open spec fn spec_next_fps(f: ExportFps) -> ExportFps {
    match f {
        ExportFps::Original => ExportFps::Fps23_976,
        ExportFps::Fps23_976 => ExportFps::Fps24,
        ExportFps::Fps24 => ExportFps::Fps25,
        ExportFps::Fps25 => ExportFps::Fps30,
        ExportFps::Fps30 => ExportFps::Fps50,
        ExportFps::Fps50 => ExportFps::Fps60,
        ExportFps::Fps60 => ExportFps::Fps120,
        ExportFps::Fps120 => ExportFps::Original,
    }
}

pub open spec fn spec_fps_label(f: ExportFps) -> Seq<char> {
    match f {
        ExportFps::Original => "Original"@,
        ExportFps::Fps23_976 => "23.976"@,
        ExportFps::Fps24 => "24"@,
        ExportFps::Fps25 => "25"@,
        ExportFps::Fps30 => "30"@,
        ExportFps::Fps50 => "50"@,
        ExportFps::Fps60 => "60"@,
        ExportFps::Fps120 => "120"@,
    }
}

/// The rate in thousandths of a frame per second, or none for the clip's
/// own rate.
pub open spec fn spec_fps_millis(f: ExportFps) -> Option<u32> {
    match f {
        ExportFps::Original => None,
        ExportFps::Fps23_976 => Some(23976u32),
        ExportFps::Fps24 => Some(24000u32),
        ExportFps::Fps25 => Some(25000u32),
        ExportFps::Fps30 => Some(30000u32),
        ExportFps::Fps50 => Some(50000u32),
        ExportFps::Fps60 => Some(60000u32),
        ExportFps::Fps120 => Some(120000u32),
    }
}

impl ExportFps {
    /// The next rate of the cycle: the clip's own, then 23.976, 24, 25,
    /// 30, 50, 60 and 120, and round again.
    pub fn next(self) -> (r: ExportFps)
        ensures
            r == spec_next_fps(self),
    {
        match self {
            ExportFps::Original => ExportFps::Fps23_976,
            ExportFps::Fps23_976 => ExportFps::Fps24,
            ExportFps::Fps24 => ExportFps::Fps25,
            ExportFps::Fps25 => ExportFps::Fps30,
            ExportFps::Fps30 => ExportFps::Fps50,
            ExportFps::Fps50 => ExportFps::Fps60,
            ExportFps::Fps60 => ExportFps::Fps120,
            ExportFps::Fps120 => ExportFps::Original,
        }
    }

    pub fn label(self) -> (r: &'static str)
        ensures
            r@ == spec_fps_label(self),
    {
        match self {
            ExportFps::Original => "Original",
            ExportFps::Fps23_976 => "23.976",
            ExportFps::Fps24 => "24",
            ExportFps::Fps25 => "25",
            ExportFps::Fps30 => "30",
            ExportFps::Fps50 => "50",
            ExportFps::Fps60 => "60",
            ExportFps::Fps120 => "120",
        }
    }

    pub fn millis(self) -> (r: Option<u32>)
        ensures
            r == spec_fps_millis(self),
    {
        match self {
            ExportFps::Original => None,
            ExportFps::Fps23_976 => Some(23976),
            ExportFps::Fps24 => Some(24000),
            ExportFps::Fps25 => Some(25000),
            ExportFps::Fps30 => Some(30000),
            ExportFps::Fps50 => Some(50000),
            ExportFps::Fps60 => Some(60000),
            ExportFps::Fps120 => Some(120000),
        }
    }
}

/// Eight steps of the rate come back to where they started, and fewer do
/// not.
pub proof fn lemma_fps_cycle(f: ExportFps)
    ensures
        spec_next_fps(spec_next_fps(spec_next_fps(spec_next_fps(spec_next_fps(spec_next_fps(
            spec_next_fps(spec_next_fps(f)),
        )))))) == f,
        spec_next_fps(f) != f,
        spec_fps_millis(f) is None <==> f == ExportFps::Original,
{
}

/// The export settings of a session and the saved presets.
pub struct ExportSettings {
    pub export_color_space: ColorSpace,
    pub export_transfer_function: TransferFunction,
    pub export_codec_family: CodecFamily,
    pub export_focus: ExportFocus,
    pub prores_profile: ProResProfile,
    pub dnxhr_profile: DnxhrProfile,
    pub hevc_profile: HevcProfile,
    pub h264_profile: H264Profile,
    pub av1_profile: Av1Profile,
    pub vp9_profile: Vp9Profile,
    pub active_rate_control: RateControl,
    pub is_editing_custom_rate: bool,
    pub export_fps: ExportFps,
    pub export_folder: Option<std::path::PathBuf>,
    pub presets: Vec<ExportPreset>,
    /// Name of the preset last applied or saved.
    pub active_preset: Option<String>,
    pub preset_picker: PresetPickerState,
    pub preset_naming: Option<PresetNamingState>,
    pub status_message: String,
}

/// The rate control `next` gives: the following preset in the cycle, an
/// empty custom text after the last preset, lossless after custom.
pub open spec fn next_rate_view(v: (int, Seq<char>)) -> (int, Seq<char>) {
    ((v.0 + 1) % 6, Seq::empty())
}

/// Every setting of `s` equals the preset's, the export folder aside; the
/// rate controls are compared by name.
pub open spec fn settings_match(s: ExportSettings, p: ExportPreset) -> bool {
    &&& p.color_space == s.export_color_space
    &&& p.transfer_function == s.export_transfer_function
    &&& p.codec_family == s.export_codec_family
    &&& p.prores_profile == s.prores_profile
    &&& p.dnxhr_profile == s.dnxhr_profile
    &&& p.hevc_profile == s.hevc_profile
    &&& p.h264_profile == s.h264_profile
    &&& p.av1_profile == s.av1_profile
    &&& p.vp9_profile == s.vp9_profile
    &&& p.rate_control.spec_name() == s.active_rate_control.spec_name()
}

/// `s` holds every setting of `p`, folder included.
pub open spec fn holds_preset(s: ExportSettings, p: ExportPreset) -> bool {
    settings_match(s, p) && p.export_folder == s.export_folder
}

/// `t` is `s` with the preset at `index` applied: every setting copied,
/// custom-text editing left unless the rate control is custom, the preset
/// marked active and named in the status line.
pub open spec fn applied(s: ExportSettings, t: ExportSettings, index: int) -> bool {
    let p = s.presets@[index];
    &&& t == (ExportSettings {
        export_color_space: p.color_space,
        export_transfer_function: p.transfer_function,
        export_codec_family: p.codec_family,
        prores_profile: p.prores_profile,
        dnxhr_profile: p.dnxhr_profile,
        hevc_profile: p.hevc_profile,
        h264_profile: p.h264_profile,
        av1_profile: p.av1_profile,
        vp9_profile: p.vp9_profile,
        active_rate_control: p.rate_control,
        export_folder: p.export_folder,
        is_editing_custom_rate: if p.rate_control is Custom {
            s.is_editing_custom_rate
        } else {
            false
        },
        active_preset: t.active_preset,
        status_message: t.status_message,
        ..s
    })
    &&& t.active_preset matches Some(n) && n@ == p.name@
    &&& t.status_message@ == "Applied preset: "@ + p.name@
}

/// The settings after stepping the active family's profile forward or
/// back.
pub open spec fn profile_cycled(o: ExportSettings, n: ExportSettings, forward: bool) -> bool {
    &&& n.prores_profile == if o.export_codec_family == CodecFamily::ProRes {
        if forward {
            o.prores_profile.spec_next()
        } else {
            o.prores_profile.spec_prev()
        }
    } else {
        o.prores_profile
    }
    &&& n.dnxhr_profile == if o.export_codec_family == CodecFamily::DNxHR {
        if forward {
            o.dnxhr_profile.spec_next()
        } else {
            o.dnxhr_profile.spec_prev()
        }
    } else {
        o.dnxhr_profile
    }
    &&& n.hevc_profile == if o.export_codec_family == CodecFamily::HEVC {
        if forward {
            o.hevc_profile.spec_next()
        } else {
            o.hevc_profile.spec_prev()
        }
    } else {
        o.hevc_profile
    }
    &&& n.h264_profile == if o.export_codec_family == CodecFamily::H264 {
        if forward {
            o.h264_profile.spec_next()
        } else {
            o.h264_profile.spec_prev()
        }
    } else {
        o.h264_profile
    }
    &&& n.av1_profile == if o.export_codec_family == CodecFamily::AV1 {
        if forward {
            o.av1_profile.spec_next()
        } else {
            o.av1_profile.spec_prev()
        }
    } else {
        o.av1_profile
    }
    &&& n.vp9_profile == if o.export_codec_family == CodecFamily::VP9 {
        if forward {
            o.vp9_profile.spec_next()
        } else {
            o.vp9_profile.spec_prev()
        }
    } else {
        o.vp9_profile
    }
    &&& n.status_message@ == "Profile: "@ + n.spec_active_profile_name()
    &&& n == (ExportSettings {
        prores_profile: n.prores_profile,
        dnxhr_profile: n.dnxhr_profile,
        hevc_profile: n.hevc_profile,
        h264_profile: n.h264_profile,
        av1_profile: n.av1_profile,
        vp9_profile: n.vp9_profile,
        export_focus: ExportFocus::Profile,
        status_message: n.status_message,
        ..o
    })
}

/// The settings after saving the current choices as a preset named
/// `name`, and whether the list changed (`saved`).
pub open spec fn preset_saved(o: ExportSettings, n: ExportSettings, name: Seq<char>, saved: bool) -> bool {
    &&& saved == (trim_ws(name).len() > 0)
    &&& !saved ==> n.status_message@ == "Preset name cannot be empty"@
    &&& !saved ==> n == (ExportSettings {
        status_message: n.status_message,
        ..o
    })
    &&& saved ==> {
        let nm = trim_ws(name);
        let k = first_named(o.presets@, nm);
        &&& n.presets@[if k is Some { k.unwrap() } else { o.presets@.len() as int }].name@ == nm
        &&& (k is Some ==> n.presets@.len() == o.presets@.len())
        &&& (k is None ==> n.presets@.len() == o.presets@.len() + 1)
        &&& first_named(n.presets@, nm) == Some(
            if k is Some { k.unwrap() } else { o.presets@.len() as int },
        )
        &&& holds_preset(n, n.presets@[first_named(n.presets@, nm).unwrap()])
        &&& forall|i: int|
            0 <= i < o.presets@.len() && Some(i) != k ==> #[trigger] n.presets@[i]
                == o.presets@[i]
        &&& n.active_preset matches Some(a) && a@ == nm
        &&& n.status_message@ == "Saved preset: "@ + nm
        &&& n == (ExportSettings {
            presets: n.presets,
            active_preset: n.active_preset,
            status_message: n.status_message,
            ..o
        })
    }
}

/// The settings after deleting the preset at `index`, and whether one
/// was removed (`deleted`).
pub open spec fn preset_deleted(o: ExportSettings, n: ExportSettings, index: usize, deleted: bool) -> bool {
    &&& deleted == (index < o.presets@.len())
    &&& !deleted ==> n == o
    &&& deleted ==> {
        let removed = o.presets@[index as int].name@;
        &&& n.presets@ == o.presets@.remove(index as int)
        &&& n.active_preset == if (o.active_preset matches Some(a) && a@
            == removed) {
            None
        } else {
            o.active_preset
        }
        &&& n.preset_picker.open == o.preset_picker.open
        &&& n.preset_picker.index == if n.presets@.len() > 0
            && o.preset_picker.index >= n.presets@.len() {
            (n.presets@.len() - 1) as usize
        } else {
            o.preset_picker.index
        }
        &&& n.preset_picker.message matches Some(m) && m@ == "Deleted preset: "@
            + removed
        &&& n.status_message@ == "Deleted preset: "@ + removed
        &&& n == (ExportSettings {
            presets: n.presets,
            active_preset: n.active_preset,
            preset_picker: n.preset_picker,
            status_message: n.status_message,
            ..o
        })
    }
}

/// The settings after opening the preset picker.
pub open spec fn picker_opened(o: ExportSettings, n: ExportSettings) -> bool {
    &&& o.presets@.len() == 0 ==> n.status_message@
        == "No presets yet \u{2014} press [p] to save the current settings"@
    &&& o.presets@.len() == 0 ==> n == (ExportSettings {
        status_message: n.status_message,
        ..o
    })
    &&& o.presets@.len() > 0 ==> n == (ExportSettings {
        preset_picker: PresetPickerState {
            open: true,
            index: if o.preset_picker.index < o.presets@.len() {
                o.preset_picker.index
            } else {
                (o.presets@.len() - 1) as usize
            },
            message: None,
        },
        ..o
    })
}

/// The settings after starting to name a new preset.
pub open spec fn naming_begun(o: ExportSettings, n: ExportSettings) -> bool {
    &&& n.preset_naming matches Some(st) && st.message is None && st.name@ == (
    match o.active_preset {
        Some(a) => a@ + " (copy)"@,
        None => "My Preset"@,
    })
    &&& n == (ExportSettings {
        preset_naming: n.preset_naming,
        preset_picker: PresetPickerState {
            open: false,
            index: o.preset_picker.index,
            message: o.preset_picker.message,
        },
        ..o
    })
}

impl ExportSettings {
    pub open spec fn spec_active_is_8bit(self) -> bool {
        match self.export_codec_family {
            CodecFamily::ProRes => false,
            CodecFamily::DNxHR => false,
            CodecFamily::HEVC => self.hevc_profile.spec_is_8bit(),
            CodecFamily::H264 => self.h264_profile.spec_is_8bit(),
            CodecFamily::AV1 => self.av1_profile.spec_is_8bit(),
            CodecFamily::VP9 => self.vp9_profile.spec_is_8bit(),
        }
    }

    pub open spec fn spec_active_profile_name(self) -> Seq<char> {
        match self.export_codec_family {
            CodecFamily::ProRes => self.prores_profile.spec_name(),
            CodecFamily::DNxHR => self.dnxhr_profile.spec_name(),
            CodecFamily::HEVC => self.hevc_profile.spec_name(),
            CodecFamily::H264 => self.h264_profile.spec_name(),
            CodecFamily::AV1 => self.av1_profile.spec_name(),
            CodecFamily::VP9 => self.vp9_profile.spec_name(),
        }
    }

    /// The settings a session starts with: Rec.709 with display gamma 2.4,
    /// HEVC Main10 4:2:0, lossless, focus on the codec family.
    pub fn new(presets: Vec<ExportPreset>, status_message: String) -> (r: Self)
        ensures
            r.export_color_space == ColorSpace::Rec709,
            r.export_transfer_function == TransferFunction::Gamma24,
            r.export_codec_family == CodecFamily::HEVC,
            r.export_focus == ExportFocus::CodecFamily,
            r.prores_profile == ProResProfile::HQ,
            r.dnxhr_profile == DnxhrProfile::HQX,
            r.hevc_profile == HevcProfile::Main10_420,
            r.h264_profile == H264Profile::Main8bit,
            r.av1_profile == Av1Profile::Profile0_420_10bit,
            r.vp9_profile == Vp9Profile::Profile2_420_10bit,
            r.active_rate_control is Lossless,
            !r.is_editing_custom_rate,
            r.export_fps == ExportFps::Original,
            r.export_folder is None,
            r.presets == presets,
            r.active_preset is None,
            !r.preset_picker.open,
            r.preset_picker.index == 0,
            r.preset_picker.message is None,
            r.preset_naming is None,
            r.status_message == status_message,
    {
        ExportSettings {
            export_color_space: ColorSpace::Rec709,
            export_transfer_function: TransferFunction::Gamma24,
            export_codec_family: CodecFamily::HEVC,
            export_focus: ExportFocus::CodecFamily,
            prores_profile: ProResProfile::HQ,
            dnxhr_profile: DnxhrProfile::HQX,
            hevc_profile: HevcProfile::Main10_420,
            h264_profile: H264Profile::Main8bit,
            av1_profile: Av1Profile::Profile0_420_10bit,
            vp9_profile: Vp9Profile::Profile2_420_10bit,
            active_rate_control: RateControl::Lossless,
            is_editing_custom_rate: false,
            export_fps: ExportFps::Original,
            export_folder: None,
            presets,
            active_preset: None,
            preset_picker: PresetPickerState { open: false, index: 0, message: None },
            preset_naming: None,
            status_message,
        }
    }

    /// Whether the active family's profile is 8-bit.
    pub fn active_profile_is_8bit(&self) -> (r: bool)
        ensures
            r == self.spec_active_is_8bit(),
    {
        match self.export_codec_family {
            CodecFamily::ProRes => false,
            CodecFamily::DNxHR => false,
            CodecFamily::HEVC => self.hevc_profile.is_8bit(),
            CodecFamily::H264 => self.h264_profile.is_8bit(),
            CodecFamily::AV1 => self.av1_profile.is_8bit(),
            CodecFamily::VP9 => self.vp9_profile.is_8bit(),
        }
    }

    /// The name of the active family's profile.
    pub fn active_profile_name(&self) -> (r: &'static str)
        ensures
            r@ == self.spec_active_profile_name(),
    {
        match self.export_codec_family {
            CodecFamily::ProRes => self.prores_profile.name(),
            CodecFamily::DNxHR => self.dnxhr_profile.name(),
            CodecFamily::HEVC => self.hevc_profile.name(),
            CodecFamily::H264 => self.h264_profile.name(),
            CodecFamily::AV1 => self.av1_profile.name(),
            CodecFamily::VP9 => self.vp9_profile.name(),
        }
    }

    /// Steps the rate control on and leaves custom-text editing.
    pub fn cycle_rate_control(&mut self)
        ensures
            rate_view(final(self).active_rate_control) == next_rate_view(
                rate_view(old(self).active_rate_control),
            ),
            final(self).status_message@ == "Rate: "@ + final(self).active_rate_control.spec_name(),
            *final(self) == (ExportSettings {
                active_rate_control: final(self).active_rate_control,
                is_editing_custom_rate: false,
                status_message: final(self).status_message,
                ..*old(self)
            }),
    {
        self.active_rate_control = self.active_rate_control.next();
        self.is_editing_custom_rate = false;
        let mut m = owned("Rate: ");
        let n = self.active_rate_control.name();
        push_str(&mut m, n.as_str());
        self.status_message = m;
    }

    /// Steps the codec family forward or back and focuses it.
    pub fn cycle_codec(&mut self, forward: bool)
        ensures
            final(self).export_codec_family == if forward {
                old(self).export_codec_family.spec_next()
            } else {
                old(self).export_codec_family.spec_prev()
            },
            final(self).status_message@ == "Codec: "@ + final(self).export_codec_family.spec_name(),
            *final(self) == (ExportSettings {
                export_codec_family: final(self).export_codec_family,
                export_focus: ExportFocus::CodecFamily,
                status_message: final(self).status_message,
                ..*old(self)
            }),
    {
        self.export_codec_family = if forward {
            self.export_codec_family.next()
        } else {
            self.export_codec_family.prev()
        };
        self.export_focus = ExportFocus::CodecFamily;
        let mut m = owned("Codec: ");
        push_str(&mut m, self.export_codec_family.name());
        self.status_message = m;
    }

    /// Steps the active family's profile forward or back; the other
    /// families keep theirs.
    pub fn cycle_profile(&mut self, forward: bool)
        ensures
            profile_cycled(*old(self), *final(self), forward),
    {
        match self.export_codec_family {
            CodecFamily::ProRes => {
                self.prores_profile = if forward {
                    self.prores_profile.next()
                } else {
                    self.prores_profile.prev()
                };
            },
            CodecFamily::DNxHR => {
                self.dnxhr_profile = if forward {
                    self.dnxhr_profile.next()
                } else {
                    self.dnxhr_profile.prev()
                };
            },
            CodecFamily::HEVC => {
                self.hevc_profile = if forward {
                    self.hevc_profile.next()
                } else {
                    self.hevc_profile.prev()
                };
            },
            CodecFamily::H264 => {
                self.h264_profile = if forward {
                    self.h264_profile.next()
                } else {
                    self.h264_profile.prev()
                };
            },
            CodecFamily::AV1 => {
                self.av1_profile = if forward {
                    self.av1_profile.next()
                } else {
                    self.av1_profile.prev()
                };
            },
            CodecFamily::VP9 => {
                self.vp9_profile = if forward {
                    self.vp9_profile.next()
                } else {
                    self.vp9_profile.prev()
                };
            },
        }
        let mut m = owned("Profile: ");
        push_str(&mut m, self.active_profile_name());
        self.status_message = m;
        self.export_focus = ExportFocus::Profile;
    }

    /// Whether the current settings are those of the first preset named
    /// `name`. Folders are compared as paths, so two spellings of one path
    /// may match; equal folders always do.
    pub fn current_matches_preset(&self, name: &str) -> (r: bool)
        ensures
            first_named(self.presets@, name@) is None ==> !r,
            first_named(self.presets@, name@) matches Some(k) ==> {
                let p = self.presets@[k];
                &&& r ==> settings_match(*self, p)
                &&& (p.export_folder is None) != (self.export_folder is None) ==> !r
                &&& holds_preset(*self, p) ==> r
            },
    {
        let mut i: usize = 0;
        while i < self.presets.len()
            invariant
                i <= self.presets@.len(),
                forall|j: int| 0 <= j < i ==> (#[trigger] self.presets@[j]).name@ != name@,
            decreases self.presets@.len() - i,
        {
            let p = &self.presets[i];
            if str_eq(p.name.as_str(), name) {
                proof {
                    lemma_first_named_at(self.presets@, name@, i as int);
                }
                let same_folder = match (&p.export_folder, &self.export_folder) {
                    (Some(x), Some(y)) => path_eq(x, y),
                    _ => true,
                };
                return self.matches_preset_given(p, same_folder);
            }
            i = i + 1;
        }
        false
    }

    /// Whether the current settings are those of `p`, given whether the two
    /// export folders compare equal as paths (`same_folder`, used when both
    /// are set).
    pub fn matches_preset_given(&self, p: &ExportPreset, same_folder: bool) -> (r: bool)
        ensures
            r == (settings_match(*self, *p) && match (p.export_folder, self.export_folder) {
                (None, None) => true,
                (Some(_), Some(_)) => same_folder,
                _ => false,
            }),
    {
        let pr = p.rate_control.name();
        let sr = self.active_rate_control.name();
        let folders = match (&p.export_folder, &self.export_folder) {
            (None, None) => true,
            (Some(_), Some(_)) => same_folder,
            _ => false,
        };
        p.color_space == self.export_color_space && p.transfer_function == self.export_transfer_function
            && p.codec_family == self.export_codec_family && p.prores_profile == self.prores_profile
            && p.dnxhr_profile == self.dnxhr_profile && p.hevc_profile == self.hevc_profile
            && p.h264_profile == self.h264_profile && p.av1_profile == self.av1_profile
            && p.vp9_profile == self.vp9_profile && str_eq(pr.as_str(), sr.as_str()) && folders
    }

    /// Copies every setting of the preset at `index`; an index past the
    /// list changes nothing.
    pub fn apply_preset(&mut self, index: usize)
        ensures
            index >= old(self).presets@.len() ==> *final(self) == *old(self),
            index < old(self).presets@.len() ==> applied(*old(self), *final(self), index as int),
    {
        if index >= self.presets.len() {
            return;
        }
        let p = self.presets[index].clone();
        self.export_color_space = p.color_space;
        self.export_transfer_function = p.transfer_function;
        self.export_codec_family = p.codec_family;
        self.prores_profile = p.prores_profile;
        self.dnxhr_profile = p.dnxhr_profile;
        self.hevc_profile = p.hevc_profile;
        self.h264_profile = p.h264_profile;
        self.av1_profile = p.av1_profile;
        self.vp9_profile = p.vp9_profile;
        self.active_rate_control = p.rate_control;
        self.export_folder = p.export_folder;
        if !matches!(self.active_rate_control, RateControl::Custom(_)) {
            self.is_editing_custom_rate = false;
        }
        self.active_preset = Some(p.name.clone());
        let mut m = owned("Applied preset: ");
        push_str(&mut m, p.name.as_str());
        self.status_message = m;
    }

    /// Saves the current settings under the trimmed `name`, replacing a
    /// preset of that name or appending one, and marks it active. Returns
    /// whether the preset list changed and is to be written back; an empty
    /// name only sets a message.
    #[verifier::rlimit(40)]
    pub fn save_current_as_preset(&mut self, name: String) -> (saved: bool)
        ensures
            preset_saved(*old(self), *final(self), name@, saved),
    {
        let n = trimmed(name.as_str());
        if n.as_str().unicode_len() == 0 {
            self.status_message = owned("Preset name cannot be empty");
            return false;
        }
        let preset = ExportPreset::snapshot(
            n.clone(),
            self.export_color_space,
            self.export_transfer_function,
            self.export_codec_family,
            self.prores_profile,
            self.dnxhr_profile,
            self.hevc_profile,
            self.h264_profile,
            self.av1_profile,
            self.vp9_profile,
            self.active_rate_control.clone(),
            clone_folder(&self.export_folder),
        );
        let ghost before = self.presets@;
        ExportPreset::upsert(&mut self.presets, preset);
        proof {
            lemma_upsert_first_named(before, preset, self.presets@);
        }
        self.active_preset = Some(n.clone());
        let mut m = owned("Saved preset: ");
        push_str(&mut m, n.as_str());
        self.status_message = m;
        proof {
            let k = first_named(before, n@);
            let at = if k is Some { k.unwrap() } else { before.len() as int };
            assert(first_named(self.presets@, n@) == Some(at));
            assert(self.presets@[at] == preset);
            assert(self.presets@[at].name@ == n@);
            assert(holds_preset(*self, self.presets@[at]));
            assert(n@ == trim_ws(name@));
        }
        true
    }

    /// Deletes the preset at `index`, clearing the active marker when it
    /// named that preset and keeping the picker's cursor inside the list.
    /// Returns whether a preset was removed and the list is to be written
    /// back.
    #[verifier::spinoff_prover]
    #[verifier::rlimit(100)]
    pub fn delete_preset(&mut self, index: usize) -> (deleted: bool)
        ensures
            preset_deleted(*old(self), *final(self), index, deleted),
    {
        if index >= self.presets.len() {
            return false;
        }
        let removed_name = self.presets[index].name.clone();
        self.presets.remove(index);
        let clear = match &self.active_preset {
            Some(a) => str_eq(a.as_str(), removed_name.as_str()),
            None => false,
        };
        if clear {
            self.active_preset = None;
        }
        if self.presets.len() > 0 && self.preset_picker.index >= self.presets.len() {
            self.preset_picker.index = self.presets.len() - 1;
        }
        let mut m = owned("Deleted preset: ");
        push_str(&mut m, removed_name.as_str());
        self.preset_picker.message = Some(m.clone());
        self.status_message = m;
        true
    }

    /// Opens the picker with its cursor inside the list; with no presets
    /// it only points at how to save one.
    pub fn open_preset_picker(&mut self)
        ensures
            picker_opened(*old(self), *final(self)),
    {
        if self.presets.len() == 0 {
            self.status_message = owned(
                "No presets yet \u{2014} press [p] to save the current settings",
            );
            return;
        }
        let last = self.presets.len() - 1;
        let index = if self.preset_picker.index < last {
            self.preset_picker.index
        } else {
            last
        };
        self.preset_picker = PresetPickerState { open: true, index, message: None };
    }

    pub fn close_preset_picker(&mut self)
        ensures
            *final(self) == (ExportSettings {
                preset_picker: PresetPickerState {
                    open: false,
                    index: old(self).preset_picker.index,
                    message: None,
                },
                ..*old(self)
            }),
    {
        self.preset_picker.open = false;
        self.preset_picker.message = None;
    }

    /// Starts naming a new preset: a copy of the active preset's name, or
    /// a default; the picker closes.
    pub fn begin_naming_preset(&mut self)
        ensures
            naming_begun(*old(self), *final(self)),
    {
        let default_name = match &self.active_preset {
            Some(n) => {
                let mut s = n.clone();
                push_str(&mut s, " (copy)");
                s
            },
            None => owned("My Preset"),
        };
        self.preset_naming = Some(PresetNamingState { name: default_name, message: None });
        self.preset_picker.open = false;
    }

    pub fn cancel_naming_preset(&mut self)
        ensures
            *final(self) == (ExportSettings { preset_naming: None, ..*old(self) }),
    {
        self.preset_naming = None;
    }

    /// Saves under the typed name and leaves naming; returns whether the
    /// preset list is to be written back.
    pub fn commit_naming_preset(&mut self) -> (saved: bool)
        ensures
            old(self).preset_naming is None ==> !saved && *final(self) == *old(self),
            old(self).preset_naming matches Some(st) ==> preset_saved(
                ExportSettings { preset_naming: None, ..*old(self) },
                *final(self),
                st.name@,
                saved,
            ),
    {
        let name = match &self.preset_naming {
            Some(s) => s.name.clone(),
            None => return false,
        };
        self.preset_naming = None;
        self.save_current_as_preset(name)
    }
}

proof fn lemma_first_named_at(list: Seq<ExportPreset>, name: Seq<char>, i: int)
    requires
        0 <= i < list.len(),
        list[i].name@ == name,
        forall|j: int| 0 <= j < i ==> (#[trigger] list[j]).name@ != name,
    ensures
        first_named(list, name) == Some(i),
{
    let k = choose|k: int|
        0 <= k < list.len() && (#[trigger] list[k]).name@ == name && forall|j: int|
            0 <= j < k ==> list[j].name@ != name;
    assert(list[i].name@ == name);
    if k < i {
        assert(list[k].name@ != name);
    } else if k > i {
        assert(list[i].name@ != name);
    }
}

/// Some preset named `name` at or before `i` has no earlier namesake.
proof fn lemma_least_named(list: Seq<ExportPreset>, name: Seq<char>, i: int)
    requires
        0 <= i < list.len(),
        list[i].name@ == name,
    ensures
        exists|k: int|
            0 <= k <= i && (#[trigger] list[k]).name@ == name && forall|j: int|
                0 <= j < k ==> list[j].name@ != name,
    decreases i,
{
    if exists|j: int| 0 <= j < i && (#[trigger] list[j]).name@ == name {
        let j = choose|j: int| 0 <= j < i && (#[trigger] list[j]).name@ == name;
        lemma_least_named(list, name, j);
    } else {
        assert(forall|j: int| 0 <= j < i ==> (#[trigger] list[j]).name@ != name);
    }
}

/// After an upsert the preset is the first of its name.
proof fn lemma_upsert_first_named(before: Seq<ExportPreset>, p: ExportPreset, after: Seq<ExportPreset>)
    requires
        first_named(before, p.name@) is Some ==> after == before.update(
            first_named(before, p.name@).unwrap(),
            p,
        ),
        first_named(before, p.name@) is None ==> after == before.push(p),
    ensures
        first_named(after, p.name@) == Some(
            if first_named(before, p.name@) is Some {
                first_named(before, p.name@).unwrap()
            } else {
                before.len() as int
            },
        ),
        after[first_named(after, p.name@).unwrap()] == p,
        forall|i: int|
            0 <= i < before.len() && Some(i) != first_named(before, p.name@) ==> #[trigger] after[i]
                == before[i],
        after.len() == if first_named(before, p.name@) is Some {
            before.len()
        } else {
            before.len() + 1
        },
{
    let n = p.name@;
    if first_named(before, n) is Some {
        let w = choose|i: int| 0 <= i < before.len() && (#[trigger] before[i]).name@ == n;
        lemma_least_named(before, n, w);
        let k = first_named(before, n).unwrap();
        assert(0 <= k < before.len() && before[k].name@ == n && forall|j: int|
            0 <= j < k ==> before[j].name@ != n);
        assert forall|j: int| 0 <= j < k implies (#[trigger] after[j]).name@ != n by {
            assert(after[j] == before[j]);
        }
        lemma_first_named_at(after, n, k);
    } else {
        assert forall|j: int| 0 <= j < before.len() implies (#[trigger] after[j]).name@ != n by {
            assert(after[j] == before[j]);
            if before[j].name@ == n {
                assert(exists|i: int| 0 <= i < before.len() && (#[trigger] before[i]).name@ == n);
            }
        }
        lemma_first_named_at(after, n, before.len() as int);
    }
}

/// Applying a preset that is the first of its name makes the current
/// settings match it, so `current_matches_preset` reports it.
pub proof fn lemma_apply_then_matches(s: ExportSettings, t: ExportSettings, index: int)
    requires
        0 <= index < s.presets@.len(),
        first_named(s.presets@, s.presets@[index].name@) == Some(index),
        applied(s, t, index),
    ensures
        first_named(t.presets@, s.presets@[index].name@) == Some(index),
        holds_preset(t, t.presets@[index]),
{
}


/// `s` without its last character, as `String::pop` leaves it.
fn without_last(s: &String) -> (r: String)
    ensures
        r@ == if s@.len() > 0 { s@.drop_last() } else { s@ },
{
    let cs = to_chars(s.as_str());
    let mut t = String::new();
    if cs.len() > 0 {
        push_chars(&mut t, cs.as_slice(), 0, cs.len() - 1);
        proof {
            assert(t@ =~= s@.drop_last());
        }
    } else {
        push_chars(&mut t, cs.as_slice(), 0, 0);
        proof {
            assert(t@ =~= s@);
        }
    }
    t
}

/// The characters a custom rate may be typed with: ASCII letters and
/// digits, `_` and `-`.
pub open spec fn custom_rate_char(c: char) -> bool {
    ('0' <= c && c <= '9') || ('a' <= c && c <= 'z') || ('A' <= c && c <= 'Z') || c == '_' || c
        == '-'
}

impl ExportSettings {
    /// Types a character into the name of the preset being named.
    pub fn type_preset_name_char(&mut self, c: char)
        ensures
            old(self).preset_naming is None ==> *final(self) == *old(self),
            old(self).preset_naming matches Some(st) ==> {
                &&& final(self).preset_naming matches Some(nst) && nst.name@ == st.name@.push(c)
                    && nst.message == st.message
                &&& *final(self) == (ExportSettings {
                    preset_naming: final(self).preset_naming,
                    ..*old(self)
                })
            },
    {
        if let Some(st) = &self.preset_naming {
            let mut name = st.name.clone();
            push_char(&mut name, c);
            let message = st.message.clone();
            self.preset_naming = Some(PresetNamingState { name, message });
        }
    }

    /// Erases the last character of the name being typed, if any.
    pub fn erase_preset_name_char(&mut self)
        ensures
            old(self).preset_naming is None ==> *final(self) == *old(self),
            old(self).preset_naming matches Some(st) ==> {
                &&& final(self).preset_naming matches Some(nst) && nst.name@ == (if st.name@.len()
                    > 0 {
                    st.name@.drop_last()
                } else {
                    st.name@
                }) && nst.message == st.message
                &&& *final(self) == (ExportSettings {
                    preset_naming: final(self).preset_naming,
                    ..*old(self)
                })
            },
    {
        if let Some(st) = &self.preset_naming {
            let name = without_last(&st.name);
            let message = st.message.clone();
            self.preset_naming = Some(PresetNamingState { name, message });
        }
    }

    /// Moves the picker's cursor up one preset, stopping at the first, and
    /// clears its message.
    pub fn preset_picker_up(&mut self)
        ensures
            *final(self) == (ExportSettings {
                preset_picker: PresetPickerState {
                    open: old(self).preset_picker.open,
                    index: if old(self).preset_picker.index > 0 {
                        (old(self).preset_picker.index - 1) as usize
                    } else {
                        0
                    },
                    message: None,
                },
                ..*old(self)
            }),
    {
        if self.preset_picker.index > 0 {
            self.preset_picker.index = self.preset_picker.index - 1;
        }
        self.preset_picker.message = None;
    }

    /// Moves the picker's cursor down one preset, stopping at the last,
    /// and clears its message.
    pub fn preset_picker_down(&mut self)
        ensures
            *final(self) == (ExportSettings {
                preset_picker: PresetPickerState {
                    open: old(self).preset_picker.open,
                    index: if old(self).preset_picker.index + 1 < old(self).presets@.len() {
                        (old(self).preset_picker.index + 1) as usize
                    } else {
                        old(self).preset_picker.index
                    },
                    message: None,
                },
                ..*old(self)
            }),
    {
        if self.preset_picker.index < self.presets.len() && self.preset_picker.index + 1
            < self.presets.len() {
            self.preset_picker.index = self.preset_picker.index + 1;
        }
        self.preset_picker.message = None;
    }

    /// Types a character into a custom rate: only the characters of
    /// `custom_rate_char` are taken, and only while the rate is custom.
    pub fn type_custom_rate_char(&mut self, c: char)
        ensures
            old(self).active_rate_control matches RateControl::Custom(v) ==> (custom_rate_char(c)
                ==> (final(self).active_rate_control matches RateControl::Custom(nv) && nv@
                == v@.push(c))),
            !(old(self).active_rate_control is Custom && custom_rate_char(c))
                ==> final(self).active_rate_control == old(self).active_rate_control,
            *final(self) == (ExportSettings {
                active_rate_control: final(self).active_rate_control,
                ..*old(self)
            }),
    {
        let accepted = ('0' <= c && c <= '9') || ('a' <= c && c <= 'z') || ('A' <= c && c <= 'Z')
            || c == '_' || c == '-';
        if accepted {
            if let RateControl::Custom(v) = &self.active_rate_control {
                let mut nv = v.clone();
                push_char(&mut nv, c);
                self.active_rate_control = RateControl::Custom(nv);
            }
        }
    }

    /// Erases the last character of a custom rate.
    pub fn erase_custom_rate_char(&mut self)
        ensures
            old(self).active_rate_control matches RateControl::Custom(v) ==> (
            final(self).active_rate_control matches RateControl::Custom(nv) && nv@ == (if v@.len()
                > 0 {
                v@.drop_last()
            } else {
                v@
            })),
            !(old(self).active_rate_control is Custom) ==> final(self).active_rate_control == old(self).active_rate_control,
            *final(self) == (ExportSettings {
                active_rate_control: final(self).active_rate_control,
                ..*old(self)
            }),
    {
        if let RateControl::Custom(v) = &self.active_rate_control {
            let nv = without_last(v);
            self.active_rate_control = RateControl::Custom(nv);
        }
    }

    /// Leaves custom-rate editing and shows the rate.
    pub fn finish_custom_rate_edit(&mut self)
        ensures
            final(self).status_message@ == "Rate: "@ + old(self).active_rate_control.spec_name(),
            *final(self) == (ExportSettings {
                is_editing_custom_rate: false,
                status_message: final(self).status_message,
                ..*old(self)
            }),
    {
        self.is_editing_custom_rate = false;
        let mut m = owned("Rate: ");
        let n = self.active_rate_control.name();
        push_str(&mut m, n.as_str());
        self.status_message = m;
    }
}


impl ExportSettings {
    /// Steps the export frame rate and focuses it.
    pub fn cycle_export_fps(&mut self)
        ensures
            final(self).export_fps == spec_next_fps(old(self).export_fps),
            final(self).status_message@ == "FPS: "@ + spec_fps_label(final(self).export_fps),
            *final(self) == (ExportSettings {
                export_fps: final(self).export_fps,
                export_focus: ExportFocus::Fps,
                status_message: final(self).status_message,
                ..*old(self)
            }),
    {
        self.export_fps = self.export_fps.next();
        self.export_focus = ExportFocus::Fps;
        let mut m = owned("FPS: ");
        push_str(&mut m, self.export_fps.label());
        self.status_message = m;
    }

    /// Steps the output gamut forward or back and shows it.
    pub fn cycle_color_space(&mut self, forward: bool)
        ensures
            final(self).export_color_space == if forward {
                old(self).export_color_space.spec_next()
            } else {
                old(self).export_color_space.spec_prev()
            },
            final(self).status_message@ == "Gamut: "@ + final(self).export_color_space.spec_name(),
            *final(self) == (ExportSettings {
                export_color_space: final(self).export_color_space,
                status_message: final(self).status_message,
                ..*old(self)
            }),
    {
        self.export_color_space = if forward {
            self.export_color_space.next()
        } else {
            self.export_color_space.prev()
        };
        let mut m = owned("Gamut: ");
        push_str(&mut m, self.export_color_space.name());
        self.status_message = m;
    }

    /// Steps the transfer curve forward or back and shows it.
    pub fn cycle_transfer_function(&mut self, forward: bool)
        ensures
            final(self).export_transfer_function == if forward {
                old(self).export_transfer_function.spec_next()
            } else {
                old(self).export_transfer_function.spec_prev()
            },
            final(self).status_message@ == "Transfer: "@
                + final(self).export_transfer_function.spec_name(),
            *final(self) == (ExportSettings {
                export_transfer_function: final(self).export_transfer_function,
                status_message: final(self).status_message,
                ..*old(self)
            }),
    {
        self.export_transfer_function = if forward {
            self.export_transfer_function.next()
        } else {
            self.export_transfer_function.prev()
        };
        let mut m = owned("Transfer: ");
        push_str(&mut m, self.export_transfer_function.name());
        self.status_message = m;
    }

    /// Exports go to `folder` from now on.
    pub fn set_export_folder(&mut self, folder: std::path::PathBuf)
        ensures
            final(self).status_message@ == "Export folder set"@,
            *final(self) == (ExportSettings {
                export_folder: Some(folder),
                status_message: final(self).status_message,
                ..*old(self)
            }),
    {
        self.export_folder = Some(folder);
        self.status_message = owned("Export folder set");
    }
}

} // verus!

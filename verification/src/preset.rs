//! Export presets: named bundles of every export setting, their flat
//! string form for the presets file, and list editing by name.

use vstd::prelude::*;
use crate::color::{ColorSpace, TransferFunction, lemma_color_space_cycle, lemma_transfer_function_cycle};
use crate::export::{
    Av1Profile, CodecFamily, DnxhrProfile, H264Profile, HevcProfile, ProResProfile, RateControl,
    Vp9Profile, lemma_codec_family_cycle, lemma_prores_profile_cycle, lemma_dnxhr_profile_cycle,
    lemma_hevc_profile_cycle, lemma_h264_profile_cycle, lemma_av1_profile_cycle,
    lemma_vp9_profile_cycle,
};
use crate::file::opt_view;
use crate::metadata::push_chars;
use crate::text::{ends_with, owned, starts_with, str_eq, str_starts_with, to_chars};

verus! {

broadcast use vstd::string::group_string_axioms;

/// Different values have different names.
pub proof fn lemma_cs_names_distinct(a: ColorSpace, b: ColorSpace)
    requires
        a != b,
    ensures
        a.spec_name() != b.spec_name(),
{
    reveal_strlit("ACES AP1");
    reveal_strlit("ARRI Wide Gamut 3");
    reveal_strlit("ARRI Wide Gamut 4");
    reveal_strlit("Canon Cinema Gamut");
    reveal_strlit("DaVinci Wide Gamut");
    reveal_strlit("DCI-P3");
    reveal_strlit("Display P3");
    reveal_strlit("F-Gamut");
    reveal_strlit("F-Gamut C");
    reveal_strlit("Panasonic V-Gamut");
    reveal_strlit("Rec.2020");
    reveal_strlit("Rec.709");
    reveal_strlit("S-Gamut3");
    reveal_strlit("S-Gamut3.Cine");
    reveal_strlit("sRGB");
    assert("ACES AP1"@.len() != "ARRI Wide Gamut 3"@.len());
    assert("ACES AP1"@.len() != "ARRI Wide Gamut 4"@.len());
    assert("ACES AP1"@.len() != "Canon Cinema Gamut"@.len());
    assert("ACES AP1"@.len() != "DaVinci Wide Gamut"@.len());
    assert("ACES AP1"@.len() != "DCI-P3"@.len());
    assert("ACES AP1"@.len() != "Display P3"@.len());
    assert("ACES AP1"@.len() != "F-Gamut"@.len());
    assert("ACES AP1"@.len() != "F-Gamut C"@.len());
    assert("ACES AP1"@.len() != "Panasonic V-Gamut"@.len());
    assert("ACES AP1"@[0] != "Rec.2020"@[0]);
    assert("ACES AP1"@.len() != "Rec.709"@.len());
    assert("ACES AP1"@[0] != "S-Gamut3"@[0]);
    assert("ACES AP1"@.len() != "S-Gamut3.Cine"@.len());
    assert("ACES AP1"@.len() != "sRGB"@.len());
    assert("ARRI Wide Gamut 3"@[16] != "ARRI Wide Gamut 4"@[16]);
    assert("ARRI Wide Gamut 3"@.len() != "Canon Cinema Gamut"@.len());
    assert("ARRI Wide Gamut 3"@.len() != "DaVinci Wide Gamut"@.len());
    assert("ARRI Wide Gamut 3"@.len() != "DCI-P3"@.len());
    assert("ARRI Wide Gamut 3"@.len() != "Display P3"@.len());
    assert("ARRI Wide Gamut 3"@.len() != "F-Gamut"@.len());
    assert("ARRI Wide Gamut 3"@.len() != "F-Gamut C"@.len());
    assert("ARRI Wide Gamut 3"@[0] != "Panasonic V-Gamut"@[0]);
    assert("ARRI Wide Gamut 3"@.len() != "Rec.2020"@.len());
    assert("ARRI Wide Gamut 3"@.len() != "Rec.709"@.len());
    assert("ARRI Wide Gamut 3"@.len() != "S-Gamut3"@.len());
    assert("ARRI Wide Gamut 3"@.len() != "S-Gamut3.Cine"@.len());
    assert("ARRI Wide Gamut 3"@.len() != "sRGB"@.len());
    assert("ARRI Wide Gamut 4"@.len() != "Canon Cinema Gamut"@.len());
    assert("ARRI Wide Gamut 4"@.len() != "DaVinci Wide Gamut"@.len());
    assert("ARRI Wide Gamut 4"@.len() != "DCI-P3"@.len());
    assert("ARRI Wide Gamut 4"@.len() != "Display P3"@.len());
    assert("ARRI Wide Gamut 4"@.len() != "F-Gamut"@.len());
    assert("ARRI Wide Gamut 4"@.len() != "F-Gamut C"@.len());
    assert("ARRI Wide Gamut 4"@[0] != "Panasonic V-Gamut"@[0]);
    assert("ARRI Wide Gamut 4"@.len() != "Rec.2020"@.len());
    assert("ARRI Wide Gamut 4"@.len() != "Rec.709"@.len());
    assert("ARRI Wide Gamut 4"@.len() != "S-Gamut3"@.len());
    assert("ARRI Wide Gamut 4"@.len() != "S-Gamut3.Cine"@.len());
    assert("ARRI Wide Gamut 4"@.len() != "sRGB"@.len());
    assert("Canon Cinema Gamut"@[0] != "DaVinci Wide Gamut"@[0]);
    assert("Canon Cinema Gamut"@.len() != "DCI-P3"@.len());
    assert("Canon Cinema Gamut"@.len() != "Display P3"@.len());
    assert("Canon Cinema Gamut"@.len() != "F-Gamut"@.len());
    assert("Canon Cinema Gamut"@.len() != "F-Gamut C"@.len());
    assert("Canon Cinema Gamut"@.len() != "Panasonic V-Gamut"@.len());
    assert("Canon Cinema Gamut"@.len() != "Rec.2020"@.len());
    assert("Canon Cinema Gamut"@.len() != "Rec.709"@.len());
    assert("Canon Cinema Gamut"@.len() != "S-Gamut3"@.len());
    assert("Canon Cinema Gamut"@.len() != "S-Gamut3.Cine"@.len());
    assert("Canon Cinema Gamut"@.len() != "sRGB"@.len());
    assert("DaVinci Wide Gamut"@.len() != "DCI-P3"@.len());
    assert("DaVinci Wide Gamut"@.len() != "Display P3"@.len());
    assert("DaVinci Wide Gamut"@.len() != "F-Gamut"@.len());
    assert("DaVinci Wide Gamut"@.len() != "F-Gamut C"@.len());
    assert("DaVinci Wide Gamut"@.len() != "Panasonic V-Gamut"@.len());
    assert("DaVinci Wide Gamut"@.len() != "Rec.2020"@.len());
    assert("DaVinci Wide Gamut"@.len() != "Rec.709"@.len());
    assert("DaVinci Wide Gamut"@.len() != "S-Gamut3"@.len());
    assert("DaVinci Wide Gamut"@.len() != "S-Gamut3.Cine"@.len());
    assert("DaVinci Wide Gamut"@.len() != "sRGB"@.len());
    assert("DCI-P3"@.len() != "Display P3"@.len());
    assert("DCI-P3"@.len() != "F-Gamut"@.len());
    assert("DCI-P3"@.len() != "F-Gamut C"@.len());
    assert("DCI-P3"@.len() != "Panasonic V-Gamut"@.len());
    assert("DCI-P3"@.len() != "Rec.2020"@.len());
    assert("DCI-P3"@.len() != "Rec.709"@.len());
    assert("DCI-P3"@.len() != "S-Gamut3"@.len());
    assert("DCI-P3"@.len() != "S-Gamut3.Cine"@.len());
    assert("DCI-P3"@.len() != "sRGB"@.len());
    assert("Display P3"@.len() != "F-Gamut"@.len());
    assert("Display P3"@.len() != "F-Gamut C"@.len());
    assert("Display P3"@.len() != "Panasonic V-Gamut"@.len());
    assert("Display P3"@.len() != "Rec.2020"@.len());
    assert("Display P3"@.len() != "Rec.709"@.len());
    assert("Display P3"@.len() != "S-Gamut3"@.len());
    assert("Display P3"@.len() != "S-Gamut3.Cine"@.len());
    assert("Display P3"@.len() != "sRGB"@.len());
    assert("F-Gamut"@.len() != "F-Gamut C"@.len());
    assert("F-Gamut"@.len() != "Panasonic V-Gamut"@.len());
    assert("F-Gamut"@.len() != "Rec.2020"@.len());
    assert("F-Gamut"@[0] != "Rec.709"@[0]);
    assert("F-Gamut"@.len() != "S-Gamut3"@.len());
    assert("F-Gamut"@.len() != "S-Gamut3.Cine"@.len());
    assert("F-Gamut"@.len() != "sRGB"@.len());
    assert("F-Gamut C"@.len() != "Panasonic V-Gamut"@.len());
    assert("F-Gamut C"@.len() != "Rec.2020"@.len());
    assert("F-Gamut C"@.len() != "Rec.709"@.len());
    assert("F-Gamut C"@.len() != "S-Gamut3"@.len());
    assert("F-Gamut C"@.len() != "S-Gamut3.Cine"@.len());
    assert("F-Gamut C"@.len() != "sRGB"@.len());
    assert("Panasonic V-Gamut"@.len() != "Rec.2020"@.len());
    assert("Panasonic V-Gamut"@.len() != "Rec.709"@.len());
    assert("Panasonic V-Gamut"@.len() != "S-Gamut3"@.len());
    assert("Panasonic V-Gamut"@.len() != "S-Gamut3.Cine"@.len());
    assert("Panasonic V-Gamut"@.len() != "sRGB"@.len());
    assert("Rec.2020"@.len() != "Rec.709"@.len());
    assert("Rec.2020"@[0] != "S-Gamut3"@[0]);
    assert("Rec.2020"@.len() != "S-Gamut3.Cine"@.len());
    assert("Rec.2020"@.len() != "sRGB"@.len());
    assert("Rec.709"@.len() != "S-Gamut3"@.len());
    assert("Rec.709"@.len() != "S-Gamut3.Cine"@.len());
    assert("Rec.709"@.len() != "sRGB"@.len());
    assert("S-Gamut3"@.len() != "S-Gamut3.Cine"@.len());
    assert("S-Gamut3"@.len() != "sRGB"@.len());
    assert("S-Gamut3.Cine"@.len() != "sRGB"@.len());
}

/// The ColorSpace named `s`, if any.
pub open spec fn spec_cs_from_str(s: Seq<char>) -> Option<ColorSpace> {
    if exists|e: ColorSpace| e.spec_name() == s {
        Some(choose|e: ColorSpace| e.spec_name() == s)
    } else {
        None
    }
}

/// Reading back a name gives the value it names.
pub proof fn lemma_cs_from_name(e: ColorSpace)
    ensures
        spec_cs_from_str(e.spec_name()) == Some(e),
{
    let c = choose|c: ColorSpace| c.spec_name() == e.spec_name();
    if c != e {
        lemma_cs_names_distinct(c, e);
    }
}

pub fn cs_from_str(s: &str) -> (r: Option<ColorSpace>)
    ensures
        r == spec_cs_from_str(s@),
{
    let all = ColorSpace::all();
    let mut i: usize = 0;
    while i < all.len()
        invariant
            all@ == ColorSpace::spec_all(),
            i <= all@.len(),
            forall|j: int| 0 <= j < i ==> (#[trigger] all@[j]).spec_name() != s@,
        decreases all@.len() - i,
    {
        let e = all[i];
        if str_eq(e.name(), s) {
            proof {
                lemma_cs_from_name(e);
            }
            return Some(e);
        }
        i = i + 1;
    }
    proof {
        assert forall|e: ColorSpace| e.spec_name() != s@ by {
            lemma_color_space_cycle(e);
            assert(all@[e.spec_index()] == e);
        }
    }
    None
}

/// Different values have different names.
pub proof fn lemma_tf_names_distinct(a: TransferFunction, b: TransferFunction)
    requires
        a != b,
    ensures
        a.spec_name() != b.spec_name(),
{
    reveal_strlit("ACES CCT");
    reveal_strlit("ARRI LogC3");
    reveal_strlit("ARRI LogC4");
    reveal_strlit("Apple Log");
    reveal_strlit("Apple Log 2");
    reveal_strlit("C-Log3");
    reveal_strlit("DaVinci Intermediate");
    reveal_strlit("F-Log2");
    reveal_strlit("Gamma 2.4");
    reveal_strlit("HLG (BT.2100)");
    reveal_strlit("Linear");
    reveal_strlit("PQ (ST.2084)");
    reveal_strlit("Rec.709");
    reveal_strlit("S-Log3");
    reveal_strlit("V-Log");
    assert("ACES CCT"@.len() != "ARRI LogC3"@.len());
    assert("ACES CCT"@.len() != "ARRI LogC4"@.len());
    assert("ACES CCT"@.len() != "Apple Log"@.len());
    assert("ACES CCT"@.len() != "Apple Log 2"@.len());
    assert("ACES CCT"@.len() != "C-Log3"@.len());
    assert("ACES CCT"@.len() != "DaVinci Intermediate"@.len());
    assert("ACES CCT"@.len() != "F-Log2"@.len());
    assert("ACES CCT"@.len() != "Gamma 2.4"@.len());
    assert("ACES CCT"@.len() != "HLG (BT.2100)"@.len());
    assert("ACES CCT"@.len() != "Linear"@.len());
    assert("ACES CCT"@.len() != "PQ (ST.2084)"@.len());
    assert("ACES CCT"@.len() != "Rec.709"@.len());
    assert("ACES CCT"@.len() != "S-Log3"@.len());
    assert("ACES CCT"@.len() != "V-Log"@.len());
    assert("ARRI LogC3"@[9] != "ARRI LogC4"@[9]);
    assert("ARRI LogC3"@.len() != "Apple Log"@.len());
    assert("ARRI LogC3"@.len() != "Apple Log 2"@.len());
    assert("ARRI LogC3"@.len() != "C-Log3"@.len());
    assert("ARRI LogC3"@.len() != "DaVinci Intermediate"@.len());
    assert("ARRI LogC3"@.len() != "F-Log2"@.len());
    assert("ARRI LogC3"@.len() != "Gamma 2.4"@.len());
    assert("ARRI LogC3"@.len() != "HLG (BT.2100)"@.len());
    assert("ARRI LogC3"@.len() != "Linear"@.len());
    assert("ARRI LogC3"@.len() != "PQ (ST.2084)"@.len());
    assert("ARRI LogC3"@.len() != "Rec.709"@.len());
    assert("ARRI LogC3"@.len() != "S-Log3"@.len());
    assert("ARRI LogC3"@.len() != "V-Log"@.len());
    assert("ARRI LogC4"@.len() != "Apple Log"@.len());
    assert("ARRI LogC4"@.len() != "Apple Log 2"@.len());
    assert("ARRI LogC4"@.len() != "C-Log3"@.len());
    assert("ARRI LogC4"@.len() != "DaVinci Intermediate"@.len());
    assert("ARRI LogC4"@.len() != "F-Log2"@.len());
    assert("ARRI LogC4"@.len() != "Gamma 2.4"@.len());
    assert("ARRI LogC4"@.len() != "HLG (BT.2100)"@.len());
    assert("ARRI LogC4"@.len() != "Linear"@.len());
    assert("ARRI LogC4"@.len() != "PQ (ST.2084)"@.len());
    assert("ARRI LogC4"@.len() != "Rec.709"@.len());
    assert("ARRI LogC4"@.len() != "S-Log3"@.len());
    assert("ARRI LogC4"@.len() != "V-Log"@.len());
    assert("Apple Log"@.len() != "Apple Log 2"@.len());
    assert("Apple Log"@.len() != "C-Log3"@.len());
    assert("Apple Log"@.len() != "DaVinci Intermediate"@.len());
    assert("Apple Log"@.len() != "F-Log2"@.len());
    assert("Apple Log"@[0] != "Gamma 2.4"@[0]);
    assert("Apple Log"@.len() != "HLG (BT.2100)"@.len());
    assert("Apple Log"@.len() != "Linear"@.len());
    assert("Apple Log"@.len() != "PQ (ST.2084)"@.len());
    assert("Apple Log"@.len() != "Rec.709"@.len());
    assert("Apple Log"@.len() != "S-Log3"@.len());
    assert("Apple Log"@.len() != "V-Log"@.len());
    assert("Apple Log 2"@.len() != "C-Log3"@.len());
    assert("Apple Log 2"@.len() != "DaVinci Intermediate"@.len());
    assert("Apple Log 2"@.len() != "F-Log2"@.len());
    assert("Apple Log 2"@.len() != "Gamma 2.4"@.len());
    assert("Apple Log 2"@.len() != "HLG (BT.2100)"@.len());
    assert("Apple Log 2"@.len() != "Linear"@.len());
    assert("Apple Log 2"@.len() != "PQ (ST.2084)"@.len());
    assert("Apple Log 2"@.len() != "Rec.709"@.len());
    assert("Apple Log 2"@.len() != "S-Log3"@.len());
    assert("Apple Log 2"@.len() != "V-Log"@.len());
    assert("C-Log3"@.len() != "DaVinci Intermediate"@.len());
    assert("C-Log3"@[0] != "F-Log2"@[0]);
    assert("C-Log3"@.len() != "Gamma 2.4"@.len());
    assert("C-Log3"@.len() != "HLG (BT.2100)"@.len());
    assert("C-Log3"@[0] != "Linear"@[0]);
    assert("C-Log3"@.len() != "PQ (ST.2084)"@.len());
    assert("C-Log3"@.len() != "Rec.709"@.len());
    assert("C-Log3"@[0] != "S-Log3"@[0]);
    assert("C-Log3"@.len() != "V-Log"@.len());
    assert("DaVinci Intermediate"@.len() != "F-Log2"@.len());
    assert("DaVinci Intermediate"@.len() != "Gamma 2.4"@.len());
    assert("DaVinci Intermediate"@.len() != "HLG (BT.2100)"@.len());
    assert("DaVinci Intermediate"@.len() != "Linear"@.len());
    assert("DaVinci Intermediate"@.len() != "PQ (ST.2084)"@.len());
    assert("DaVinci Intermediate"@.len() != "Rec.709"@.len());
    assert("DaVinci Intermediate"@.len() != "S-Log3"@.len());
    assert("DaVinci Intermediate"@.len() != "V-Log"@.len());
    assert("F-Log2"@.len() != "Gamma 2.4"@.len());
    assert("F-Log2"@.len() != "HLG (BT.2100)"@.len());
    assert("F-Log2"@[0] != "Linear"@[0]);
    assert("F-Log2"@.len() != "PQ (ST.2084)"@.len());
    assert("F-Log2"@.len() != "Rec.709"@.len());
    assert("F-Log2"@[0] != "S-Log3"@[0]);
    assert("F-Log2"@.len() != "V-Log"@.len());
    assert("Gamma 2.4"@.len() != "HLG (BT.2100)"@.len());
    assert("Gamma 2.4"@.len() != "Linear"@.len());
    assert("Gamma 2.4"@.len() != "PQ (ST.2084)"@.len());
    assert("Gamma 2.4"@.len() != "Rec.709"@.len());
    assert("Gamma 2.4"@.len() != "S-Log3"@.len());
    assert("Gamma 2.4"@.len() != "V-Log"@.len());
    assert("HLG (BT.2100)"@.len() != "Linear"@.len());
    assert("HLG (BT.2100)"@.len() != "PQ (ST.2084)"@.len());
    assert("HLG (BT.2100)"@.len() != "Rec.709"@.len());
    assert("HLG (BT.2100)"@.len() != "S-Log3"@.len());
    assert("HLG (BT.2100)"@.len() != "V-Log"@.len());
    assert("Linear"@.len() != "PQ (ST.2084)"@.len());
    assert("Linear"@.len() != "Rec.709"@.len());
    assert("Linear"@[0] != "S-Log3"@[0]);
    assert("Linear"@.len() != "V-Log"@.len());
    assert("PQ (ST.2084)"@.len() != "Rec.709"@.len());
    assert("PQ (ST.2084)"@.len() != "S-Log3"@.len());
    assert("PQ (ST.2084)"@.len() != "V-Log"@.len());
    assert("Rec.709"@.len() != "S-Log3"@.len());
    assert("Rec.709"@.len() != "V-Log"@.len());
    assert("S-Log3"@.len() != "V-Log"@.len());
}

/// The TransferFunction named `s`, if any.
pub open spec fn spec_tf_from_str(s: Seq<char>) -> Option<TransferFunction> {
    if exists|e: TransferFunction| e.spec_name() == s {
        Some(choose|e: TransferFunction| e.spec_name() == s)
    } else {
        None
    }
}

/// Reading back a name gives the value it names.
pub proof fn lemma_tf_from_name(e: TransferFunction)
    ensures
        spec_tf_from_str(e.spec_name()) == Some(e),
{
    let c = choose|c: TransferFunction| c.spec_name() == e.spec_name();
    if c != e {
        lemma_tf_names_distinct(c, e);
    }
}

pub fn tf_from_str(s: &str) -> (r: Option<TransferFunction>)
    ensures
        r == spec_tf_from_str(s@),
{
    let all = TransferFunction::all();
    let mut i: usize = 0;
    while i < all.len()
        invariant
            all@ == TransferFunction::spec_all(),
            i <= all@.len(),
            forall|j: int| 0 <= j < i ==> (#[trigger] all@[j]).spec_name() != s@,
        decreases all@.len() - i,
    {
        let e = all[i];
        if str_eq(e.name(), s) {
            proof {
                lemma_tf_from_name(e);
            }
            return Some(e);
        }
        i = i + 1;
    }
    proof {
        assert forall|e: TransferFunction| e.spec_name() != s@ by {
            lemma_transfer_function_cycle(e);
            assert(all@[e.spec_index()] == e);
        }
    }
    None
}

/// Different values have different names.
pub proof fn lemma_codec_names_distinct(a: CodecFamily, b: CodecFamily)
    requires
        a != b,
    ensures
        a.spec_name() != b.spec_name(),
{
    reveal_strlit("ProRes");
    reveal_strlit("DNxHR");
    reveal_strlit("HEVC");
    reveal_strlit("H.264");
    reveal_strlit("AV1");
    reveal_strlit("VP9");
    assert("ProRes"@.len() != "DNxHR"@.len());
    assert("ProRes"@.len() != "HEVC"@.len());
    assert("ProRes"@.len() != "H.264"@.len());
    assert("ProRes"@.len() != "AV1"@.len());
    assert("ProRes"@.len() != "VP9"@.len());
    assert("DNxHR"@.len() != "HEVC"@.len());
    assert("DNxHR"@[0] != "H.264"@[0]);
    assert("DNxHR"@.len() != "AV1"@.len());
    assert("DNxHR"@.len() != "VP9"@.len());
    assert("HEVC"@.len() != "H.264"@.len());
    assert("HEVC"@.len() != "AV1"@.len());
    assert("HEVC"@.len() != "VP9"@.len());
    assert("H.264"@.len() != "AV1"@.len());
    assert("H.264"@.len() != "VP9"@.len());
    assert("AV1"@[0] != "VP9"@[0]);
}

/// The CodecFamily named `s`, if any.
pub open spec fn spec_codec_from_str(s: Seq<char>) -> Option<CodecFamily> {
    if exists|e: CodecFamily| e.spec_name() == s {
        Some(choose|e: CodecFamily| e.spec_name() == s)
    } else {
        None
    }
}

/// Reading back a name gives the value it names.
pub proof fn lemma_codec_from_name(e: CodecFamily)
    ensures
        spec_codec_from_str(e.spec_name()) == Some(e),
{
    let c = choose|c: CodecFamily| c.spec_name() == e.spec_name();
    if c != e {
        lemma_codec_names_distinct(c, e);
    }
}

pub fn codec_from_str(s: &str) -> (r: Option<CodecFamily>)
    ensures
        r == spec_codec_from_str(s@),
{
    let all = CodecFamily::all();
    let mut i: usize = 0;
    while i < all.len()
        invariant
            all@ == CodecFamily::spec_all(),
            i <= all@.len(),
            forall|j: int| 0 <= j < i ==> (#[trigger] all@[j]).spec_name() != s@,
        decreases all@.len() - i,
    {
        let e = all[i];
        if str_eq(e.name(), s) {
            proof {
                lemma_codec_from_name(e);
            }
            return Some(e);
        }
        i = i + 1;
    }
    proof {
        assert forall|e: CodecFamily| e.spec_name() != s@ by {
            lemma_codec_family_cycle(e);
            assert(all@[e.spec_index()] == e);
        }
    }
    None
}

/// Different values have different names.
pub proof fn lemma_prores_names_distinct(a: ProResProfile, b: ProResProfile)
    requires
        a != b,
    ensures
        a.spec_name() != b.spec_name(),
{
    reveal_strlit("Proxy");
    reveal_strlit("LT");
    reveal_strlit("Standard");
    reveal_strlit("HQ");
    reveal_strlit("4444");
    reveal_strlit("4444 XQ");
    assert("Proxy"@.len() != "LT"@.len());
    assert("Proxy"@.len() != "Standard"@.len());
    assert("Proxy"@.len() != "HQ"@.len());
    assert("Proxy"@.len() != "4444"@.len());
    assert("Proxy"@.len() != "4444 XQ"@.len());
    assert("LT"@.len() != "Standard"@.len());
    assert("LT"@[0] != "HQ"@[0]);
    assert("LT"@.len() != "4444"@.len());
    assert("LT"@.len() != "4444 XQ"@.len());
    assert("Standard"@.len() != "HQ"@.len());
    assert("Standard"@.len() != "4444"@.len());
    assert("Standard"@.len() != "4444 XQ"@.len());
    assert("HQ"@.len() != "4444"@.len());
    assert("HQ"@.len() != "4444 XQ"@.len());
    assert("4444"@.len() != "4444 XQ"@.len());
}

/// The ProResProfile named `s`, if any.
pub open spec fn spec_prores_from_str(s: Seq<char>) -> Option<ProResProfile> {
    if exists|e: ProResProfile| e.spec_name() == s {
        Some(choose|e: ProResProfile| e.spec_name() == s)
    } else {
        None
    }
}

/// Reading back a name gives the value it names.
pub proof fn lemma_prores_from_name(e: ProResProfile)
    ensures
        spec_prores_from_str(e.spec_name()) == Some(e),
{
    let c = choose|c: ProResProfile| c.spec_name() == e.spec_name();
    if c != e {
        lemma_prores_names_distinct(c, e);
    }
}

pub fn prores_from_str(s: &str) -> (r: Option<ProResProfile>)
    ensures
        r == spec_prores_from_str(s@),
{
    let all = ProResProfile::all();
    let mut i: usize = 0;
    while i < all.len()
        invariant
            all@ == ProResProfile::spec_all(),
            i <= all@.len(),
            forall|j: int| 0 <= j < i ==> (#[trigger] all@[j]).spec_name() != s@,
        decreases all@.len() - i,
    {
        let e = all[i];
        if str_eq(e.name(), s) {
            proof {
                lemma_prores_from_name(e);
            }
            return Some(e);
        }
        i = i + 1;
    }
    proof {
        assert forall|e: ProResProfile| e.spec_name() != s@ by {
            lemma_prores_profile_cycle(e);
            assert(all@[e.spec_index()] == e);
        }
    }
    None
}

impl Default for ProResProfile {
    fn default() -> (r: Self)
        ensures
            r == ProResProfile::HQ,
    {
        ProResProfile::HQ
    }
}

/// A stored profile name read back, the default profile when it is missing
/// or unknown.
pub open spec fn spec_prores_or_default(s: Option<Seq<char>>) -> ProResProfile {
    match s {
        Some(t) => match spec_prores_from_str(t) {
            Some(p) => p,
            None => ProResProfile::HQ,
        },
        None => ProResProfile::HQ,
    }
}

fn prores_or_default(s: &Option<String>) -> (r: ProResProfile)
    ensures
        r == spec_prores_or_default(opt_view(*s)),
{
    match s {
        Some(t) => match prores_from_str(t.as_str()) {
            Some(p) => p,
            None => ProResProfile::default(),
        },
        None => ProResProfile::default(),
    }
}

/// Different values have different names.
pub proof fn lemma_dnxhr_names_distinct(a: DnxhrProfile, b: DnxhrProfile)
    requires
        a != b,
    ensures
        a.spec_name() != b.spec_name(),
{
    reveal_strlit("SQ");
    reveal_strlit("HD");
    reveal_strlit("HDX");
    reveal_strlit("HQX");
    reveal_strlit("444");
    assert("SQ"@[0] != "HD"@[0]);
    assert("SQ"@.len() != "HDX"@.len());
    assert("SQ"@.len() != "HQX"@.len());
    assert("SQ"@.len() != "444"@.len());
    assert("HD"@.len() != "HDX"@.len());
    assert("HD"@.len() != "HQX"@.len());
    assert("HD"@.len() != "444"@.len());
    assert("HDX"@[1] != "HQX"@[1]);
    assert("HDX"@[0] != "444"@[0]);
    assert("HQX"@[0] != "444"@[0]);
}

/// The DnxhrProfile named `s`, if any.
pub open spec fn spec_dnxhr_from_str(s: Seq<char>) -> Option<DnxhrProfile> {
    if exists|e: DnxhrProfile| e.spec_name() == s {
        Some(choose|e: DnxhrProfile| e.spec_name() == s)
    } else {
        None
    }
}

/// Reading back a name gives the value it names.
pub proof fn lemma_dnxhr_from_name(e: DnxhrProfile)
    ensures
        spec_dnxhr_from_str(e.spec_name()) == Some(e),
{
    let c = choose|c: DnxhrProfile| c.spec_name() == e.spec_name();
    if c != e {
        lemma_dnxhr_names_distinct(c, e);
    }
}

pub fn dnxhr_from_str(s: &str) -> (r: Option<DnxhrProfile>)
    ensures
        r == spec_dnxhr_from_str(s@),
{
    let all = DnxhrProfile::all();
    let mut i: usize = 0;
    while i < all.len()
        invariant
            all@ == DnxhrProfile::spec_all(),
            i <= all@.len(),
            forall|j: int| 0 <= j < i ==> (#[trigger] all@[j]).spec_name() != s@,
        decreases all@.len() - i,
    {
        let e = all[i];
        if str_eq(e.name(), s) {
            proof {
                lemma_dnxhr_from_name(e);
            }
            return Some(e);
        }
        i = i + 1;
    }
    proof {
        assert forall|e: DnxhrProfile| e.spec_name() != s@ by {
            lemma_dnxhr_profile_cycle(e);
            assert(all@[e.spec_index()] == e);
        }
    }
    None
}

impl Default for DnxhrProfile {
    fn default() -> (r: Self)
        ensures
            r == DnxhrProfile::HQX,
    {
        DnxhrProfile::HQX
    }
}

/// A stored profile name read back, the default profile when it is missing
/// or unknown.
pub open spec fn spec_dnxhr_or_default(s: Option<Seq<char>>) -> DnxhrProfile {
    match s {
        Some(t) => match spec_dnxhr_from_str(t) {
            Some(p) => p,
            None => DnxhrProfile::HQX,
        },
        None => DnxhrProfile::HQX,
    }
}

fn dnxhr_or_default(s: &Option<String>) -> (r: DnxhrProfile)
    ensures
        r == spec_dnxhr_or_default(opt_view(*s)),
{
    match s {
        Some(t) => match dnxhr_from_str(t.as_str()) {
            Some(p) => p,
            None => DnxhrProfile::default(),
        },
        None => DnxhrProfile::default(),
    }
}

/// Different values have different names.
pub proof fn lemma_hevc_names_distinct(a: HevcProfile, b: HevcProfile)
    requires
        a != b,
    ensures
        a.spec_name() != b.spec_name(),
{
    reveal_strlit("Main 10 4:2:0");
    reveal_strlit("Main 10 4:4:4");
    assert("Main 10 4:2:0"@[10] != "Main 10 4:4:4"@[10]);
}

/// The HevcProfile named `s`, if any.
pub open spec fn spec_hevc_from_str(s: Seq<char>) -> Option<HevcProfile> {
    if exists|e: HevcProfile| e.spec_name() == s {
        Some(choose|e: HevcProfile| e.spec_name() == s)
    } else {
        None
    }
}

/// Reading back a name gives the value it names.
pub proof fn lemma_hevc_from_name(e: HevcProfile)
    ensures
        spec_hevc_from_str(e.spec_name()) == Some(e),
{
    let c = choose|c: HevcProfile| c.spec_name() == e.spec_name();
    if c != e {
        lemma_hevc_names_distinct(c, e);
    }
}

pub fn hevc_from_str(s: &str) -> (r: Option<HevcProfile>)
    ensures
        r == spec_hevc_from_str(s@),
{
    let all = HevcProfile::all();
    let mut i: usize = 0;
    while i < all.len()
        invariant
            all@ == HevcProfile::spec_all(),
            i <= all@.len(),
            forall|j: int| 0 <= j < i ==> (#[trigger] all@[j]).spec_name() != s@,
        decreases all@.len() - i,
    {
        let e = all[i];
        if str_eq(e.name(), s) {
            proof {
                lemma_hevc_from_name(e);
            }
            return Some(e);
        }
        i = i + 1;
    }
    proof {
        assert forall|e: HevcProfile| e.spec_name() != s@ by {
            lemma_hevc_profile_cycle(e);
            assert(all@[e.spec_index()] == e);
        }
    }
    None
}

impl Default for HevcProfile {
    fn default() -> (r: Self)
        ensures
            r == HevcProfile::Main10_420,
    {
        HevcProfile::Main10_420
    }
}

/// A stored profile name read back, the default profile when it is missing
/// or unknown.
pub open spec fn spec_hevc_or_default(s: Option<Seq<char>>) -> HevcProfile {
    match s {
        Some(t) => match spec_hevc_from_str(t) {
            Some(p) => p,
            None => HevcProfile::Main10_420,
        },
        None => HevcProfile::Main10_420,
    }
}

fn hevc_or_default(s: &Option<String>) -> (r: HevcProfile)
    ensures
        r == spec_hevc_or_default(opt_view(*s)),
{
    match s {
        Some(t) => match hevc_from_str(t.as_str()) {
            Some(p) => p,
            None => HevcProfile::default(),
        },
        None => HevcProfile::default(),
    }
}

/// Different values have different names.
pub proof fn lemma_h264_names_distinct(a: H264Profile, b: H264Profile)
    requires
        a != b,
    ensures
        a.spec_name() != b.spec_name(),
{
    reveal_strlit("Main 8-bit");
    reveal_strlit("High 10-bit");
    assert("Main 8-bit"@.len() != "High 10-bit"@.len());
}

/// The H264Profile named `s`, if any.
pub open spec fn spec_h264_from_str(s: Seq<char>) -> Option<H264Profile> {
    if exists|e: H264Profile| e.spec_name() == s {
        Some(choose|e: H264Profile| e.spec_name() == s)
    } else {
        None
    }
}

/// Reading back a name gives the value it names.
pub proof fn lemma_h264_from_name(e: H264Profile)
    ensures
        spec_h264_from_str(e.spec_name()) == Some(e),
{
    let c = choose|c: H264Profile| c.spec_name() == e.spec_name();
    if c != e {
        lemma_h264_names_distinct(c, e);
    }
}

pub fn h264_from_str(s: &str) -> (r: Option<H264Profile>)
    ensures
        r == spec_h264_from_str(s@),
{
    let all = H264Profile::all();
    let mut i: usize = 0;
    while i < all.len()
        invariant
            all@ == H264Profile::spec_all(),
            i <= all@.len(),
            forall|j: int| 0 <= j < i ==> (#[trigger] all@[j]).spec_name() != s@,
        decreases all@.len() - i,
    {
        let e = all[i];
        if str_eq(e.name(), s) {
            proof {
                lemma_h264_from_name(e);
            }
            return Some(e);
        }
        i = i + 1;
    }
    proof {
        assert forall|e: H264Profile| e.spec_name() != s@ by {
            lemma_h264_profile_cycle(e);
            assert(all@[e.spec_index()] == e);
        }
    }
    None
}

impl Default for H264Profile {
    fn default() -> (r: Self)
        ensures
            r == H264Profile::Main8bit,
    {
        H264Profile::Main8bit
    }
}

/// A stored profile name read back, the default profile when it is missing
/// or unknown.
pub open spec fn spec_h264_or_default(s: Option<Seq<char>>) -> H264Profile {
    match s {
        Some(t) => match spec_h264_from_str(t) {
            Some(p) => p,
            None => H264Profile::Main8bit,
        },
        None => H264Profile::Main8bit,
    }
}

fn h264_or_default(s: &Option<String>) -> (r: H264Profile)
    ensures
        r == spec_h264_or_default(opt_view(*s)),
{
    match s {
        Some(t) => match h264_from_str(t.as_str()) {
            Some(p) => p,
            None => H264Profile::default(),
        },
        None => H264Profile::default(),
    }
}

/// Different values have different names.
pub proof fn lemma_av1_names_distinct(a: Av1Profile, b: Av1Profile)
    requires
        a != b,
    ensures
        a.spec_name() != b.spec_name(),
{
    reveal_strlit("Profile 0 4:2:0 10-bit");
    reveal_strlit("Profile 1 4:4:4 10-bit");
    assert("Profile 0 4:2:0 10-bit"@[8] != "Profile 1 4:4:4 10-bit"@[8]);
}

/// The Av1Profile named `s`, if any.
pub open spec fn spec_av1_from_str(s: Seq<char>) -> Option<Av1Profile> {
    if exists|e: Av1Profile| e.spec_name() == s {
        Some(choose|e: Av1Profile| e.spec_name() == s)
    } else {
        None
    }
}

/// Reading back a name gives the value it names.
pub proof fn lemma_av1_from_name(e: Av1Profile)
    ensures
        spec_av1_from_str(e.spec_name()) == Some(e),
{
    let c = choose|c: Av1Profile| c.spec_name() == e.spec_name();
    if c != e {
        lemma_av1_names_distinct(c, e);
    }
}

pub fn av1_from_str(s: &str) -> (r: Option<Av1Profile>)
    ensures
        r == spec_av1_from_str(s@),
{
    let all = Av1Profile::all();
    let mut i: usize = 0;
    while i < all.len()
        invariant
            all@ == Av1Profile::spec_all(),
            i <= all@.len(),
            forall|j: int| 0 <= j < i ==> (#[trigger] all@[j]).spec_name() != s@,
        decreases all@.len() - i,
    {
        let e = all[i];
        if str_eq(e.name(), s) {
            proof {
                lemma_av1_from_name(e);
            }
            return Some(e);
        }
        i = i + 1;
    }
    proof {
        assert forall|e: Av1Profile| e.spec_name() != s@ by {
            lemma_av1_profile_cycle(e);
            assert(all@[e.spec_index()] == e);
        }
    }
    None
}

impl Default for Av1Profile {
    fn default() -> (r: Self)
        ensures
            r == Av1Profile::Profile0_420_10bit,
    {
        Av1Profile::Profile0_420_10bit
    }
}

/// A stored profile name read back, the default profile when it is missing
/// or unknown.
pub open spec fn spec_av1_or_default(s: Option<Seq<char>>) -> Av1Profile {
    match s {
        Some(t) => match spec_av1_from_str(t) {
            Some(p) => p,
            None => Av1Profile::Profile0_420_10bit,
        },
        None => Av1Profile::Profile0_420_10bit,
    }
}

fn av1_or_default(s: &Option<String>) -> (r: Av1Profile)
    ensures
        r == spec_av1_or_default(opt_view(*s)),
{
    match s {
        Some(t) => match av1_from_str(t.as_str()) {
            Some(p) => p,
            None => Av1Profile::default(),
        },
        None => Av1Profile::default(),
    }
}

/// Different values have different names.
pub proof fn lemma_vp9_names_distinct(a: Vp9Profile, b: Vp9Profile)
    requires
        a != b,
    ensures
        a.spec_name() != b.spec_name(),
{
    reveal_strlit("Profile 2 4:2:0 10-bit");
    reveal_strlit("Profile 3 4:4:4 10-bit");
    assert("Profile 2 4:2:0 10-bit"@[8] != "Profile 3 4:4:4 10-bit"@[8]);
}

/// The Vp9Profile named `s`, if any.
pub open spec fn spec_vp9_from_str(s: Seq<char>) -> Option<Vp9Profile> {
    if exists|e: Vp9Profile| e.spec_name() == s {
        Some(choose|e: Vp9Profile| e.spec_name() == s)
    } else {
        None
    }
}

/// Reading back a name gives the value it names.
pub proof fn lemma_vp9_from_name(e: Vp9Profile)
    ensures
        spec_vp9_from_str(e.spec_name()) == Some(e),
{
    let c = choose|c: Vp9Profile| c.spec_name() == e.spec_name();
    if c != e {
        lemma_vp9_names_distinct(c, e);
    }
}

pub fn vp9_from_str(s: &str) -> (r: Option<Vp9Profile>)
    ensures
        r == spec_vp9_from_str(s@),
{
    let all = Vp9Profile::all();
    let mut i: usize = 0;
    while i < all.len()
        invariant
            all@ == Vp9Profile::spec_all(),
            i <= all@.len(),
            forall|j: int| 0 <= j < i ==> (#[trigger] all@[j]).spec_name() != s@,
        decreases all@.len() - i,
    {
        let e = all[i];
        if str_eq(e.name(), s) {
            proof {
                lemma_vp9_from_name(e);
            }
            return Some(e);
        }
        i = i + 1;
    }
    proof {
        assert forall|e: Vp9Profile| e.spec_name() != s@ by {
            lemma_vp9_profile_cycle(e);
            assert(all@[e.spec_index()] == e);
        }
    }
    None
}

impl Default for Vp9Profile {
    fn default() -> (r: Self)
        ensures
            r == Vp9Profile::Profile2_420_10bit,
    {
        Vp9Profile::Profile2_420_10bit
    }
}

/// A stored profile name read back, the default profile when it is missing
/// or unknown.
pub open spec fn spec_vp9_or_default(s: Option<Seq<char>>) -> Vp9Profile {
    match s {
        Some(t) => match spec_vp9_from_str(t) {
            Some(p) => p,
            None => Vp9Profile::Profile2_420_10bit,
        },
        None => Vp9Profile::Profile2_420_10bit,
    }
}

fn vp9_or_default(s: &Option<String>) -> (r: Vp9Profile)
    ensures
        r == spec_vp9_or_default(opt_view(*s)),
{
    match s {
        Some(t) => match vp9_from_str(t.as_str()) {
            Some(p) => p,
            None => Vp9Profile::default(),
        },
        None => Vp9Profile::default(),
    }
}

// ---------------------------------------------------------------------------
// Rate control
// ---------------------------------------------------------------------------

/// A rate-control setting as a variant number and the custom text.
pub open spec fn rate_view(r: RateControl) -> (int, Seq<char>) {
    match r {
        RateControl::Lossless => (0, Seq::empty()),
        RateControl::High => (1, Seq::empty()),
        RateControl::Standard => (2, Seq::empty()),
        RateControl::Master400M => (3, Seq::empty()),
        RateControl::Standard150M => (4, Seq::empty()),
        RateControl::Custom(v) => (5, v@),
    }
}

/// The setting a stored rate-control name stands for: `Custom: [<text>]`
/// is the custom text, the named presets by their names, anything else
/// lossless.
pub open spec fn spec_rate_from_str(s: Seq<char>) -> (int, Seq<char>) {
    if starts_with(s, "Custom: ["@) && ends_with(s.skip(9), "]"@) {
        (5, s.subrange(9, s.len() - 1))
    } else if s == "Lossless"@ {
        (0, Seq::empty())
    } else if s == "High Quality"@ {
        (1, Seq::empty())
    } else if s == "Standard"@ {
        (2, Seq::empty())
    } else if s == "Master 400M"@ {
        (3, Seq::empty())
    } else if s == "Standard 150M"@ {
        (4, Seq::empty())
    } else {
        (0, Seq::empty())
    }
}

pub fn rate_to_str(r: &RateControl) -> (s: String)
    ensures
        s@ == r.spec_name(),
{
    r.name()
}

pub fn rate_from_str(s: &str) -> (r: RateControl)
    ensures
        rate_view(r) == spec_rate_from_str(s@),
{
    proof {
        reveal_strlit("Custom: [");
        reveal_strlit("]");
    }
    let cs = to_chars(s);
    if str_starts_with(s, "Custom: [") && cs.len() >= 10 && cs[cs.len() - 1] == ']' {
        let mut inner = String::new();
        push_chars(&mut inner, cs.as_slice(), 9, cs.len() - 1);
        proof {
            assert(inner@ =~= s@.subrange(9, s@.len() - 1));
        }
        proof {
            assert("]"@ =~= seq![']']);
            assert(s@.skip(9).skip(s@.skip(9).len() - 1) =~= seq![']']);
            assert(ends_with(s@.skip(9), "]"@));
        }
        return RateControl::Custom(inner);
    }
    proof {
        if starts_with(s@, "Custom: ["@) && ends_with(s@.skip(9), "]"@) {
            assert(s@.skip(9).skip(s@.skip(9).len() - 1)[0] == s@[s@.len() - 1]);
        }
    }
    if str_eq(s, "Lossless") {
        RateControl::Lossless
    } else if str_eq(s, "High Quality") {
        RateControl::High
    } else if str_eq(s, "Standard") {
        RateControl::Standard
    } else if str_eq(s, "Master 400M") {
        RateControl::Master400M
    } else if str_eq(s, "Standard 150M") {
        RateControl::Standard150M
    } else {
        RateControl::Lossless
    }
}

/// Reading back a rate-control name gives the setting it names.
pub proof fn lemma_rate_from_name(r: RateControl)
    ensures
        spec_rate_from_str(r.spec_name()) == rate_view(r),
{
    reveal_strlit("Custom: [");
    reveal_strlit("]");
    reveal_strlit("Custom: []");
    reveal_strlit("Lossless");
    reveal_strlit("High Quality");
    reveal_strlit("Standard");
    reveal_strlit("Master 400M");
    reveal_strlit("Standard 150M");
    let s = r.spec_name();
    assert("]"@ =~= seq![']']);
    assert("Custom: ["@.len() == 9);
    match r {
        RateControl::Custom(v) => {
            if v@.len() == 0 {
                assert(s.len() == 10);
                assert(s.take(9) =~= "Custom: ["@);
                let t = s.skip(9);
                assert(t[0] == ']');
                assert(t.skip(t.len() - 1) =~= "]"@);
                assert(ends_with(t, "]"@));
                assert(starts_with(s, "Custom: ["@));
                assert(s.subrange(9, s.len() - 1) =~= v@);
            } else {
                assert(s.len() == 10 + v@.len());
                assert(s.take(9) =~= "Custom: ["@);
                assert(s.skip(9).skip(s.skip(9).len() - 1) =~= "]"@);
                assert(ends_with(s.skip(9), "]"@));
                assert(starts_with(s, "Custom: ["@));
                assert(s.subrange(9, s.len() - 1) =~= v@);
            }
            assert(spec_rate_from_str(s) == (5int, v@));
            assert(rate_view(r) == (5int, v@));
        },
        RateControl::Lossless => {
            assert(s.len() < 10);
        },
        RateControl::High => {
            assert(s[0] != "Custom: ["@[0]);
            assert(!(s.take(9) =~= "Custom: ["@));
        },
        RateControl::Standard => {
            assert(s.len() < 10);
            assert(s[0] != "Lossless"@[0]);
        },
        RateControl::Master400M => {
            assert(s[0] != "Custom: ["@[0]);
            assert(!(s.take(9) =~= "Custom: ["@));
        },
        RateControl::Standard150M => {
            assert(s[0] != "Custom: ["@[0]);
            assert(!(s.take(9) =~= "Custom: ["@));
        },
    }
}

pub fn cs_to_str(cs: ColorSpace) -> (r: &'static str)
    ensures
        r@ == cs.spec_name(),
{
    cs.name()
}

pub fn tf_to_str(tf: TransferFunction) -> (r: &'static str)
    ensures
        r@ == tf.spec_name(),
{
    tf.name()
}

// ---------------------------------------------------------------------------
// Presets
// ---------------------------------------------------------------------------

/// A named bundle of every export setting that the user can configure, so
/// that applying a preset is a straight field copy.
#[derive(Debug)]
pub struct ExportPreset {
    pub name: String,
    pub color_space: ColorSpace,
    pub transfer_function: TransferFunction,
    pub codec_family: CodecFamily,
    pub prores_profile: ProResProfile,
    pub dnxhr_profile: DnxhrProfile,
    pub hevc_profile: HevcProfile,
    pub h264_profile: H264Profile,
    pub av1_profile: Av1Profile,
    pub vp9_profile: Vp9Profile,
    pub rate_control: RateControl,
    /// Optional export folder override; `None` means the clip's own folder.
    pub export_folder: Option<std::path::PathBuf>,
}

/// The flat, string form of a preset kept in the presets file: settings by
/// their display names.
#[derive(Debug)]
pub struct StoredPreset {
    pub name: String,
    pub color_space: String,
    pub transfer_function: String,
    pub codec_family: String,
    pub prores_profile: Option<String>,
    pub dnxhr_profile: Option<String>,
    pub hevc_profile: Option<String>,
    pub h264_profile: Option<String>,
    pub av1_profile: Option<String>,
    pub vp9_profile: Option<String>,
    /// A rate-control name, `Custom: [<text>]` for custom text.
    pub rate_control: String,
    pub export_folder: Option<std::path::PathBuf>,
}

/// Version of the presets file layout.
pub const PRESETS_SCHEMA_VERSION: u32 = 1;

/// `PathBuf::clone`: an equal path.
#[verifier::external_body]
pub(crate) fn clone_path(p: &std::path::PathBuf) -> (r: std::path::PathBuf)
    ensures
        r == *p,
{
    p.clone()
}

pub(crate) fn clone_folder(p: &Option<std::path::PathBuf>) -> (r: Option<std::path::PathBuf>)
    ensures
        r == *p,
{
    match p {
        Some(f) => Some(clone_path(f)),
        None => None,
    }
}

impl Clone for ExportPreset {
    fn clone(&self) -> (r: Self)
        ensures
            r == *self,
    {
        ExportPreset {
            name: self.name.clone(),
            color_space: self.color_space,
            transfer_function: self.transfer_function,
            codec_family: self.codec_family,
            prores_profile: self.prores_profile,
            dnxhr_profile: self.dnxhr_profile,
            hevc_profile: self.hevc_profile,
            h264_profile: self.h264_profile,
            av1_profile: self.av1_profile,
            vp9_profile: self.vp9_profile,
            rate_control: self.rate_control.clone(),
            export_folder: clone_folder(&self.export_folder),
        }
    }
}

/// `s` is the stored form of `p`.
pub open spec fn stored_form(p: ExportPreset, s: StoredPreset) -> bool {
    &&& s.name == p.name
    &&& s.color_space@ == p.color_space.spec_name()
    &&& s.transfer_function@ == p.transfer_function.spec_name()
    &&& s.codec_family@ == p.codec_family.spec_name()
    &&& opt_view(s.prores_profile) == Some(p.prores_profile.spec_name())
    &&& opt_view(s.dnxhr_profile) == Some(p.dnxhr_profile.spec_name())
    &&& opt_view(s.hevc_profile) == Some(p.hevc_profile.spec_name())
    &&& opt_view(s.h264_profile) == Some(p.h264_profile.spec_name())
    &&& opt_view(s.av1_profile) == Some(p.av1_profile.spec_name())
    &&& opt_view(s.vp9_profile) == Some(p.vp9_profile.spec_name())
    &&& s.rate_control@ == p.rate_control.spec_name()
    &&& s.export_folder == p.export_folder
}

/// `p` is what stored form `s` reads back as: its colour space, transfer
/// function and codec must be known names; unknown or missing profiles
/// take their defaults; an unknown rate control reads as lossless.
pub open spec fn read_back(s: StoredPreset, p: ExportPreset) -> bool {
    &&& p.name == s.name
    &&& spec_cs_from_str(s.color_space@) == Some(p.color_space)
    &&& spec_tf_from_str(s.transfer_function@) == Some(p.transfer_function)
    &&& spec_codec_from_str(s.codec_family@) == Some(p.codec_family)
    &&& p.prores_profile == spec_prores_or_default(opt_view(s.prores_profile))
    &&& p.dnxhr_profile == spec_dnxhr_or_default(opt_view(s.dnxhr_profile))
    &&& p.hevc_profile == spec_hevc_or_default(opt_view(s.hevc_profile))
    &&& p.h264_profile == spec_h264_or_default(opt_view(s.h264_profile))
    &&& p.av1_profile == spec_av1_or_default(opt_view(s.av1_profile))
    &&& p.vp9_profile == spec_vp9_or_default(opt_view(s.vp9_profile))
    &&& rate_view(p.rate_control) == spec_rate_from_str(s.rate_control@)
    &&& p.export_folder == s.export_folder
}

/// Whether a stored form names a known colour space, transfer function and
/// codec (the only fields without a fallback).
pub open spec fn readable(s: StoredPreset) -> bool {
    &&& spec_cs_from_str(s.color_space@) is Some
    &&& spec_tf_from_str(s.transfer_function@) is Some
    &&& spec_codec_from_str(s.codec_family@) is Some
}

fn some_owned(s: &str) -> (r: Option<String>)
    ensures
        opt_view(r) == Some(s@),
{
    Some(owned(s))
}

impl ExportPreset {
    /// Snapshot the current settings into a named preset.
    pub fn snapshot(
        name: String,
        color_space: ColorSpace,
        transfer_function: TransferFunction,
        codec_family: CodecFamily,
        prores_profile: ProResProfile,
        dnxhr_profile: DnxhrProfile,
        hevc_profile: HevcProfile,
        h264_profile: H264Profile,
        av1_profile: Av1Profile,
        vp9_profile: Vp9Profile,
        rate_control: RateControl,
        export_folder: Option<std::path::PathBuf>,
    ) -> (r: Self)
        ensures
            r == (ExportPreset {
                name,
                color_space,
                transfer_function,
                codec_family,
                prores_profile,
                dnxhr_profile,
                hevc_profile,
                h264_profile,
                av1_profile,
                vp9_profile,
                rate_control,
                export_folder,
            }),
    {
        ExportPreset {
            name,
            color_space,
            transfer_function,
            codec_family,
            prores_profile,
            dnxhr_profile,
            hevc_profile,
            h264_profile,
            av1_profile,
            vp9_profile,
            rate_control,
            export_folder,
        }
    }

    /// The stored form of a preset.
    pub fn to_stored(p: &ExportPreset) -> (s: StoredPreset)
        ensures
            stored_form(*p, s),
    {
        StoredPreset {
            name: p.name.clone(),
            color_space: owned(cs_to_str(p.color_space)),
            transfer_function: owned(tf_to_str(p.transfer_function)),
            codec_family: owned(p.codec_family.name()),
            prores_profile: some_owned(p.prores_profile.name()),
            dnxhr_profile: some_owned(p.dnxhr_profile.name()),
            hevc_profile: some_owned(p.hevc_profile.name()),
            h264_profile: some_owned(p.h264_profile.name()),
            av1_profile: some_owned(p.av1_profile.name()),
            vp9_profile: some_owned(p.vp9_profile.name()),
            rate_control: rate_to_str(&p.rate_control),
            export_folder: clone_folder(&p.export_folder),
        }
    }

    /// The preset a stored form reads back as; none when its colour space,
    /// transfer function or codec is not a known name.
    pub fn from_stored(s: StoredPreset) -> (r: Option<ExportPreset>)
        ensures
            r is Some <==> readable(s),
            r is Some ==> read_back(s, r->Some_0),
    {
        let color_space = match cs_from_str(s.color_space.as_str()) {
            Some(c) => c,
            None => return None,
        };
        let transfer_function = match tf_from_str(s.transfer_function.as_str()) {
            Some(t) => t,
            None => return None,
        };
        let codec_family = match codec_from_str(s.codec_family.as_str()) {
            Some(c) => c,
            None => return None,
        };
        let prores_profile = prores_or_default(&s.prores_profile);
        let dnxhr_profile = dnxhr_or_default(&s.dnxhr_profile);
        let hevc_profile = hevc_or_default(&s.hevc_profile);
        let h264_profile = h264_or_default(&s.h264_profile);
        let av1_profile = av1_or_default(&s.av1_profile);
        let vp9_profile = vp9_or_default(&s.vp9_profile);
        let rate_control = rate_from_str(s.rate_control.as_str());
        Some(
            ExportPreset {
                name: s.name,
                color_space,
                transfer_function,
                codec_family,
                prores_profile,
                dnxhr_profile,
                hevc_profile,
                h264_profile,
                av1_profile,
                vp9_profile,
                rate_control,
                export_folder: s.export_folder,
            },
        )
    }

    /// The stored forms of a list of presets, in order.
    pub fn to_stored_all(presets: &[ExportPreset]) -> (r: Vec<StoredPreset>)
        ensures
            r@.len() == presets@.len(),
            forall|i: int| 0 <= i < presets@.len() ==> stored_form(presets@[i], #[trigger] r@[i]),
    {
        let mut r: Vec<StoredPreset> = Vec::new();
        let mut i: usize = 0;
        while i < presets.len()
            invariant
                i <= presets@.len(),
                r@.len() == i,
                forall|j: int| 0 <= j < i ==> stored_form(presets@[j], #[trigger] r@[j]),
            decreases presets@.len() - i,
        {
            r.push(Self::to_stored(&presets[i]));
            i = i + 1;
        }
        r
    }

    /// The presets the readable stored forms read back as, in order;
    /// unreadable ones are skipped.
    pub fn from_stored_all(stored: Vec<StoredPreset>) -> (r: Vec<ExportPreset>)
        ensures
            r@.len() == stored@.filter(|s: StoredPreset| readable(s)).len(),
            forall|i: int|
                0 <= i < r@.len() ==> read_back(
                    stored@.filter(|s: StoredPreset| readable(s))[i],
                    #[trigger] r@[i],
                ),
    {
        let ghost all = stored@;
        let mut rest = stored;
        let mut r: Vec<ExportPreset> = Vec::new();
        let mut k: usize = 0;
        proof {
            reveal(Seq::filter);
            assert(all.take(0) =~= Seq::<StoredPreset>::empty());
            assert(all.skip(0) =~= all);
        }
        let _n = rest.len();
        while rest.len() > 0
            invariant
                k <= all.len(),
                all.len() <= usize::MAX,
                rest@ == all.skip(k as int),
                r@.len() == all.take(k as int).filter(|x: StoredPreset| readable(x)).len(),
                forall|i: int|
                    0 <= i < r@.len() ==> read_back(all.take(k as int).filter(|x: StoredPreset| readable(x))[i], #[trigger] r@[i]),
            decreases rest@.len(),
        {
            let s = rest.remove(0);
            proof {
                reveal(Seq::filter);
                assert(all.skip(k as int)[0] == s);
                assert(rest@ =~= all.skip(k + 1));
                assert(all.take(k + 1).drop_last() =~= all.take(k as int));
                assert(all.take(k + 1).last() == s);
            }
            let ghost before = r@;
            let ghost f0 = all.take(k as int).filter(|x: StoredPreset| readable(x));
            let ghost sv = s;
            proof {
                reveal(Seq::filter);
                let t = all.take(k + 1);
                assert(t.len() > 0);
                assert(t.drop_last() == all.take(k as int));
                assert(t.last() == sv);
                                assert(t.filter(|x: StoredPreset| readable(x)) == if readable(t.last()) {
                    t.drop_last().filter(|x: StoredPreset| readable(x)).push(t.last())
                } else {
                    t.drop_last().filter(|x: StoredPreset| readable(x))
                });
                assert(all.take(k + 1).filter(|x: StoredPreset| readable(x)) == if readable(sv) {
                    f0.push(sv)
                } else {
                    f0
                });
            }
            match Self::from_stored(s) {
                Some(p) => {
                    r.push(p);
                },
                None => {},
            }
            k = k + 1;
            proof {
                assert forall|i: int| 0 <= i < r@.len() implies read_back(
                    all.take(k as int).filter(|x: StoredPreset| readable(x))[i],
                    #[trigger] r@[i],
                ) by {
                    if i < before.len() {
                        assert(r@[i] == before[i]);
                    }
                }
            }
        }
        proof {
            assert(all.take(k as int) =~= all);
        }
        r
    }

    /// Replace a preset of the same name (or append). Preserves the order of
    /// the existing list with the matching slot updated.
    pub fn upsert(list: &mut Vec<ExportPreset>, preset: ExportPreset)
        ensures
            first_named(old(list)@, preset.name@) is Some ==> final(list)@ == old(list)@.update(
                first_named(old(list)@, preset.name@).unwrap(),
                preset,
            ),
            first_named(old(list)@, preset.name@) is None ==> final(list)@ == old(list)@.push(
                preset,
            ),
    {
        let mut i: usize = 0;
        while i < list.len()
            invariant
                i <= list@.len(),
                list@ == old(list)@,
                forall|j: int| 0 <= j < i ==> (#[trigger] list@[j]).name@ != preset.name@,
            decreases list@.len() - i,
        {
            if str_eq(list[i].name.as_str(), preset.name.as_str()) {
                proof {
                    lemma_first_named(list@, preset.name@, i as int);
                }
                list.set(i, preset);
                return;
            }
            i = i + 1;
        }
        proof {
            lemma_first_named_none(list@, preset.name@);
        }
        list.push(preset);
    }

    /// Remove every preset named `name`. Returns true if anything was
    /// removed.
    pub fn remove_by_name(list: &mut Vec<ExportPreset>, name: &str) -> (r: bool)
        ensures
            final(list)@ == without_named(old(list)@, name@),
            r == (exists|i: int| 0 <= i < old(list)@.len() && (#[trigger] old(list)@[i]).name@ == name@),
    {
        let ghost start = list@;
        let mut kept: Vec<ExportPreset> = Vec::new();
        let mut removed = false;
        let mut k: usize = 0;
        proof {
            assert(start.take(0) =~= Seq::<ExportPreset>::empty());
            assert(start.skip(0) =~= start);
        }
        let _n = list.len();
        while list.len() > 0
            invariant
                k <= start.len(),
                start.len() <= usize::MAX,
                list@ == start.skip(k as int),
                kept@ == without_named(start.take(k as int), name@),
                removed == (exists|i: int| 0 <= i < k && (#[trigger] start[i]).name@ == name@),
            decreases list@.len(),
        {
            let p = list.remove(0);
            proof {
                assert(start.skip(k as int)[0] == p);
                assert(list@ =~= start.skip(k + 1));
                assert(start.take(k + 1).drop_last() =~= start.take(k as int));
                assert(start.take(k + 1).last() == p);
                assert(start[k as int] == p);
            }
            if str_eq(p.name.as_str(), name) {
                removed = true;
            } else {
                kept.push(p);
            }
            k = k + 1;
        }
        proof {
            assert(start.take(k as int) =~= start);
        }
        *list = kept;
        removed
    }
}

/// Index of the first preset named `name`.
pub open spec fn first_named(list: Seq<ExportPreset>, name: Seq<char>) -> Option<int> {
    if exists|i: int| 0 <= i < list.len() && (#[trigger] list[i]).name@ == name {
        Some(choose|i: int| 0 <= i < list.len() && (#[trigger] list[i]).name@ == name && forall|j: int| 0 <= j < i ==> list[j].name@ != name)
    } else {
        None
    }
}

proof fn lemma_first_named(list: Seq<ExportPreset>, name: Seq<char>, i: int)
    requires
        0 <= i < list.len(),
        list[i].name@ == name,
        forall|j: int| 0 <= j < i ==> (#[trigger] list[j]).name@ != name,
    ensures
        first_named(list, name) == Some(i),
{
    let k = choose|k: int| 0 <= k < list.len() && (#[trigger] list[k]).name@ == name && forall|j: int| 0 <= j < k ==> list[j].name@ != name;
    assert(list[i].name@ == name);
    if k < i {
        assert(list[k].name@ != name);
    } else if k > i {
        assert(list[i].name@ != name);
    }
}

proof fn lemma_first_named_none(list: Seq<ExportPreset>, name: Seq<char>)
    requires
        forall|j: int| 0 <= j < list.len() ==> (#[trigger] list[j]).name@ != name,
    ensures
        first_named(list, name) is None,
{
}

/// The presets of `list` not named `name`, in order.
pub open spec fn without_named(list: Seq<ExportPreset>, name: Seq<char>) -> Seq<ExportPreset>
    decreases list.len(),
{
    if list.len() == 0 {
        list
    } else if list.last().name@ == name {
        without_named(list.drop_last(), name)
    } else {
        without_named(list.drop_last(), name).push(list.last())
    }
}

/// A stored preset reads back as the preset it was stored from: the same
/// name, settings, rate control and folder.
pub proof fn lemma_stored_round_trip(p: ExportPreset, s: StoredPreset, q: ExportPreset)
    requires
        stored_form(p, s),
        read_back(s, q),
    ensures
        q.name == p.name,
        q.color_space == p.color_space,
        q.transfer_function == p.transfer_function,
        q.codec_family == p.codec_family,
        q.prores_profile == p.prores_profile,
        q.dnxhr_profile == p.dnxhr_profile,
        q.hevc_profile == p.hevc_profile,
        q.h264_profile == p.h264_profile,
        q.av1_profile == p.av1_profile,
        q.vp9_profile == p.vp9_profile,
        rate_view(q.rate_control) == rate_view(p.rate_control),
        q.export_folder == p.export_folder,
{
    lemma_cs_from_name(p.color_space);
    lemma_tf_from_name(p.transfer_function);
    lemma_codec_from_name(p.codec_family);
    lemma_prores_from_name(p.prores_profile);
    lemma_dnxhr_from_name(p.dnxhr_profile);
    lemma_hevc_from_name(p.hevc_profile);
    lemma_h264_from_name(p.h264_profile);
    lemma_av1_from_name(p.av1_profile);
    lemma_vp9_from_name(p.vp9_profile);
    lemma_rate_from_name(p.rate_control);
}

/// The stored form of any preset is readable.
pub proof fn lemma_stored_readable(p: ExportPreset, s: StoredPreset)
    requires
        stored_form(p, s),
    ensures
        readable(s),
{
    lemma_cs_from_name(p.color_space);
    lemma_tf_from_name(p.transfer_function);
    lemma_codec_from_name(p.codec_family);
}

} // verus!

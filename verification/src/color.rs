//! Output gamuts and transfer functions, and the codes that identify them
//! to the preview shader and to FFmpeg.

use vstd::prelude::*;

verus! {

/// Output colour spaces (gamuts), in alphabetical cycle order.
#[derive(Debug, Clone, Copy, PartialEq, Eq, Structural)]
pub enum ColorSpace {
    ACESAP1,
    ARRIWideGamut3,
    ARRIWideGamut4,
    CanonCinemaGamut,
    DaVinciWideGamut,
    DciP3,
    DisplayP3,
    FGamut,
    FGamutC,
    PanasonicVGamut,
    Rec2020,
    Rec709,
    SGamut3,
    SGamut3Cine,
    Srgb,
}

impl ColorSpace {
    /// Position in the cycle order of `all`.
    pub open spec fn spec_index(self) -> int {
        match self {
            ColorSpace::ACESAP1 => 0,
            ColorSpace::ARRIWideGamut3 => 1,
            ColorSpace::ARRIWideGamut4 => 2,
            ColorSpace::CanonCinemaGamut => 3,
            ColorSpace::DaVinciWideGamut => 4,
            ColorSpace::DciP3 => 5,
            ColorSpace::DisplayP3 => 6,
            ColorSpace::FGamut => 7,
            ColorSpace::FGamutC => 8,
            ColorSpace::PanasonicVGamut => 9,
            ColorSpace::Rec2020 => 10,
            ColorSpace::Rec709 => 11,
            ColorSpace::SGamut3 => 12,
            ColorSpace::SGamut3Cine => 13,
            ColorSpace::Srgb => 14,
        }
    }

    pub open spec fn spec_all() -> Seq<ColorSpace> {
        seq![
            ColorSpace::ACESAP1,
            ColorSpace::ARRIWideGamut3,
            ColorSpace::ARRIWideGamut4,
            ColorSpace::CanonCinemaGamut,
            ColorSpace::DaVinciWideGamut,
            ColorSpace::DciP3,
            ColorSpace::DisplayP3,
            ColorSpace::FGamut,
            ColorSpace::FGamutC,
            ColorSpace::PanasonicVGamut,
            ColorSpace::Rec2020,
            ColorSpace::Rec709,
            ColorSpace::SGamut3,
            ColorSpace::SGamut3Cine,
            ColorSpace::Srgb,
        ]
    }

    pub open spec fn spec_name(self) -> Seq<char> {
        match self {
            ColorSpace::ACESAP1 => "ACES AP1"@,
            ColorSpace::ARRIWideGamut3 => "ARRI Wide Gamut 3"@,
            ColorSpace::ARRIWideGamut4 => "ARRI Wide Gamut 4"@,
            ColorSpace::CanonCinemaGamut => "Canon Cinema Gamut"@,
            ColorSpace::DaVinciWideGamut => "DaVinci Wide Gamut"@,
            ColorSpace::DciP3 => "DCI-P3"@,
            ColorSpace::DisplayP3 => "Display P3"@,
            ColorSpace::FGamut => "F-Gamut"@,
            ColorSpace::FGamutC => "F-Gamut C"@,
            ColorSpace::PanasonicVGamut => "Panasonic V-Gamut"@,
            ColorSpace::Rec2020 => "Rec.2020"@,
            ColorSpace::Rec709 => "Rec.709"@,
            ColorSpace::SGamut3 => "S-Gamut3"@,
            ColorSpace::SGamut3Cine => "S-Gamut3.Cine"@,
            ColorSpace::Srgb => "sRGB"@,
        }
    }

    pub open spec fn spec_next(self) -> ColorSpace {
        Self::spec_all()[(self.spec_index() + 1) % 15]
    }

    pub open spec fn spec_prev(self) -> ColorSpace {
        Self::spec_all()[(self.spec_index() + 14) % 15]
    }

    pub fn name(&self) -> (r: &'static str)
        ensures
            r@ == self.spec_name(),
    {
        match self {
            ColorSpace::ACESAP1 => "ACES AP1",
            ColorSpace::ARRIWideGamut3 => "ARRI Wide Gamut 3",
            ColorSpace::ARRIWideGamut4 => "ARRI Wide Gamut 4",
            ColorSpace::CanonCinemaGamut => "Canon Cinema Gamut",
            ColorSpace::DaVinciWideGamut => "DaVinci Wide Gamut",
            ColorSpace::DciP3 => "DCI-P3",
            ColorSpace::DisplayP3 => "Display P3",
            ColorSpace::FGamut => "F-Gamut",
            ColorSpace::FGamutC => "F-Gamut C",
            ColorSpace::PanasonicVGamut => "Panasonic V-Gamut",
            ColorSpace::Rec2020 => "Rec.2020",
            ColorSpace::Rec709 => "Rec.709",
            ColorSpace::SGamut3 => "S-Gamut3",
            ColorSpace::SGamut3Cine => "S-Gamut3.Cine",
            ColorSpace::Srgb => "sRGB",
        }
    }


    pub fn all() -> (r: &'static [ColorSpace])
        ensures
            r@ == Self::spec_all(),
    {
        &[
            ColorSpace::ACESAP1,
            ColorSpace::ARRIWideGamut3,
            ColorSpace::ARRIWideGamut4,
            ColorSpace::CanonCinemaGamut,
            ColorSpace::DaVinciWideGamut,
            ColorSpace::DciP3,
            ColorSpace::DisplayP3,
            ColorSpace::FGamut,
            ColorSpace::FGamutC,
            ColorSpace::PanasonicVGamut,
            ColorSpace::Rec2020,
            ColorSpace::Rec709,
            ColorSpace::SGamut3,
            ColorSpace::SGamut3Cine,
            ColorSpace::Srgb,
        ]
    }

    fn position(self) -> (r: usize)
        ensures
            r == self.spec_index(),
    {
        match self {
            ColorSpace::ACESAP1 => 0,
            ColorSpace::ARRIWideGamut3 => 1,
            ColorSpace::ARRIWideGamut4 => 2,
            ColorSpace::CanonCinemaGamut => 3,
            ColorSpace::DaVinciWideGamut => 4,
            ColorSpace::DciP3 => 5,
            ColorSpace::DisplayP3 => 6,
            ColorSpace::FGamut => 7,
            ColorSpace::FGamutC => 8,
            ColorSpace::PanasonicVGamut => 9,
            ColorSpace::Rec2020 => 10,
            ColorSpace::Rec709 => 11,
            ColorSpace::SGamut3 => 12,
            ColorSpace::SGamut3Cine => 13,
            ColorSpace::Srgb => 14,
        }
    }

    pub fn next(self) -> (r: Self)
        ensures
            r == self.spec_next(),
    {
        let all = Self::all();
        all[(self.position() + 1) % all.len()]
    }

    pub fn prev(self) -> (r: Self)
        ensures
            r == self.spec_prev(),
    {
        let all = Self::all();
        all[(self.position() + all.len() - 1) % all.len()]
    }
}

/// `next` and `prev` undo each other, and `all` lists every value at its
/// own index.
pub proof fn lemma_color_space_cycle(x: ColorSpace)
    ensures
        x.spec_next().spec_prev() == x,
        x.spec_prev().spec_next() == x,
        0 <= x.spec_index() < ColorSpace::spec_all().len(),
        ColorSpace::spec_all()[x.spec_index()] == x,
{
}

/// Output transfer functions (OETFs), in alphabetical cycle order.
#[derive(Debug, Clone, Copy, PartialEq, Eq, Structural)]
pub enum TransferFunction {
    ACESCCT,
    ARRIlog3,
    ARRIlog4,
    AppleLog,
    AppleLog2,
    CLog3,
    DaVinciIntermediate,
    FLog2,
    Gamma24,
    HLG,
    Linear,
    PQ,
    Rec709,
    SLog3,
    VLog,
}

impl TransferFunction {
    /// Position in the cycle order of `all`.
    pub open spec fn spec_index(self) -> int {
        match self {
            TransferFunction::ACESCCT => 0,
            TransferFunction::ARRIlog3 => 1,
            TransferFunction::ARRIlog4 => 2,
            TransferFunction::AppleLog => 3,
            TransferFunction::AppleLog2 => 4,
            TransferFunction::CLog3 => 5,
            TransferFunction::DaVinciIntermediate => 6,
            TransferFunction::FLog2 => 7,
            TransferFunction::Gamma24 => 8,
            TransferFunction::HLG => 9,
            TransferFunction::Linear => 10,
            TransferFunction::PQ => 11,
            TransferFunction::Rec709 => 12,
            TransferFunction::SLog3 => 13,
            TransferFunction::VLog => 14,
        }
    }

    pub open spec fn spec_all() -> Seq<TransferFunction> {
        seq![
            TransferFunction::ACESCCT,
            TransferFunction::ARRIlog3,
            TransferFunction::ARRIlog4,
            TransferFunction::AppleLog,
            TransferFunction::AppleLog2,
            TransferFunction::CLog3,
            TransferFunction::DaVinciIntermediate,
            TransferFunction::FLog2,
            TransferFunction::Gamma24,
            TransferFunction::HLG,
            TransferFunction::Linear,
            TransferFunction::PQ,
            TransferFunction::Rec709,
            TransferFunction::SLog3,
            TransferFunction::VLog,
        ]
    }

    pub open spec fn spec_name(self) -> Seq<char> {
        match self {
            TransferFunction::ACESCCT => "ACES CCT"@,
            TransferFunction::ARRIlog3 => "ARRI LogC3"@,
            TransferFunction::ARRIlog4 => "ARRI LogC4"@,
            TransferFunction::AppleLog => "Apple Log"@,
            TransferFunction::AppleLog2 => "Apple Log 2"@,
            TransferFunction::CLog3 => "C-Log3"@,
            TransferFunction::DaVinciIntermediate => "DaVinci Intermediate"@,
            TransferFunction::FLog2 => "F-Log2"@,
            TransferFunction::Gamma24 => "Gamma 2.4"@,
            TransferFunction::HLG => "HLG (BT.2100)"@,
            TransferFunction::Linear => "Linear"@,
            TransferFunction::PQ => "PQ (ST.2084)"@,
            TransferFunction::Rec709 => "Rec.709"@,
            TransferFunction::SLog3 => "S-Log3"@,
            TransferFunction::VLog => "V-Log"@,
        }
    }

    pub open spec fn spec_next(self) -> TransferFunction {
        Self::spec_all()[(self.spec_index() + 1) % 15]
    }

    pub open spec fn spec_prev(self) -> TransferFunction {
        Self::spec_all()[(self.spec_index() + 14) % 15]
    }

    pub fn name(&self) -> (r: &'static str)
        ensures
            r@ == self.spec_name(),
    {
        match self {
            TransferFunction::ACESCCT => "ACES CCT",
            TransferFunction::ARRIlog3 => "ARRI LogC3",
            TransferFunction::ARRIlog4 => "ARRI LogC4",
            TransferFunction::AppleLog => "Apple Log",
            TransferFunction::AppleLog2 => "Apple Log 2",
            TransferFunction::CLog3 => "C-Log3",
            TransferFunction::DaVinciIntermediate => "DaVinci Intermediate",
            TransferFunction::FLog2 => "F-Log2",
            TransferFunction::Gamma24 => "Gamma 2.4",
            TransferFunction::HLG => "HLG (BT.2100)",
            TransferFunction::Linear => "Linear",
            TransferFunction::PQ => "PQ (ST.2084)",
            TransferFunction::Rec709 => "Rec.709",
            TransferFunction::SLog3 => "S-Log3",
            TransferFunction::VLog => "V-Log",
        }
    }

    /// Display-referred curves (linear, Rec.709, gamma 2.4) are not log.
    pub open spec fn spec_is_log(self) -> bool {
        !(self is Linear || self is Rec709 || self is Gamma24)
    }

    pub fn is_log_bypass(&self) -> (r: bool)
        ensures
            r == self.spec_is_log(),
    {
        !matches!(self, TransferFunction::Linear | TransferFunction::Rec709 | TransferFunction::Gamma24)
    }

    pub fn requires_10bit(&self) -> (r: bool)
        ensures
            r == self.spec_is_log(),
    {
        !matches!(self, TransferFunction::Linear | TransferFunction::Rec709 | TransferFunction::Gamma24)
    }


    pub fn all() -> (r: &'static [TransferFunction])
        ensures
            r@ == Self::spec_all(),
    {
        &[
            TransferFunction::ACESCCT,
            TransferFunction::ARRIlog3,
            TransferFunction::ARRIlog4,
            TransferFunction::AppleLog,
            TransferFunction::AppleLog2,
            TransferFunction::CLog3,
            TransferFunction::DaVinciIntermediate,
            TransferFunction::FLog2,
            TransferFunction::Gamma24,
            TransferFunction::HLG,
            TransferFunction::Linear,
            TransferFunction::PQ,
            TransferFunction::Rec709,
            TransferFunction::SLog3,
            TransferFunction::VLog,
        ]
    }

    fn position(self) -> (r: usize)
        ensures
            r == self.spec_index(),
    {
        match self {
            TransferFunction::ACESCCT => 0,
            TransferFunction::ARRIlog3 => 1,
            TransferFunction::ARRIlog4 => 2,
            TransferFunction::AppleLog => 3,
            TransferFunction::AppleLog2 => 4,
            TransferFunction::CLog3 => 5,
            TransferFunction::DaVinciIntermediate => 6,
            TransferFunction::FLog2 => 7,
            TransferFunction::Gamma24 => 8,
            TransferFunction::HLG => 9,
            TransferFunction::Linear => 10,
            TransferFunction::PQ => 11,
            TransferFunction::Rec709 => 12,
            TransferFunction::SLog3 => 13,
            TransferFunction::VLog => 14,
        }
    }

    pub fn next(self) -> (r: Self)
        ensures
            r == self.spec_next(),
    {
        let all = Self::all();
        all[(self.position() + 1) % all.len()]
    }

    pub fn prev(self) -> (r: Self)
        ensures
            r == self.spec_prev(),
    {
        let all = Self::all();
        all[(self.position() + all.len() - 1) % all.len()]
    }
}

/// `next` and `prev` undo each other, and `all` lists every value at its
/// own index.
pub proof fn lemma_transfer_function_cycle(x: TransferFunction)
    ensures
        x.spec_next().spec_prev() == x,
        x.spec_prev().spec_next() == x,
        0 <= x.spec_index() < TransferFunction::spec_all().len(),
        TransferFunction::spec_all()[x.spec_index()] == x,
{
}

/// Transfer-function discriminant values sent to the preview shader.
pub open spec fn spec_transfer_code(tf: TransferFunction) -> u32 {
    match tf {
        TransferFunction::ACESCCT => 10,
        TransferFunction::ARRIlog3 => 4,
        TransferFunction::ARRIlog4 => 5,
        TransferFunction::AppleLog => 8,
        TransferFunction::AppleLog2 => 9,
        TransferFunction::CLog3 => 6,
        TransferFunction::DaVinciIntermediate => 13,
        TransferFunction::FLog2 => 7,
        TransferFunction::Gamma24 => 14,
        TransferFunction::HLG => 12,
        TransferFunction::Linear => 0,
        TransferFunction::PQ => 11,
        TransferFunction::Rec709 => 1,
        TransferFunction::SLog3 => 2,
        TransferFunction::VLog => 3,
    }
}

pub fn transfer_to_u32(tf: &TransferFunction) -> (r: u32)
    ensures
        r == spec_transfer_code(*tf),
{
    match tf {
        TransferFunction::ACESCCT => 10,
        TransferFunction::ARRIlog3 => 4,
        TransferFunction::ARRIlog4 => 5,
        TransferFunction::AppleLog => 8,
        TransferFunction::AppleLog2 => 9,
        TransferFunction::CLog3 => 6,
        TransferFunction::DaVinciIntermediate => 13,
        TransferFunction::FLog2 => 7,
        TransferFunction::Gamma24 => 14,
        TransferFunction::HLG => 12,
        TransferFunction::Linear => 0,
        TransferFunction::PQ => 11,
        TransferFunction::Rec709 => 1,
        TransferFunction::SLog3 => 2,
        TransferFunction::VLog => 3,
    }
}

/// The preview shader's code for a colour space. The shader numbers the
/// gamuts alphabetically; code 1 belongs to a gamut this library does not
/// offer and is never sent.
pub open spec fn spec_shader_code(cs: ColorSpace) -> u32 {
    match cs {
        ColorSpace::ACESAP1 => 0,
        ColorSpace::ARRIWideGamut3 => 2,
        ColorSpace::ARRIWideGamut4 => 3,
        ColorSpace::CanonCinemaGamut => 4,
        ColorSpace::DaVinciWideGamut => 5,
        ColorSpace::DciP3 => 6,
        ColorSpace::DisplayP3 => 7,
        ColorSpace::FGamut => 8,
        ColorSpace::FGamutC => 9,
        ColorSpace::PanasonicVGamut => 10,
        ColorSpace::Rec2020 => 11,
        ColorSpace::Rec709 => 12,
        ColorSpace::SGamut3 => 13,
        ColorSpace::SGamut3Cine => 14,
        ColorSpace::Srgb => 15,
    }
}

/// Colour-space discriminant values sent to the preview shader.
pub fn color_space_to_u32(cs: &ColorSpace) -> (r: u32)
    ensures
        r == spec_shader_code(*cs),
{
    match cs {
        ColorSpace::ACESAP1 => 0,
        ColorSpace::ARRIWideGamut3 => 2,
        ColorSpace::ARRIWideGamut4 => 3,
        ColorSpace::CanonCinemaGamut => 4,
        ColorSpace::DaVinciWideGamut => 5,
        ColorSpace::DciP3 => 6,
        ColorSpace::DisplayP3 => 7,
        ColorSpace::FGamut => 8,
        ColorSpace::FGamutC => 9,
        ColorSpace::PanasonicVGamut => 10,
        ColorSpace::Rec2020 => 11,
        ColorSpace::Rec709 => 12,
        ColorSpace::SGamut3 => 13,
        ColorSpace::SGamut3Cine => 14,
        ColorSpace::Srgb => 15,
    }
}

/// The shader codes of distinct transfer functions differ and lie below 15;
/// those of distinct colour spaces differ and lie below 16.
pub proof fn lemma_shader_codes(a: TransferFunction, b: TransferFunction, c: ColorSpace, d: ColorSpace)
    ensures
        spec_transfer_code(a) < 15,
        a != b ==> spec_transfer_code(a) != spec_transfer_code(b),
        spec_shader_code(c) < 16,
        c != d ==> spec_shader_code(c) != spec_shader_code(d),
{
}

/// FFmpeg primaries and matrix tags for a gamut. Camera-vendor gamuts have
/// no standard tag and are signalled as the closest superset, BT.2020.
pub open spec fn vui_primaries_matrix(cs: ColorSpace) -> (Seq<char>, Seq<char>) {
    match cs {
        ColorSpace::Rec709 | ColorSpace::Srgb => ("bt709"@, "bt709"@),
        ColorSpace::Rec2020 => ("bt2020"@, "bt2020nc"@),
        ColorSpace::DciP3 => ("smpte431"@, "bt2020nc"@),
        ColorSpace::DisplayP3 => ("smpte432"@, "bt2020nc"@),
        _ => ("bt2020"@, "bt2020nc"@),
    }
}

/// FFmpeg transfer tag; log curves without a standard code are `unknown`.
pub open spec fn vui_trc(tf: TransferFunction) -> Seq<char> {
    match tf {
        TransferFunction::Rec709 => "bt709"@,
        TransferFunction::Gamma24 => "bt709"@,
        TransferFunction::HLG => "arib-std-b67"@,
        TransferFunction::PQ => "smpte2084"@,
        TransferFunction::Linear => "linear"@,
        _ => "unknown"@,
    }
}

/// Map `ColorSpace` / `TransferFunction` to valid FFmpeg VUI arguments.
pub fn get_ffmpeg_vui_tags(color_space: &ColorSpace, transfer: &TransferFunction) -> (r: Vec<&'static str>)
    ensures
        r@.map_values(|s: &str| s@) == seq![
            "-color_primaries"@,
            vui_primaries_matrix(*color_space).0,
            "-color_trc"@,
            vui_trc(*transfer),
            "-colorspace"@,
            vui_primaries_matrix(*color_space).1,
        ],
{
    let (primaries, matrix): (&'static str, &'static str) = match color_space {
        ColorSpace::Rec709 | ColorSpace::Srgb => ("bt709", "bt709"),
        ColorSpace::Rec2020 => ("bt2020", "bt2020nc"),
        ColorSpace::DciP3 => ("smpte431", "bt2020nc"),
        ColorSpace::DisplayP3 => ("smpte432", "bt2020nc"),
        ColorSpace::FGamut
        | ColorSpace::FGamutC
        | ColorSpace::SGamut3
        | ColorSpace::SGamut3Cine
        | ColorSpace::ARRIWideGamut3
        | ColorSpace::ARRIWideGamut4
        | ColorSpace::CanonCinemaGamut
        | ColorSpace::PanasonicVGamut
        | ColorSpace::DaVinciWideGamut
        | ColorSpace::ACESAP1 => ("bt2020", "bt2020nc"),
    };
    let trc: &'static str = match transfer {
        TransferFunction::Rec709 => "bt709",
        TransferFunction::Gamma24 => "bt709",
        TransferFunction::HLG => "arib-std-b67",
        TransferFunction::PQ => "smpte2084",
        TransferFunction::Linear => "linear",
        _ => "unknown",
    };
    let r = vec!["-color_primaries", primaries, "-color_trc", trc, "-colorspace", matrix];
    assert(r@.map_values(|s: &str| s@) =~= seq![
        "-color_primaries"@, primaries@, "-color_trc"@, trc@, "-colorspace"@, matrix@]);
    r
}

} // verus!

//! The export pipeline's modes and the decisions it takes before the first
//! frame is read: the active picture, the sensor size the shading map is
//! laid over, audio, lens correction and the codec arguments.

use vstd::prelude::*;
use vstd::arithmetic::power2::{pow2, lemma_pow2_unfold, lemma2_to64};
use crate::color::ColorSpace;
use crate::export::{
    spec_ffmpeg_args, views, Av1Profile, CodecFamily, DnxhrProfile, H264Profile, HevcProfile,
    ProResProfile, RateControl, Vp9Profile,
};
use crate::lj92::bit_len;

verus! {

/// Black level / white level mode for normalization.
#[derive(Debug, Clone, Copy, PartialEq, Eq, Structural)]
pub enum BlWlMode {
    Dynamic,
    Static,
    Preset1023_64,
    Preset4095_256,
    Preset16383_1024,
    Preset65535_4096,
    Preset4095_64,
    Preset16383_64,
    Preset16383_0,
}

impl BlWlMode {
    pub open spec fn spec_name(self) -> Seq<char> {
        match self {
            BlWlMode::Dynamic => "Dynamic"@,
            BlWlMode::Static => "Static"@,
            BlWlMode::Preset1023_64 => "1023/64"@,
            BlWlMode::Preset4095_256 => "4095/256"@,
            BlWlMode::Preset16383_1024 => "16383/1024"@,
            BlWlMode::Preset65535_4096 => "65535/4096"@,
            BlWlMode::Preset4095_64 => "4095/64"@,
            BlWlMode::Preset16383_64 => "16383/64"@,
            BlWlMode::Preset16383_0 => "16383/0"@,
        }
    }

    /// The fixed (black, white) levels of a preset mode; the dynamic and
    /// static modes take theirs from the clip.
    pub open spec fn spec_preset_levels(self) -> Option<(u32, u32)> {
        match self {
            BlWlMode::Dynamic => None,
            BlWlMode::Static => None,
            BlWlMode::Preset1023_64 => Some((64, 1023)),
            BlWlMode::Preset4095_256 => Some((256, 4095)),
            BlWlMode::Preset16383_1024 => Some((1024, 16383)),
            BlWlMode::Preset65535_4096 => Some((4096, 65535)),
            BlWlMode::Preset4095_64 => Some((64, 4095)),
            BlWlMode::Preset16383_64 => Some((64, 16383)),
            BlWlMode::Preset16383_0 => Some((0, 16383)),
        }
    }

    pub fn name(&self) -> (r: &'static str)
        ensures
            r@ == self.spec_name(),
    {
        match self {
            BlWlMode::Dynamic => "Dynamic",
            BlWlMode::Static => "Static",
            BlWlMode::Preset1023_64 => "1023/64",
            BlWlMode::Preset4095_256 => "4095/256",
            BlWlMode::Preset16383_1024 => "16383/1024",
            BlWlMode::Preset65535_4096 => "65535/4096",
            BlWlMode::Preset4095_64 => "4095/64",
            BlWlMode::Preset16383_64 => "16383/64",
            BlWlMode::Preset16383_0 => "16383/0",
        }
    }

    pub fn preset_levels(&self) -> (r: Option<(u32, u32)>)
        ensures
            r == self.spec_preset_levels(),
    {
        match self {
            BlWlMode::Dynamic => None,
            BlWlMode::Static => None,
            BlWlMode::Preset1023_64 => Some((64, 1023)),
            BlWlMode::Preset4095_256 => Some((256, 4095)),
            BlWlMode::Preset16383_1024 => Some((1024, 16383)),
            BlWlMode::Preset65535_4096 => Some((4096, 65535)),
            BlWlMode::Preset4095_64 => Some((64, 4095)),
            BlWlMode::Preset16383_64 => Some((64, 16383)),
            BlWlMode::Preset16383_0 => Some((0, 16383)),
        }
    }
}

/// Lens correction mode for shading map correction.
#[derive(Debug, Clone, Copy, PartialEq, Eq, Structural)]
pub enum LensCorrectionMode {
    Off,
    Full,
    ColorOnly,
}

impl LensCorrectionMode {
    pub open spec fn spec_name(self) -> Seq<char> {
        match self {
            LensCorrectionMode::Off => "Off"@,
            LensCorrectionMode::Full => "Full"@,
            LensCorrectionMode::ColorOnly => "Color Only"@,
        }
    }

    pub fn name(&self) -> (r: &'static str)
        ensures
            r@ == self.spec_name(),
    {
        match self {
            LensCorrectionMode::Off => "Off",
            LensCorrectionMode::Full => "Full",
            LensCorrectionMode::ColorOnly => "Color Only",
        }
    }
}

/// The codec name, pixel format and extra arguments of the chosen family.
/// The gamut flag is taken for the caller's convenience and does not change
/// the arguments.
pub fn build_ffmpeg_codec_args(
    family: CodecFamily,
    hevc_encoder: &str,
    h264_encoder: &str,
    av1_encoder: &str,
    prores_encoder: &str,
    prores: ProResProfile,
    dnxhr: DnxhrProfile,
    hevc: HevcProfile,
    h264: H264Profile,
    av1: Av1Profile,
    vp9: Vp9Profile,
    rate_control: &RateControl,
    is_wide_gamut: bool,
) -> (r: (String, String, Vec<String>))
    ensures
        r.0@ == spec_ffmpeg_args(family, hevc_encoder@, h264_encoder@, av1_encoder@,
            prores_encoder@, prores, dnxhr, hevc, h264, vp9, *rate_control).0,
        r.1@ == spec_ffmpeg_args(family, hevc_encoder@, h264_encoder@, av1_encoder@,
            prores_encoder@, prores, dnxhr, hevc, h264, vp9, *rate_control).1,
        views(r.2@) == spec_ffmpeg_args(family, hevc_encoder@, h264_encoder@, av1_encoder@,
            prores_encoder@, prores, dnxhr, hevc, h264, vp9, *rate_control).2,
{
    family.to_ffmpeg_args(
        hevc_encoder,
        h264_encoder,
        av1_encoder,
        prores_encoder,
        prores,
        dnxhr,
        hevc,
        h264,
        av1,
        vp9,
        rate_control,
    )
}

/// The clip dimensions the export reads.
#[derive(Debug, Clone, Copy, PartialEq, Eq, Structural)]
pub struct ClipGeometry {
    pub width: u16,
    pub height: u16,
    pub sensor_width: u16,
    pub sensor_height: u16,
    pub active_offset_x: u16,
    pub active_offset_y: u16,
    pub active_width: u16,
    pub active_height: u16,
}

/// What the export settles before reading frames.
#[derive(Debug, Clone, Copy, PartialEq, Eq, Structural)]
pub struct ExportPlan {
    /// Samples per stored row.
    pub stride_width: u32,
    pub offset_x: u32,
    pub offset_y: u32,
    /// The picture that is encoded.
    pub active_width: u32,
    pub active_height: u32,
    /// The sensor area the lens shading map covers.
    pub sensor_width: u32,
    pub sensor_height: u32,
    /// Samples of one stored frame.
    pub stride_pixels: u64,
    /// Bytes of one RGB48 output frame.
    pub bytes_per_frame: u64,
    /// The output gamut is wider than Rec.709 / sRGB.
    pub is_wide_gamut: bool,
    /// Lens shading is corrected.
    pub has_lens: bool,
    /// The clip's audio is muxed in.
    pub with_audio: bool,
}

pub open spec fn spec_export_plan(
    g: ClipGeometry,
    export_cs: ColorSpace,
    lens_mode: LensCorrectionMode,
    has_shading_map: bool,
    has_audio: bool,
    audio_sample_rate: u32,
    audio_channels: u16,
) -> Option<ExportPlan> {
    let aw: u32 = if g.active_width > 0 { g.active_width as u32 } else { g.width as u32 };
    let ah: u32 = if g.active_height > 0 { g.active_height as u32 } else { g.height as u32 };
    if aw == 0 || ah == 0 {
        None
    } else {
        Some(ExportPlan {
            stride_width: g.width as u32,
            offset_x: g.active_offset_x as u32,
            offset_y: g.active_offset_y as u32,
            active_width: aw,
            active_height: ah,
            sensor_width: if g.sensor_width > 0 {
                g.sensor_width as u32
            } else {
                (g.width + g.active_offset_x) as u32
            },
            sensor_height: if g.sensor_height > 0 {
                g.sensor_height as u32
            } else {
                (g.height + g.active_offset_y) as u32
            },
            stride_pixels: (g.width * g.height) as u64,
            bytes_per_frame: (aw * ah * 6) as u64,
            is_wide_gamut: export_cs != ColorSpace::Rec709 && export_cs != ColorSpace::Srgb,
            has_lens: lens_mode != LensCorrectionMode::Off && has_shading_map,
            with_audio: has_audio && audio_sample_rate > 0 && audio_channels > 0,
        })
    }
}

/// Settles the export's geometry and options. Without an active area the
/// full stored frame is used; `None` when that is empty too.
pub fn export_plan(
    g: ClipGeometry,
    export_cs: ColorSpace,
    lens_mode: LensCorrectionMode,
    has_shading_map: bool,
    has_audio: bool,
    audio_sample_rate: u32,
    audio_channels: u16,
) -> (r: Option<ExportPlan>)
    ensures
        r == spec_export_plan(g, export_cs, lens_mode, has_shading_map, has_audio,
            audio_sample_rate, audio_channels),
{
    let aw: u32 = if g.active_width > 0 { g.active_width as u32 } else { g.width as u32 };
    let ah: u32 = if g.active_height > 0 { g.active_height as u32 } else { g.height as u32 };
    if aw == 0 || ah == 0 {
        return None;
    }
    assert(aw * ah <= 65535 * 65535) by (nonlinear_arith)
        requires
            aw <= 65535,
            ah <= 65535,
    ;
    assert((g.width as u32) * (g.height as u32) <= 65535 * 65535) by (nonlinear_arith)
        requires
            g.width <= 65535,
            g.height <= 65535,
    ;
    let sensor_width: u32 = if g.sensor_width > 0 {
        g.sensor_width as u32
    } else {
        g.width as u32 + g.active_offset_x as u32
    };
    let sensor_height: u32 = if g.sensor_height > 0 {
        g.sensor_height as u32
    } else {
        g.height as u32 + g.active_offset_y as u32
    };
    let wide = !matches!(export_cs, ColorSpace::Rec709) && !matches!(export_cs, ColorSpace::Srgb);
    let lens = !matches!(lens_mode, LensCorrectionMode::Off) && has_shading_map;
    Some(ExportPlan {
        stride_width: g.width as u32,
        offset_x: g.active_offset_x as u32,
        offset_y: g.active_offset_y as u32,
        active_width: aw,
        active_height: ah,
        sensor_width,
        sensor_height,
        stride_pixels: g.width as u64 * g.height as u64,
        bytes_per_frame: aw as u64 * ah as u64 * 6,
        is_wide_gamut: wide,
        has_lens: lens,
        with_audio: has_audio && audio_sample_rate > 0 && audio_channels > 0,
    })
}

/// The white level samples are scaled to after lens correction: two more
/// bits of headroom than the source white level needs (at least one bit),
/// at most 16 bits.
pub open spec fn spec_extended_white_level(white_level: u16) -> nat {
    let bits: nat = if bit_len(white_level as nat) > 1 { bit_len(white_level as nat) } else { 1 };
    let e: nat = if bits + 2 < 16 { bits + 2 } else { 16 };
    (pow2(e) - 1) as nat
}

pub fn extended_white_level(white_level: u16) -> (r: u64)
    ensures
        r == spec_extended_white_level(white_level),
{
    let mut bits: u32 = 0;
    let mut v: u16 = white_level;
    proof {
        lemma2_to64();
    }
    while v > 0
        invariant
            bits <= 16,
            bits + bit_len(v as nat) == bit_len(white_level as nat),
            (v as nat) < pow2((16 - bits) as nat),
        decreases v,
    {
        proof {
            if bits == 16 {
                lemma2_to64();
                assert(false);
            }
            lemma_pow2_unfold((16 - bits) as nat);
        }
        v = v / 2;
        bits = bits + 1;
    }
    let bits: u32 = if bits > 1 { bits } else { 1 };
    let e: u32 = if bits + 2 < 16 { bits + 2 } else { 16 };
    let mut p: u64 = 1;
    let mut i: u32 = 0;
    while i < e
        invariant
            i <= e <= 16,
            p == pow2(i as nat),
        decreases e - i,
    {
        proof {
            lemma_pow2_unfold((i + 1) as nat);
            lemma2_to64();
            if i + 1 < 16 {
                vstd::arithmetic::power2::lemma_pow2_strictly_increases((i + 1) as nat, 16);
            }
        }
        p = p * 2;
        i = i + 1;
    }
    proof {
        lemma2_to64();
    }
    p - 1
}

} // verus!

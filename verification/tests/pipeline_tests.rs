use mcraw_tui::color::ColorSpace;
use mcraw_tui::export::{
    Av1Profile, CodecFamily, DnxhrProfile, H264Profile, HevcProfile, ProResProfile, RateControl,
    Vp9Profile,
};
use mcraw_tui::index::{
    index_fits, metadata_buffer_size, parse_index_entries, parse_index_trailer, raw_buffer_size,
    timestamp_span, IndexTrailer, INDEX_MAGIC,
};
use mcraw_tui::pipeline::{
    build_ffmpeg_codec_args, export_plan, extended_white_level, BlWlMode, ClipGeometry,
    LensCorrectionMode,
};

#[test]
fn blwl_and_lens_mode_names() {
    assert_eq!(BlWlMode::Dynamic.name(), "Dynamic");
    assert_eq!(BlWlMode::Preset16383_1024.name(), "16383/1024");
    assert_eq!(BlWlMode::Preset16383_0.name(), "16383/0");
    assert_eq!(BlWlMode::Preset4095_256.preset_levels(), Some((256, 4095)));
    assert_eq!(BlWlMode::Static.preset_levels(), None);
    assert_eq!(LensCorrectionMode::ColorOnly.name(), "Color Only");
    assert_eq!(LensCorrectionMode::Off.name(), "Off");
}

#[test]
fn codec_args_follow_the_family() {
    let (codec, pix, extra) = build_ffmpeg_codec_args(
        CodecFamily::ProRes,
        "libx265",
        "libx264",
        "libaom-av1",
        "prores_ks",
        ProResProfile::HQ,
        DnxhrProfile::HQX,
        HevcProfile::Main10_420,
        H264Profile::Main8bit,
        Av1Profile::Profile0_420_10bit,
        Vp9Profile::Profile2_420_10bit,
        &RateControl::Lossless,
        true,
    );
    assert_eq!(codec, "prores_ks");
    assert_eq!(pix, "yuv422p10le");
    assert_eq!(extra, vec!["-profile:v".to_string(), "3".to_string()]);
}

fn geometry() -> ClipGeometry {
    ClipGeometry {
        width: 4032,
        height: 3024,
        sensor_width: 0,
        sensor_height: 0,
        active_offset_x: 8,
        active_offset_y: 4,
        active_width: 4000,
        active_height: 3000,
    }
}

#[test]
fn export_plan_uses_the_active_area() {
    let p = export_plan(geometry(), ColorSpace::Rec2020, LensCorrectionMode::Full, true, true, 48000, 2)
        .unwrap();
    assert_eq!((p.active_width, p.active_height), (4000, 3000));
    assert_eq!((p.offset_x, p.offset_y), (8, 4));
    assert_eq!((p.sensor_width, p.sensor_height), (4040, 3028));
    assert_eq!(p.stride_pixels, 4032 * 3024);
    assert_eq!(p.bytes_per_frame, 4000 * 3000 * 6);
    assert!(p.is_wide_gamut && p.has_lens && p.with_audio);
}

#[test]
fn export_plan_falls_back_to_the_stored_frame() {
    let mut g = geometry();
    g.active_width = 0;
    g.active_height = 0;
    g.sensor_width = 5000;
    g.sensor_height = 4000;
    let p = export_plan(g, ColorSpace::Srgb, LensCorrectionMode::Full, false, true, 0, 2).unwrap();
    assert_eq!((p.active_width, p.active_height), (4032, 3024));
    assert_eq!((p.sensor_width, p.sensor_height), (5000, 4000));
    assert!(!p.is_wide_gamut && !p.has_lens && !p.with_audio);
}

#[test]
fn export_plan_refuses_an_empty_picture() {
    let g = ClipGeometry {
        width: 0,
        height: 0,
        sensor_width: 0,
        sensor_height: 0,
        active_offset_x: 0,
        active_offset_y: 0,
        active_width: 0,
        active_height: 0,
    };
    assert!(export_plan(g, ColorSpace::Rec709, LensCorrectionMode::Off, false, false, 0, 0).is_none());
}

#[test]
fn extended_white_level_adds_two_bits() {
    assert_eq!(extended_white_level(1023), 4095);
    assert_eq!(extended_white_level(4095), 16383);
    assert_eq!(extended_white_level(16383), 65535);
    assert_eq!(extended_white_level(65535), 65535);
    assert_eq!(extended_white_level(0), 7);
    assert_eq!(extended_white_level(1), 7);
}

fn trailer(magic: u32, n: u32, off: u64) -> Vec<u8> {
    let mut v = vec![0u8; 8];
    v.extend_from_slice(&magic.to_le_bytes());
    v.extend_from_slice(&n.to_le_bytes());
    v.extend_from_slice(&off.to_le_bytes());
    v
}

#[test]
fn index_trailer_needs_the_magic() {
    let t = parse_index_trailer(&trailer(INDEX_MAGIC, 3, 1000)).unwrap();
    assert_eq!(t, IndexTrailer { num_offsets: 3, data_offset: 1000 });
    assert!(index_fits(&t, 1048));
    assert!(!index_fits(&t, 1047));
    assert!(!index_fits(&IndexTrailer { num_offsets: 0, data_offset: 0 }, 100));
    assert_eq!(parse_index_trailer(&trailer(0x12345678, 3, 1000)), None);
}

#[test]
fn index_entries_and_span() {
    let mut buf = Vec::new();
    for (off, ts) in [(512i64, 3_000i64), (9_000, 1_000), (20_000, -5)] {
        buf.extend_from_slice(&off.to_le_bytes());
        buf.extend_from_slice(&ts.to_le_bytes());
    }
    let e = parse_index_entries(&buf, 3);
    assert_eq!(e.first_frame_offset, 512);
    assert_eq!(e.timestamps, vec![3_000, 1_000, -5]);
    assert_eq!(timestamp_span(&e.timestamps), (-5, 3_000));
}

#[test]
fn frame_buffer_headers() {
    let mut raw = 2u32.to_le_bytes().to_vec();
    raw.extend_from_slice(&4096u32.to_le_bytes());
    assert_eq!(raw_buffer_size(&raw), Some(4096));
    assert_eq!(metadata_buffer_size(&raw), None);
    let mut meta = 3u32.to_le_bytes().to_vec();
    meta.extend_from_slice(&77u32.to_le_bytes());
    assert_eq!(metadata_buffer_size(&meta), Some(77));
    assert_eq!(raw_buffer_size(&meta), None);
}

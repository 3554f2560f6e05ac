use mcraw_tui::export::{
    rate_control_args, Av1Profile, CodecFamily, DnxhrProfile, H264Profile, HevcProfile,
    ProResProfile, RateControl, Vp9Profile,
};

#[test]
fn rate_control_lossless_software_uses_crf() {
    let args = rate_control_args(&RateControl::Lossless, "libx265");
    assert_eq!(args, vec!["-crf", "16"]);
}

#[test]
fn rate_control_lossless_nvenc_uses_cq() {
    let args = rate_control_args(&RateControl::Lossless, "hevc_nvenc");
    assert_eq!(args, vec!["-cq", "16"]);
}

#[test]
fn rate_control_lossless_videotoolbox_uses_quality_lossless() {
    let args = rate_control_args(&RateControl::Lossless, "hevc_videotoolbox");
    assert_eq!(args, vec!["-quality", "lossless"]);
}

#[test]
fn rate_control_nvenc_bitrate_mode_pins_rc_to_vbr() {
    let args = rate_control_args(&RateControl::Master400M, "hevc_nvenc");
    assert!(args.contains(&"-b:v".to_string()));
    assert!(args.contains(&"-maxrate".to_string()));
    assert!(args.contains(&"-rc:v".to_string()));
    assert!(args.contains(&"vbr".to_string()));
}

#[test]
fn rate_control_vp9_crf_adds_bv0() {
    let args = rate_control_args(&RateControl::Standard, "libvpx-vp9");
    assert!(args.contains(&"-crf".to_string()));
    assert!(args.contains(&"24".to_string()));
    assert!(args.contains(&"-b:v".to_string()));
    assert!(args.contains(&"0".to_string()));
}

#[test]
fn rate_control_libaom_av1_crf_adds_bv0() {
    let args = rate_control_args(&RateControl::High, "libaom-av1");
    assert!(args.contains(&"-crf".to_string()));
    assert!(args.contains(&"20".to_string()));
    assert!(args.contains(&"-b:v".to_string()));
    assert!(args.contains(&"0".to_string()));
}

#[test]
fn rate_control_custom_numeric_routes_to_cq() {
    let args = rate_control_args(&RateControl::Custom("18".into()), "libx265");
    assert_eq!(args, vec!["-crf", "18"]);
}

#[test]
fn rate_control_custom_bitrate_routes_to_bv() {
    let args = rate_control_args(&RateControl::Custom("50M".into()), "libx265");
    assert!(args.contains(&"-b:v".to_string()));
    assert!(args.contains(&"50M".to_string()));
}

#[test]
fn rate_control_custom_empty_returns_empty() {
    let args = rate_control_args(&RateControl::Custom(String::new()), "libx265");
    assert!(args.is_empty());
}

#[test]
fn rate_control_master_software_is_exact() {
    let args = rate_control_args(&RateControl::Master400M, "libx265");
    assert_eq!(args, vec!["-b:v", "400M", "-maxrate", "400M"]);
}

#[test]
fn codec_family_next_prev_cycle() {
    for &c in CodecFamily::all() {
        assert_eq!(c.next().prev(), c);
        assert_eq!(c.prev().next(), c);
    }
    assert_eq!(CodecFamily::VP9.next(), CodecFamily::ProRes);
    assert_eq!(CodecFamily::ProRes.prev(), CodecFamily::VP9);
}

#[test]
fn profile_cycles_return_home() {
    for &p in ProResProfile::all() {
        assert_eq!(p.next().prev(), p);
    }
    for &p in DnxhrProfile::all() {
        assert_eq!(p.prev().next(), p);
    }
    for &p in HevcProfile::all() {
        assert_eq!(p.next().next(), p);
    }
    for &p in H264Profile::all() {
        assert_eq!(p.next().next(), p);
    }
    for &p in Av1Profile::all() {
        assert_eq!(p.next().next(), p);
    }
    for &p in Vp9Profile::all() {
        assert_eq!(p.next().next(), p);
    }
}

#[test]
fn profile_names_and_bit_depths() {
    assert_eq!(ProResProfile::HQ.name(), "HQ");
    assert_eq!(H264Profile::Main8bit.name(), "Main 8-bit");
    assert!(H264Profile::Main8bit.is_8bit());
    assert!(!H264Profile::High10bit.is_8bit());
    assert!(!HevcProfile::Main10_420.is_8bit());
}

#[test]
fn rate_control_names_and_cycle() {
    assert_eq!(RateControl::High.name(), "High Quality");
    assert_eq!(RateControl::Custom("80M".to_string()).name(), "Custom: [80M]");
    assert_eq!(RateControl::Custom(String::new()).name(), "Custom: []");
    assert!(matches!(RateControl::Standard150M.next(), RateControl::Custom(ref s) if s.is_empty()));
    assert!(matches!(RateControl::Custom("x".to_string()).next(), RateControl::Lossless));
}

#[test]
fn ffmpeg_args_dnxhr_ignores_rate_control() {
    let (codec, pix, extra) = CodecFamily::DNxHR.to_ffmpeg_args(
        "libx265",
        "libx264",
        "libaom-av1",
        "prores_ks",
        ProResProfile::HQ,
        DnxhrProfile::HQX,
        HevcProfile::Main10_420,
        H264Profile::Main8bit,
        Av1Profile::Profile0_420_10bit,
        Vp9Profile::Profile2_420_10bit,
        &RateControl::Master400M,
    );
    assert_eq!(codec, "dnxhd");
    assert_eq!(pix, "yuv422p10le");
    assert_eq!(extra, vec!["-profile:v", "dnxhr_hqx"]);
}

#[test]
fn ffmpeg_args_vp9_uses_crf_with_bv0() {
    let (codec, pix, extra) = CodecFamily::VP9.to_ffmpeg_args(
        "libx265",
        "libx264",
        "libaom-av1",
        "prores_ks",
        ProResProfile::HQ,
        DnxhrProfile::HQX,
        HevcProfile::Main10_420,
        H264Profile::Main8bit,
        Av1Profile::Profile0_420_10bit,
        Vp9Profile::Profile3_444_10bit,
        &RateControl::Standard,
    );
    assert_eq!(codec, "libvpx-vp9");
    assert_eq!(pix, "yuv444p10le");
    assert_eq!(extra, vec!["-crf", "24", "-b:v", "0"]);
}

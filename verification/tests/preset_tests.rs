use std::path::PathBuf;

use mcraw_tui::color::{ColorSpace, TransferFunction};
use mcraw_tui::export::{
    Av1Profile, CodecFamily, DnxhrProfile, H264Profile, HevcProfile, ProResProfile, RateControl,
    Vp9Profile,
};
use mcraw_tui::preset::{
    cs_from_str, rate_from_str, tf_from_str, ExportPreset, StoredPreset,
};

fn sample() -> ExportPreset {
    ExportPreset::snapshot(
        "ARRIRAW-bake".to_string(),
        ColorSpace::ARRIWideGamut4,
        TransferFunction::ARRIlog4,
        CodecFamily::ProRes,
        ProResProfile::HQ,
        DnxhrProfile::HQX,
        HevcProfile::Main10_420,
        H264Profile::Main8bit,
        Av1Profile::Profile0_420_10bit,
        Vp9Profile::Profile2_420_10bit,
        RateControl::Lossless,
        Some(PathBuf::from("/tmp/out")),
    )
}

#[test]
fn roundtrip_through_stored() {
    let before = sample();
    let stored = ExportPreset::to_stored(&before);
    let recovered = ExportPreset::from_stored(stored).expect("from_stored");
    assert_eq!(recovered.name, before.name);
    assert_eq!(recovered.color_space, before.color_space);
    assert_eq!(recovered.transfer_function, before.transfer_function);
    assert_eq!(recovered.codec_family, before.codec_family);
    assert_eq!(recovered.prores_profile, before.prores_profile);
    assert_eq!(recovered.export_folder, before.export_folder);
}

#[test]
fn upsert_replaces_same_name() {
    let mut list = vec![sample()];
    let mut updated = sample();
    updated.color_space = ColorSpace::Rec709;
    ExportPreset::upsert(&mut list, updated);
    assert_eq!(list.len(), 1);
    assert_eq!(list[0].color_space, ColorSpace::Rec709);
}

#[test]
fn upsert_appends_new_name() {
    let mut list = vec![sample()];
    let mut new_one = sample();
    new_one.name = "ProRes-4444".to_string();
    ExportPreset::upsert(&mut list, new_one);
    assert_eq!(list.len(), 2);
}

#[test]
fn remove_by_name_drops_matching() {
    let mut list = vec![sample()];
    let mut second = sample();
    second.name = "second".to_string();
    list.push(second);
    assert!(ExportPreset::remove_by_name(&mut list, "second"));
    assert_eq!(list.len(), 1);
    assert!(!ExportPreset::remove_by_name(&mut list, "missing"));
}

#[test]
fn custom_rate_roundtrip() {
    let mut p = sample();
    p.rate_control = RateControl::Custom("80M".to_string());
    let stored = ExportPreset::to_stored(&p);
    let recovered = ExportPreset::from_stored(stored).expect("from_stored");
    if let RateControl::Custom(s) = recovered.rate_control {
        assert_eq!(s, "80M");
    } else {
        panic!("expected Custom, got {:?}", recovered.rate_control);
    }
}

#[test]
fn every_setting_round_trips_by_name() {
    for &cs in ColorSpace::all() {
        assert_eq!(cs_from_str(cs.name()), Some(cs));
    }
    for &tf in TransferFunction::all() {
        assert_eq!(tf_from_str(tf.name()), Some(tf));
    }
    assert_eq!(cs_from_str("No Such Gamut"), None);
    for r in [
        RateControl::Lossless,
        RateControl::High,
        RateControl::Standard,
        RateControl::Master400M,
        RateControl::Standard150M,
        RateControl::Custom(String::new()),
        RateControl::Custom("-crf 12]".to_string()),
    ] {
        assert_eq!(format!("{:?}", rate_from_str(&r.name())), format!("{:?}", r));
    }
    assert!(matches!(rate_from_str("whatever"), RateControl::Lossless));
}

#[test]
fn from_stored_needs_known_names_and_defaults_profiles() {
    let mut s: StoredPreset = ExportPreset::to_stored(&sample());
    s.prores_profile = None;
    s.hevc_profile = Some("nonsense".to_string());
    let p = ExportPreset::from_stored(s).expect("readable");
    assert_eq!(p.prores_profile, ProResProfile::HQ);
    assert_eq!(p.hevc_profile, HevcProfile::Main10_420);

    let mut bad = ExportPreset::to_stored(&sample());
    bad.codec_family = "MPEG-2".to_string();
    assert!(ExportPreset::from_stored(bad).is_none());
}

#[test]
fn stored_lists_skip_unreadable_entries() {
    let mut second = sample();
    second.name = "second".to_string();
    let stored = ExportPreset::to_stored_all(&[sample(), second]);
    assert_eq!(stored.len(), 2);
    let mut stored = stored;
    stored[0].color_space = "???".to_string();
    let back = ExportPreset::from_stored_all(stored);
    assert_eq!(back.len(), 1);
    assert_eq!(back[0].name, "second");
}

#[test]
fn remove_by_name_drops_every_match() {
    let mut list = vec![sample(), sample(), sample()];
    list[1].name = "keep".to_string();
    assert!(ExportPreset::remove_by_name(&mut list, "ARRIRAW-bake"));
    assert_eq!(list.len(), 1);
    assert_eq!(list[0].name, "keep");
}

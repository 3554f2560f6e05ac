use mcraw_tui::color::{ColorSpace, TransferFunction};
use mcraw_tui::export::CodecFamily;
use mcraw_tui::naming::{
    container_extension, export_file_name, export_file_name_for_stem, export_started_message, export_start,
    file_label_of, ExportStart,
};
use mcraw_tui::settings::ExportSettings;

fn fresh() -> ExportSettings {
    ExportSettings::new(Vec::new(), "Ready".to_string())
}

#[test]
fn labels_drop_spaces_brackets_and_dots() {
    assert_eq!(file_label_of("HLG (BT.2100)"), "HLGBT2100");
    assert_eq!(file_label_of("S-Gamut3.Cine"), "S-Gamut3Cine");
    assert_eq!(file_label_of("Gamma 2.4"), "Gamma24");
    assert_eq!(container_extension(CodecFamily::ProRes), "mov");
    assert_eq!(container_extension(CodecFamily::DNxHR), "mov");
    assert_eq!(container_extension(CodecFamily::VP9), "webm");
    assert_eq!(container_extension(CodecFamily::AV1), "mp4");
}

#[test]
fn export_names_and_numbered_retries() {
    let mut s = fresh();
    assert_eq!(export_file_name_for_stem(&s, Some("A001".to_string()), 0), "A001_Gamma24_Rec709.mp4");
    assert_eq!(export_file_name_for_stem(&s, Some("A001".to_string()), 2), "A001_Gamma24_Rec709_2.mp4");
    assert_eq!(export_file_name_for_stem(&s, None, 0), "output_Gamma24_Rec709.mp4");
    // A retry name is read as a path whose extension is replaced.
    assert_eq!(export_file_name_for_stem(&s, Some("clip.v2".to_string()), 1), "clip.mp4");
    s.export_codec_family = CodecFamily::ProRes;
    s.export_transfer_function = TransferFunction::HLG;
    s.export_color_space = ColorSpace::Rec2020;
    assert_eq!(export_file_name(&s, "/clips/B002.mcraw", 0), "B002_HLGBT2100_Rec2020.mov");
}

#[test]
fn export_start_decisions() {
    let mut s = fresh();
    assert_eq!(export_start(&s, true, true), ExportStart::CancelRunning);
    assert_eq!(export_start(&s, false, false), ExportStart::NoClip);
    assert_eq!(export_start(&s, false, true), ExportStart::Start);
    assert_eq!(export_started_message(&s), "Starting export: Rec.709 / Gamma 2.4 via HEVC Main 10 4:2:0 ...");
    s.export_transfer_function = TransferFunction::SLog3;
    assert_eq!(export_start(&s, false, true), ExportStart::Start);
    s.export_codec_family = CodecFamily::H264;
    assert_eq!(export_start(&s, false, true), ExportStart::EightBitLog);
    assert_eq!(
        ExportStart::EightBitLog.status_message(),
        Some("Cannot export Log/HDR to 8-bit codec".to_string())
    );
    assert_eq!(
        ExportStart::CancelRunning.status_message(),
        Some("Export cancelled. Press V again to restart.".to_string())
    );
    assert_eq!(ExportStart::NoClip.status_message(), Some("No file loaded".to_string()));
    assert_eq!(ExportStart::Start.status_message(), None);
}

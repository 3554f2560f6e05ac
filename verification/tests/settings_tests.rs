use std::path::PathBuf;

use mcraw_tui::color::{ColorSpace, TransferFunction};
use mcraw_tui::export::{CodecFamily, DnxhrProfile, HevcProfile, ProResProfile, RateControl, Vp9Profile};
use mcraw_tui::session::ExportFocus;
use mcraw_tui::settings::{ExportFps, ExportSettings};

fn fresh() -> ExportSettings {
    ExportSettings::new(Vec::new(), "Ready".to_string())
}

#[test]
fn settings_start_with_hevc_main10_lossless() {
    let s = fresh();
    assert_eq!(s.export_codec_family, CodecFamily::HEVC);
    assert_eq!(s.active_profile_name(), "Main 10 4:2:0");
    assert!(!s.active_profile_is_8bit());
    assert!(matches!(s.active_rate_control, RateControl::Lossless));
    assert_eq!(s.status_message, "Ready");
}

#[test]
fn cycling_codec_profile_and_rate() {
    let mut s = fresh();
    s.cycle_codec(true);
    assert_eq!(s.export_codec_family, CodecFamily::H264);
    assert_eq!(s.export_focus, ExportFocus::CodecFamily);
    assert_eq!(s.status_message, "Codec: H.264");
    assert!(s.active_profile_is_8bit());
    s.cycle_codec(false);
    s.cycle_codec(false);
    assert_eq!(s.export_codec_family, CodecFamily::DNxHR);
    s.cycle_profile(true);
    assert_eq!(s.dnxhr_profile, DnxhrProfile::P444);
    assert_eq!(s.export_focus, ExportFocus::Profile);
    assert_eq!(s.status_message, "Profile: 444");
    assert_eq!(s.prores_profile, ProResProfile::HQ);
    assert_eq!(s.hevc_profile, HevcProfile::Main10_420);
    s.is_editing_custom_rate = true;
    s.cycle_rate_control();
    assert!(matches!(s.active_rate_control, RateControl::High));
    assert!(!s.is_editing_custom_rate);
    assert_eq!(s.status_message, "Rate: High Quality");
}

#[test]
fn saved_preset_matches_and_applies() {
    let mut s = fresh();
    s.export_color_space = ColorSpace::Rec2020;
    s.export_transfer_function = TransferFunction::HLG;
    s.export_folder = Some(PathBuf::from("/renders"));
    assert!(!s.save_current_as_preset("   ".to_string()));
    assert_eq!(s.status_message, "Preset name cannot be empty");
    assert!(s.presets.is_empty());

    assert!(s.save_current_as_preset("  HDR  ".to_string()));
    assert_eq!(s.presets.len(), 1);
    assert_eq!(s.presets[0].name, "HDR");
    assert_eq!(s.active_preset.as_deref(), Some("HDR"));
    assert_eq!(s.status_message, "Saved preset: HDR");
    assert!(s.current_matches_preset("HDR"));
    assert!(!s.current_matches_preset("Other"));

    s.cycle_codec(true);
    assert!(!s.current_matches_preset("HDR"));
    s.export_folder = None;
    s.apply_preset(0);
    assert!(s.current_matches_preset("HDR"));
    assert_eq!(s.export_codec_family, CodecFamily::HEVC);
    assert_eq!(s.export_folder, Some(PathBuf::from("/renders")));
    assert_eq!(s.status_message, "Applied preset: HDR");

    // Saving under the same name replaces the preset in place.
    s.vp9_profile = Vp9Profile::Profile3_444_10bit;
    assert!(s.save_current_as_preset("HDR".to_string()));
    assert_eq!(s.presets.len(), 1);
    assert_eq!(s.presets[0].vp9_profile, Vp9Profile::Profile3_444_10bit);

    // An index past the list changes nothing.
    s.apply_preset(5);
    assert_eq!(s.status_message, "Saved preset: HDR");
}

#[test]
fn deleting_and_picking_presets() {
    let mut s = fresh();
    s.open_preset_picker();
    assert!(!s.preset_picker.open);
    assert_eq!(
        s.status_message,
        "No presets yet \u{2014} press [p] to save the current settings"
    );
    s.save_current_as_preset("A".to_string());
    s.save_current_as_preset("B".to_string());
    s.preset_picker.index = 7;
    s.open_preset_picker();
    assert!(s.preset_picker.open);
    assert_eq!(s.preset_picker.index, 1);
    assert!(s.delete_preset(1));
    assert_eq!(s.active_preset, None);
    assert_eq!(s.preset_picker.index, 0);
    assert_eq!(s.preset_picker.message.as_deref(), Some("Deleted preset: B"));
    assert_eq!(s.status_message, "Deleted preset: B");
    assert!(!s.delete_preset(3));
    s.close_preset_picker();
    assert!(!s.preset_picker.open);
    assert_eq!(s.preset_picker.message, None);
}

#[test]
fn naming_a_preset() {
    let mut s = fresh();
    s.begin_naming_preset();
    assert_eq!(s.preset_naming.as_ref().unwrap().name, "My Preset");
    s.cancel_naming_preset();
    assert!(s.preset_naming.is_none());
    assert!(!s.commit_naming_preset());
    s.begin_naming_preset();
    assert!(s.commit_naming_preset());
    assert!(s.preset_naming.is_none());
    assert_eq!(s.active_preset.as_deref(), Some("My Preset"));
    s.begin_naming_preset();
    assert_eq!(s.preset_naming.as_ref().unwrap().name, "My Preset (copy)");
}

#[test]
fn typing_a_preset_name() {
    let mut s = fresh();
    s.type_preset_name_char('x');
    assert!(s.preset_naming.is_none());
    s.begin_naming_preset();
    assert_eq!(s.preset_naming.as_ref().unwrap().name, "My Preset");
    s.erase_preset_name_char();
    s.erase_preset_name_char();
    s.type_preset_name_char('X');
    assert_eq!(s.preset_naming.as_ref().unwrap().name, "My PresX");
    assert!(s.commit_naming_preset());
    assert_eq!(s.active_preset.as_deref(), Some("My PresX"));
}

#[test]
fn preset_picker_cursor_stays_in_the_list() {
    let mut s = fresh();
    assert!(s.save_current_as_preset("One".to_string()));
    assert!(s.save_current_as_preset("Two".to_string()));
    s.open_preset_picker();
    s.preset_picker.message = Some("note".to_string());
    s.preset_picker_up();
    assert_eq!(s.preset_picker.index, 0);
    assert!(s.preset_picker.message.is_none());
    s.preset_picker_down();
    s.preset_picker_down();
    assert_eq!(s.preset_picker.index, 1);
    s.preset_picker_up();
    assert_eq!(s.preset_picker.index, 0);
}

#[test]
fn editing_a_custom_rate() {
    let mut s = fresh();
    s.type_custom_rate_char('5');
    assert!(matches!(s.active_rate_control, RateControl::Lossless));
    s.active_rate_control = RateControl::Custom(String::new());
    s.is_editing_custom_rate = true;
    for c in "50M!".chars() {
        s.type_custom_rate_char(c);
    }
    s.type_custom_rate_char('x');
    s.erase_custom_rate_char();
    assert!(matches!(&s.active_rate_control, RateControl::Custom(v) if v == "50M"));
    s.finish_custom_rate_edit();
    assert!(!s.is_editing_custom_rate);
    assert_eq!(s.status_message, "Rate: Custom: [50M]");
}

#[test]
fn frame_rate_gamut_and_curve_cycles() {
    let mut s = fresh();
    assert_eq!(s.export_fps, ExportFps::Original);
    s.cycle_export_fps();
    assert_eq!(s.export_fps, ExportFps::Fps23_976);
    assert_eq!(s.export_focus, ExportFocus::Fps);
    assert_eq!(s.status_message, "FPS: 23.976");
    assert_eq!(s.export_fps.millis(), Some(23976));
    for _ in 0..7 {
        s.cycle_export_fps();
    }
    assert_eq!(s.export_fps, ExportFps::Original);
    assert_eq!(s.status_message, "FPS: Original");
    assert_eq!(ExportFps::Fps120.label(), "120");
    s.cycle_color_space(true);
    assert!(s.status_message.starts_with("Gamut: "));
    s.cycle_color_space(false);
    assert_eq!(s.export_color_space, ColorSpace::Rec709);
    s.cycle_transfer_function(true);
    s.cycle_transfer_function(false);
    assert_eq!(s.export_transfer_function, TransferFunction::Gamma24);
    assert!(s.status_message.starts_with("Transfer: "));
    s.set_export_folder(PathBuf::from("/out"));
    assert_eq!(s.export_folder, Some(PathBuf::from("/out")));
    assert_eq!(s.status_message, "Export folder set");
}

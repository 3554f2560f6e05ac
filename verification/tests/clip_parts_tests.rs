use std::path::PathBuf;

use mcraw_tui::browser::Favourites;
use mcraw_tui::dng::stem_from_path;
use mcraw_tui::index::first_frame_size;
use mcraw_tui::metadata::camera_section;
use mcraw_tui::settings::ExportSettings;

fn frame(raw_len: u32, json: &str) -> Vec<u8> {
    let mut d = vec![0xAAu8; 5];
    d.extend_from_slice(&2u32.to_le_bytes());
    d.extend_from_slice(&raw_len.to_le_bytes());
    d.extend(std::iter::repeat(7u8).take(raw_len as usize));
    d.extend_from_slice(&3u32.to_le_bytes());
    d.extend_from_slice(&(json.len() as u32).to_le_bytes());
    d.extend_from_slice(json.as_bytes());
    d
}

#[test]
fn first_frame_size_reads_the_metadata_buffer() {
    let d = frame(4, r#"{"width": 4032, "height": 3024, "iso": 100}"#);
    assert_eq!(first_frame_size(&d, 5), Some((4032, 3024)));
    // offset past the frame, wrong buffer kind, truncated body
    assert_eq!(first_frame_size(&d, 6), None);
    assert_eq!(first_frame_size(&d, 1000), None);
    assert_eq!(first_frame_size(&d[..d.len() - 1], 5), None);
}

#[test]
fn first_frame_size_truncates_to_16_bits_and_refuses_zero() {
    assert_eq!(first_frame_size(&frame(0, r#"{"width": 65537, "height": 2}"#), 5), Some((1, 2)));
    assert_eq!(first_frame_size(&frame(0, r#"{"width": 65536, "height": 2}"#), 5), None);
    assert_eq!(first_frame_size(&frame(0, r#"{"width": 10}"#), 5), None);
    assert_eq!(first_frame_size(&frame(0, r#"{"width": -1, "height": 2}"#), 5), None);
    assert_eq!(first_frame_size(&frame(0, "not json"), 5), None);
}

#[test]
fn stems_of_portable_paths() {
    assert_eq!(stem_from_path("clips/a.b.mcraw"), "a.b");
    assert_eq!(stem_from_path(".hidden"), ".hidden");
    assert_eq!(stem_from_path("take."), "take");
    assert_eq!(stem_from_path("../x/A001-metadata-metadata.json"), "A001");
}

#[test]
fn toggling_a_favourite_at_a_found_position() {
    let mut f = Favourites::new(vec![PathBuf::from("/a"), PathBuf::from("/b")]);
    assert!(!f.toggle_at(PathBuf::from("/b"), Some(1)));
    assert_eq!(f.folders, vec![PathBuf::from("/a")]);
    assert!(f.toggle_at(PathBuf::from("/c"), None));
    assert_eq!(f.folders, vec![PathBuf::from("/a"), PathBuf::from("/c")]);
    // an equal folder already held is always removed
    assert!(!f.toggle(PathBuf::from("/c")));
    assert!(f.toggle(PathBuf::from("/d")));
}

#[test]
fn camera_section_lays_out_known_fields() {
    let lines = camera_section(
        Some("Pixel 8"),
        Some("Main"),
        Some("6.9"),
        Some("1.7"),
        Some(100),
        Some("1/50s"),
        Some("5200"),
        None,
        Some("1.00, 0.00"),
        Some((21, -1)),
    );
    assert_eq!(
        lines,
        vec![
            "Camera",
            "  Camera:       Pixel 8",
            "  Lens:         Main",
            "  Focal Length: 6.9mm",
            "  Aperture:     f/1.7",
            "  ISO:          100",
            "  Exposure:     1/50s",
            "  White Balance:5200K",
            "  Color Matrix2: [1.00, 0.00]",
            "  Cal Illuminants: 21 / -1",
            "",
        ]
    );
    assert_eq!(camera_section(Some(""), None, None, None, None, None, None, None, None, None), vec!["Camera", ""]);
}

#[test]
fn preset_match_given_the_folder_comparison() {
    let mut s = ExportSettings::new(Vec::new(), "Ready".to_string());
    s.export_folder = Some(PathBuf::from("/r"));
    assert!(s.save_current_as_preset("P".to_string()));
    assert!(s.matches_preset_given(&s.presets[0], true));
    assert!(!s.matches_preset_given(&s.presets[0], false));
    s.export_folder = None;
    assert!(!s.matches_preset_given(&s.presets[0], true));
}

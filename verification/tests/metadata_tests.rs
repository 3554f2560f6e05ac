use mcraw_tui::file::BayerPattern;
use mcraw_tui::metadata::{audio_section, format_capture_date, format_duration, format_size, general_section, video_section};

#[test]
fn test_format_size_bytes() {
    assert_eq!(format_size(500), "500 B");
    assert_eq!(format_size(1024), "1.00 KB");
    assert_eq!(format_size(1024 * 512), "512.00 KB");
}

#[test]
fn test_format_size_kb() {
    assert_eq!(format_size(1024 * 10), "10.00 KB");
    assert_eq!(format_size(1024 * 1024 - 1), "1024.00 KB");
}

#[test]
fn test_format_size_mb() {
    assert_eq!(format_size(1024 * 1024), "1.00 MB");
    assert_eq!(format_size(1024 * 1024 * 10), "10.00 MB");
    assert_eq!(format_size(1024 * 1024 * 256), "256.00 MB");
}

#[test]
fn test_format_size_gb() {
    assert_eq!(format_size(1024 * 1024 * 1024), "1.00 GB");
    assert_eq!(format_size(1024 * 1024 * 1024 * 2), "2.00 GB");
    assert_eq!(format_size(1024 * 1024 * 1024 * 4), "4.00 GB");
}

#[test]
fn format_size_matches_float_formatting() {
    // every size class, with values that round up, down and on a tie
    let samples: [u64; 16] = [
        0,
        1,
        1023,
        1025,
        1536,
        1029,
        5 * 1024 + 5,
        1024 * 1024 + 5243,
        3 * 1024 * 1024 * 1024 + 5368709,
        (1u64 << 53) + 1,
        (1u64 << 53) + 3,
        u64::MAX,
        u64::MAX - 1024,
        123_456_789_012,
        1024 * 1024 * 1024 - 1,
        10_737_418,
    ];
    for &b in samples.iter() {
        let expected = if b >= 1 << 30 {
            format!("{:.2} GB", b as f64 / (1u64 << 30) as f64)
        } else if b >= 1 << 20 {
            format!("{:.2} MB", b as f64 / (1u64 << 20) as f64)
        } else if b >= 1 << 10 {
            format!("{:.2} KB", b as f64 / (1u64 << 10) as f64)
        } else {
            format!("{} B", b)
        };
        assert_eq!(format_size(b), expected, "bytes = {}", b);
    }
}

#[test]
fn format_size_ties_round_to_even() {
    // 1029 / 1024 = 1.0048828125 and 1.005 * 1024 = 1029.12: rounds down
    assert_eq!(format_size(1029), "1.00 KB");
    // 1.125 KB -> "1.12" (tie to even), 1.375 KB -> "1.38"
    assert_eq!(format_size(1152), "1.12 KB");
    assert_eq!(format_size(1408), "1.38 KB");
}

#[test]
fn test_format_capture_date() {
    assert_eq!(
        format_capture_date("2024-01-15T10:30:45+00:00"),
        "2024-01-15 10:30:45+00:00"
    );
    assert_eq!(
        format_capture_date("2024-06-20T14:00:00-05:00"),
        "2024-06-20 14:00:00-05:00"
    );
    assert_eq!(format_capture_date("raw-date"), "raw-date");
}

#[test]
fn capture_date_trims_and_keeps_short_text() {
    assert_eq!(format_capture_date("  2024-01-15T10:30:45Z \n"), "2024-01-15 10:30:45Z");
    assert_eq!(format_capture_date("2024-01-15T10:30:45"), "2024-01-15 10:30:45");
    assert_eq!(format_capture_date("2024-01-15T10:30:45   "), "2024-01-15 10:30:45");
    assert_eq!(format_capture_date("\u{3000}short\u{2003}"), "short");
    assert_eq!(format_capture_date(""), "");
}

#[test]
fn capture_date_counts_bytes_not_characters() {
    // "é" takes two bytes, so the date part (the first ten bytes) ends early
    assert_eq!(format_capture_date("é2024-01-1xT10:30:45+01"), "é2024-01- xT10:30:45+01");
}

#[test]
fn test_format_duration_minutes() {
    assert_eq!(format_duration(0), "0:00");
    assert_eq!(format_duration(60), "1:00");
    assert_eq!(format_duration(120), "2:00");
    assert_eq!(format_duration(90), "1:30");
}

#[test]
fn test_format_duration_hours() {
    assert_eq!(format_duration(3600), "1:00:00");
    assert_eq!(format_duration(3725), "1:02:05");
    assert_eq!(format_duration(7200), "2:00:00");
}

#[test]
fn information_panel_sections() {
    use_sections();
}

fn use_sections() {
    let g = general_section("/clips/A001.mcraw", 2048, 2, Some("2024-05-01T10:20:30+02:00"));
    assert_eq!(
        g,
        vec![
            "General",
            "  Filename:     A001.mcraw",
            "  Path:         /clips/A001.mcraw",
            "  Size:         2.00 KB",
            "  Format:       MotionCam v2",
            "  Capture Date: 2024-05-01 10:20:30+02:00",
            "",
        ]
    );
    let v = video_section(3840, 2160, "24.00", 3725, 100, 12, BayerPattern::RGGB, (3000, 2000, 4, 6));
    assert_eq!(v[0], "Video");
    assert_eq!(v[2], "  FPS:          24.00");
    assert_eq!(v[3], "  Duration:     1:02:05");
    assert_eq!(v[4], "  Frames:       100");
    assert_eq!(v[5], "  Bit Depth:    12-bit");
    assert_eq!(v[7], "  Active Area:  3000x2000 @(4,6)");
    assert_eq!(v.len(), 9);
    let v = video_section(1920, 1080, "30.00", 0, 1, 10, BayerPattern::RGGB, (0, 2000, 0, 0));
    assert_eq!(v.len(), 8);
    let a = audio_section(true, 48000, 2, Some(4096), None);
    assert_eq!(a, vec!["Audio", "  Has Audio:    Yes", "  Sample Rate:  48000 Hz", "  Channels:    2 (stereo)", "  Audio Length: 4096 bytes", ""]);
    let a = audio_section(false, 48000, 2, None, None);
    assert_eq!(a, vec!["Audio", "  Has Audio:    No", ""]);
}

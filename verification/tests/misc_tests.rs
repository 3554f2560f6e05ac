use mcraw_tui::terminal::TerminalProtocol;
use mcraw_tui::thumbnail::{encode_rgba_to_terminal, TerminalImageError};
use mcraw_tui::dng::{dng_frame, DngError};
use mcraw_tui::lj92::compress_lj92;
use mcraw_tui::dng::{
    build_gainmap_opcode_blob, clip_name_from_stem, pattern_to_cfa, stem_from_path, GainMapPlanes,
};
use mcraw_tui::encoder::{caps_from_encoder_listing, Encoder, McrawError};
use mcraw_tui::file::BayerPattern;
use mcraw_tui::motion::{bayer_from_arrangement, choose_camera_model, illuminant_from_name};
use mcraw_tui::session::{
    escape_action, EscapeAction, ExportFocus, import_result_message, ImportPopupState, drop_outcome, is_clip_path, lone_clip_outcome, DropOutcome,
    dedup_preserving_order, decode_file_uri, normalize_path, percent_decode_path, strip_surrounding_quotes, FocusTarget,
};
use mcraw_tui::thumbnail::{bayer_color, kitty_encode, kitty_frame, rgba_to_rgb, ThumbnailResult};

#[test]
fn focus_cycles_through_three_panels() {
    let mut f = FocusTarget::MediaPool;
    let mut seen = vec![];
    for _ in 0..3 {
        f = f.next();
        seen.push(f);
    }
    assert_eq!(f, FocusTarget::MediaPool);
    assert_eq!(seen, vec![FocusTarget::Queue, FocusTarget::ExportSettings, FocusTarget::MediaPool]);
    assert_eq!(FocusTarget::Grade.next(), FocusTarget::ExportSettings);
    assert_eq!(FocusTarget::Queue.status_message(), "Focus: Render Queue");
}

#[test]
fn dropped_path_cleanup() {
    assert_eq!(strip_surrounding_quotes("  '/a b/c'  "), "/a b/c");
    assert_eq!(strip_surrounding_quotes("\"x\""), "x");
    assert_eq!(strip_surrounding_quotes("\"x'"), "\"x'");
    assert_eq!(strip_surrounding_quotes("\""), "\"");
    assert_eq!(decode_file_uri("file:///home/u/a.mcraw", false), "/home/u/a.mcraw");
    assert_eq!(decode_file_uri("file:///C:/clips/a.mcraw", true), "C:/clips/a.mcraw");
    assert_eq!(decode_file_uri("file:///C:/clips/a.mcraw", false), "/C:/clips/a.mcraw");
    assert_eq!(decode_file_uri("file://host/share/a", false), "/share/a");
    assert_eq!(decode_file_uri("file://hostonly", false), "hostonly");
    assert_eq!(decode_file_uri("/plain", false), "/plain");
    assert_eq!(normalize_path("a/b/c", true), "a\\b\\c");
    assert_eq!(normalize_path("\\\\srv/x", true), "\\\\srv/x");
    assert_eq!(normalize_path("a/b", false), "a/b");
}

#[test]
fn percent_decoding() {
    assert_eq!(percent_decode_path("a%20b"), "a b");
    assert_eq!(percent_decode_path("caf%C3%A9"), "café");
    assert_eq!(percent_decode_path("no-escapes"), "no-escapes");
    assert_eq!(percent_decode_path("100%"), "100%");
    assert_eq!(percent_decode_path("bad%FF"), "bad%FF");
}

#[test]
fn cfa_patterns_follow_offsets() {
    assert_eq!(pattern_to_cfa(BayerPattern::RGGB, 0, 0), [0, 1, 1, 2]);
    assert_eq!(pattern_to_cfa(BayerPattern::RGGB, 1, 0), [1, 0, 2, 1]);
    assert_eq!(pattern_to_cfa(BayerPattern::RGGB, 0, 1), [1, 2, 0, 1]);
    assert_eq!(pattern_to_cfa(BayerPattern::RGGB, 1, 1), [2, 1, 1, 0]);
    assert_eq!(pattern_to_cfa(BayerPattern::QuadBayerBGGR, 2, 2), [0, 1, 1, 2]);
}

#[test]
fn clip_names() {
    assert_eq!(stem_from_path("/clips/VID_001.mcraw"), "VID_001");
    assert_eq!(stem_from_path("/clips/VID_001-metadata.json"), "VID_001");
    assert_eq!(clip_name_from_stem(None), "clip");
    assert_eq!(clip_name_from_stem(Some("a-metadata-metadata".to_string())), "a");
    assert_eq!(clip_name_from_stem(Some("-metadata".to_string())), "");
}

#[test]
fn gainmap_blob_layout() {
    let map = GainMapPlanes {
        channels: vec![vec![1.0f32.to_bits()], vec![2.0f32.to_bits()], vec![0], vec![0x01020304]],
        width: 1,
        height: 1,
    };
    let blob = build_gainmap_opcode_blob(&map, 10, 20, 30, 40);
    assert_eq!(&blob[0..4], &[0, 0, 0, 1]);
    assert_eq!(&blob[4..6], &[0, 9]);
    assert_eq!(&blob[6..10], &1_007_000u32.to_be_bytes());
    let payload_len = 40 + 16;
    assert_eq!(&blob[14..18], &(payload_len as u32).to_be_bytes());
    assert_eq!(blob.len(), 18 + payload_len);
    assert_eq!(&blob[22..26], &10u32.to_be_bytes());
    assert_eq!(&blob[58..62], &1.0f32.to_be_bytes());
    assert_eq!(&blob[70..74], &[1, 2, 3, 4]);
}

#[test]
fn thumbnails() {
    assert_eq!(rgba_to_rgb(&[1, 2, 3, 4, 5, 6, 7, 8]), vec![1, 2, 3, 5, 6, 7]);
    assert_eq!(rgba_to_rgb(&[1, 2, 3, 4, 5, 6, 7]), vec![1, 2, 3, 5, 6, 7]);
    assert_eq!(bayer_color(0, 0, 0), 0);
    assert_eq!(bayer_color(1, 1, 0), 2);
    assert_eq!(bayer_color(-1, 0, 1), 0);
    assert_eq!(bayer_color(3, 2, 3), 1);
    let frame = kitty_frame("QUJD", 2, 3);
    assert_eq!(frame, b"\x1b_Ga=t,i=0,r=1,f=24,s=2,v=3,m=0;QUJD\x1b\\".to_vec());
    // RGB 1,2,3 encodes as "AQID"
    let k = kitty_encode(&[1, 2, 3, 255], 1, 1);
    assert_eq!(k, b"\x1b_Ga=t,i=0,r=1,f=24,s=1,v=1,m=0;AQID\x1b\\".to_vec());
    let r = ThumbnailResult {
        path: std::path::PathBuf::from("x"),
        sixel: Some(vec![9, 9]),
        width: 4,
        height: 2,
        error: None,
    };
    let c = r.to_cached().unwrap();
    assert_eq!((c.sixel.clone(), c.width, c.height, c.byte_size()), (vec![9, 9], 4, 2, 2));
}

#[test]
fn encoder_choice_and_errors() {
    let caps = caps_from_encoder_listing(Some(" V....D hevc_qsv  ...\n V....D hevc_videotoolbox"));
    assert_eq!(caps.best_hevc_encoder, "hevc_qsv");
    assert!(caps.hevc_is_hw);
    let caps = caps_from_encoder_listing(Some("libx264 only"));
    assert_eq!((caps.best_hevc_encoder.as_str(), caps.hevc_is_hw), ("libx265", false));
    let caps = caps_from_encoder_listing(None);
    assert_eq!(caps.best_hevc_encoder, "libx265");
    assert_eq!(Encoder::new().list_supported_formats(), vec!["DNG", "ProRes", "H.264", "HEVC"]);
    assert_eq!(McrawError::ParseError("bad".to_string()).message(), "Parse error: bad");
    assert_eq!(McrawError::DecoderNotAvailable.message(), "Decoder not available");
    let io = McrawError::IoError(std::io::Error::new(std::io::ErrorKind::Other, "boom"));
    assert_eq!(io.message(), "IO error: boom");
}

#[test]
fn dropped_paths_keep_first_occurrences() {
    let v: Vec<String> = ["b", "a", "b", "c", "a"].iter().map(|s| s.to_string()).collect();
    assert_eq!(dedup_preserving_order(v), vec!["b", "a", "c"]);
    assert!(dedup_preserving_order(Vec::new()).is_empty());
}

#[test]
fn motion_header_decisions() {
    assert_eq!(bayer_from_arrangement(Some("bggr")), BayerPattern::BGGR);
    assert_eq!(bayer_from_arrangement(Some("standard")), BayerPattern::RGGB);
    assert_eq!(bayer_from_arrangement(None), BayerPattern::RGGB);
    assert_eq!(illuminant_from_name("  D65 "), Some(21));
    assert_eq!(illuminant_from_name("Tungsten"), Some(17));
    assert_eq!(illuminant_from_name("TL84"), Some(12));
    assert_eq!(illuminant_from_name("moonlight"), None);
    assert_eq!(
        choose_camera_model(Some(String::new()), Some("Pixel 8".to_string()), Some("x".to_string())),
        Some("Pixel 8".to_string())
    );
    assert_eq!(choose_camera_model(None, None, Some(String::new())), None);
}

#[test]
fn dng_frame_lays_out_the_active_area() {
    let bayer: Vec<u16> = (0..24).map(|v| v * 100).collect();
    let f = dng_frame(6, 4, &bayer, BayerPattern::RGGB, 1, 0, 4, 3).unwrap();
    assert_eq!((f.width, f.height), (6, 4));
    assert_eq!(f.strip, compress_lj92(&bayer, 6, 4));
    assert_eq!(f.cfa, [1, 0, 2, 1]);
    assert_eq!(f.active_area, [0, 1, 3, 5]);
    assert_eq!(f.crop_origin, [1, 0]);
    assert_eq!(f.crop_size, [4, 3]);
    assert_eq!(
        dng_frame(6, 4, &bayer[..20], BayerPattern::RGGB, 0, 0, 6, 4).err(),
        Some(DngError::BayerTooShort { width: 6, height: 4, got: 20, need: 24 })
    );
}

#[test]
fn terminal_image_follows_the_protocol() {
    let rgba = vec![255u8, 0, 0, 255, 0, 255, 0, 255];
    assert_eq!(
        encode_rgba_to_terminal(TerminalProtocol::Kitty, &rgba, 2, 1).unwrap(),
        kitty_encode(&rgba, 2, 1)
    );
    let sixel = encode_rgba_to_terminal(TerminalProtocol::Sixel, &rgba, 2, 1).unwrap();
    assert!(sixel.starts_with(b"\x1bP"));
    assert_ne!(sixel, rgba);
    assert!(matches!(
        encode_rgba_to_terminal(TerminalProtocol::Sixel, &rgba, 0, 1),
        Err(TerminalImageError::Sixel(_))
    ));
    assert!(matches!(
        encode_rgba_to_terminal(TerminalProtocol::Sixel, &rgba[..4], 2, 1),
        Err(TerminalImageError::Sixel(_))
    ));
    assert!(matches!(
        encode_rgba_to_terminal(TerminalProtocol::TextFallback, &rgba, 2, 1),
        Err(TerminalImageError::Unsupported)
    ));
}

#[test]
fn drop_decisions_follow_the_batch_size() {
    assert_eq!(drop_outcome(0, 0, 0), DropOutcome::NoValidPaths);
    assert_eq!(drop_outcome(2, 0, 1), DropOutcome::NoClips);
    assert_eq!(drop_outcome(3, 3, 0), DropOutcome::ImportNow);
    assert_eq!(drop_outcome(4, 4, 0), DropOutcome::AskFirst);
    assert_eq!(drop_outcome(1, 1, 1), DropOutcome::ListClipFolder);
    assert_eq!(drop_outcome(1, 2, 1), DropOutcome::AskFirst);
    assert_eq!(lone_clip_outcome(1), DropOutcome::ImportNow);
    assert_eq!(lone_clip_outcome(5), DropOutcome::AskFirst);
    assert_eq!(
        DropOutcome::NoValidPaths.status_message(),
        Some("Drag-drop: no valid paths received".to_string())
    );
    assert_eq!(
        DropOutcome::NoClips.status_message(),
        Some("Drag-drop: no .mcraw files found in dropped items".to_string())
    );
    assert_eq!(DropOutcome::ImportNow.status_message(), None);
}

#[test]
fn clip_paths_are_recognised_by_extension() {
    assert!(is_clip_path("/clips/A001.mcraw"));
    assert!(is_clip_path("/clips/B002.MCRAW"));
    assert!(!is_clip_path("/clips/notes.txt"));
    assert!(!is_clip_path("/clips/mcraw"));
}

#[test]
fn import_popup_choices_and_messages() {
    let popup = ImportPopupState::DroppedFiles {
        files: vec!["/c/a.mcraw".to_string()],
        folder: "/c".to_string(),
        all_in_folder: vec!["/c/a.mcraw".to_string(), "/c/b.mcraw".to_string()],
    };
    assert!(popup.offers_whole_folder());
    let single = ImportPopupState::DroppedFiles {
        files: vec!["/c/a.mcraw".to_string()],
        folder: "/c".to_string(),
        all_in_folder: vec!["/c/a.mcraw".to_string()],
    };
    assert!(!single.offers_whole_folder());
    assert!(!ImportPopupState::Hidden.offers_whole_folder());
    assert_eq!(import_result_message(3, 0, false), "Imported 3 file(s)");
    assert_eq!(import_result_message(12, 0, true), "Imported all 12 file(s)");
    assert_eq!(import_result_message(2, 1, true), "Imported 2 file(s), 1 failed");
}

#[test]
fn export_focus_moves_and_escape_order() {
    assert_eq!(ExportFocus::ColorSpace.down(), ExportFocus::TransferFunction);
    assert_eq!(ExportFocus::Fps.down(), ExportFocus::ColorSpace);
    assert_eq!(ExportFocus::ColorSpace.up(), ExportFocus::Fps);
    assert_eq!(ExportFocus::RateControl.up(), ExportFocus::Profile);
    assert_eq!(escape_action(true, true, true, true, true), EscapeAction::CloseImportPopup);
    assert_eq!(escape_action(false, true, true, true, true), EscapeAction::CloseFullInfo);
    assert_eq!(escape_action(false, false, true, true, false), EscapeAction::LeaveFavourites);
    assert_eq!(escape_action(false, false, false, true, true), EscapeAction::CloseBrowser);
    assert_eq!(escape_action(false, false, false, false, true), EscapeAction::CloseHelp);
    assert_eq!(escape_action(false, false, false, false, false), EscapeAction::Quit);
}

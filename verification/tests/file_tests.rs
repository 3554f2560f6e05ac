use mcraw_tui::file::{parse_header, resolution_label, BayerPattern, Header, HeaderError};

#[test]
fn test_bayer_pattern_from_u8() {
    assert_eq!(BayerPattern::from_u8(0), BayerPattern::RGGB);
    assert_eq!(BayerPattern::from_u8(1), BayerPattern::GRBG);
    assert_eq!(BayerPattern::from_u8(2), BayerPattern::GBRG);
    assert_eq!(BayerPattern::from_u8(3), BayerPattern::BGGR);
    assert_eq!(BayerPattern::from_u8(4), BayerPattern::QuadBayerRGGB);
    assert_eq!(BayerPattern::from_u8(5), BayerPattern::QuadBayerGRBG);
    assert_eq!(BayerPattern::from_u8(6), BayerPattern::QuadBayerGBRG);
    assert_eq!(BayerPattern::from_u8(7), BayerPattern::QuadBayerBGGR);
    assert_eq!(BayerPattern::from_u8(99), BayerPattern::RGGB);
}

#[test]
fn test_bayer_pattern_to_u8() {
    assert_eq!(BayerPattern::RGGB.to_u8(), 0);
    assert_eq!(BayerPattern::GRBG.to_u8(), 1);
    assert_eq!(BayerPattern::GBRG.to_u8(), 2);
    assert_eq!(BayerPattern::BGGR.to_u8(), 3);
    assert_eq!(BayerPattern::QuadBayerRGGB.to_u8(), 4);
    assert_eq!(BayerPattern::QuadBayerGRBG.to_u8(), 5);
    assert_eq!(BayerPattern::QuadBayerGBRG.to_u8(), 6);
    assert_eq!(BayerPattern::QuadBayerBGGR.to_u8(), 7);
}

#[test]
fn bayer_pattern_id_round_trip() {
    for id in 0u8..8 {
        assert_eq!(BayerPattern::from_u8(id).to_u8(), id);
    }
}

#[test]
fn bayer_pattern_names_and_filters() {
    assert_eq!(BayerPattern::RGGB.name(), "RGGB");
    assert_eq!(BayerPattern::RGGB.to_dcraw_filters(), 0xB4B4B4B4);
    assert_eq!(BayerPattern::BGGR.to_dcraw_filters(), 0x1E1E1E1E);
    assert_eq!(BayerPattern::GRBG.to_dcraw_filters(), 0xE1E1E1E1);
    assert_eq!(BayerPattern::GBRG.to_dcraw_filters(), 0x4B4B4B4B);
    assert_eq!(BayerPattern::QuadBayerGBRG.to_dcraw_filters(), 0xB4B4B4B4);
    // dcraw's FC: red site, both greens, blue site of RGGB
    let fc = |f: u32, r: u32, c: u32| (f >> ((((r << 1) & 14) | (c & 1)) << 1)) & 3;
    let f = BayerPattern::RGGB.to_dcraw_filters();
    assert_eq!((fc(f, 0, 0), fc(f, 0, 1), fc(f, 1, 0), fc(f, 1, 1)), (0, 1, 3, 2));
}

fn legacy(len: usize) -> Vec<u8> {
    let mut data = vec![0u8; len];
    data[0..5].copy_from_slice(b"MCRAW");
    data
}

#[test]
fn test_parse_header_minimal() {
    let mut data = legacy(36);
    data[5..9].copy_from_slice(&2u32.to_be_bytes());
    data[9..13].copy_from_slice(&10u32.to_be_bytes());
    data[13..15].copy_from_slice(&(1920u16).to_be_bytes());
    data[15..17].copy_from_slice(&(1080u16).to_be_bytes());
    data[17..25].copy_from_slice(&(30.0f64).to_be_bytes());
    data[25] = 0;

    let info = match parse_header(&data, "test.mcraw").unwrap() {
        Header::Legacy(h) => h,
        Header::Motion(_) => panic!("expected the legacy header"),
    };
    assert_eq!(info.format_version, 2);
    assert_eq!(info.frame_count, 10);
    assert_eq!(info.width, 1920);
    assert_eq!(info.height, 1080);
    assert!((f64::from_bits(info.fps_bits) - 30.0).abs() < 0.001);
    assert!(!info.has_audio);
    assert_eq!(info.path, "test.mcraw");
    assert_eq!(info.size, 36);
}

#[test]
fn test_parse_header_with_string_metadata() {
    let mut data = legacy(64);
    data[5] = 2;
    data[9..13].copy_from_slice(&1u32.to_be_bytes());
    data[13..15].copy_from_slice(&(1920u16).to_be_bytes());
    data[15..17].copy_from_slice(&(1080u16).to_be_bytes());
    data[17..25].copy_from_slice(&(30.0f64).to_be_bytes());
    data[25] = 0;

    let camera_model = "TestCamera";
    let block_offset = 36;
    let str_len = camera_model.len() as u32;
    let block_len = 1 + 4 + str_len;
    data[block_offset..block_offset + 4].copy_from_slice(&block_len.to_be_bytes());
    data[block_offset + 4] = 0x03;
    data[block_offset + 5..block_offset + 9].copy_from_slice(&str_len.to_be_bytes());
    data[block_offset + 9..block_offset + 9 + camera_model.len()]
        .copy_from_slice(camera_model.as_bytes());

    let info = match parse_header(&data, "test.mcraw").unwrap() {
        Header::Legacy(h) => h,
        Header::Motion(_) => panic!("expected the legacy header"),
    };
    assert_eq!(info.camera_metadata.camera_model, Some("TestCamera".to_string()));
}

#[test]
fn test_parse_header_invalid_magic() {
    let data = vec![b'X'; 36];
    let result = parse_header(&data, "test.mcraw");
    assert!(result.is_err());
}

#[test]
fn test_parse_header_too_small() {
    let data = vec![0u8; 10];
    let result = parse_header(&data, "test.mcraw");
    assert!(result.is_err());
}

#[test]
fn parse_header_errors_name_their_cause() {
    match parse_header(&[0u8; 10], "a.mcraw") {
        Err(HeaderError::TooSmall { path, len }) => {
            assert_eq!(path, "a.mcraw");
            assert_eq!(len, 10);
        }
        other => panic!("unexpected {:?}", other),
    }
    match parse_header(&[0u8; 20], "b.mcraw") {
        Err(HeaderError::TooSmallForLegacy { len, .. }) => assert_eq!(len, 20),
        other => panic!("unexpected {:?}", other),
    }
    match parse_header(&[b'X'; 36], "c.mcraw") {
        Err(HeaderError::InvalidMagic { found, .. }) => assert_eq!(found, b"XXXXX".to_vec()),
        other => panic!("unexpected {:?}", other),
    }
}

#[test]
fn parse_header_motion_frames_json_body() {
    let json = br#"{"a":1}"#;
    let mut data = b"MOTION ".to_vec();
    data.push(3);
    data.extend_from_slice(&[0u8; 4]);
    data.extend_from_slice(&(json.len() as u32).to_le_bytes());
    data.extend_from_slice(json);
    data.extend_from_slice(&[0u8; 8]);
    match parse_header(&data, "m.mcraw") {
        Ok(Header::Motion(m)) => {
            assert_eq!(m.format_version, 3);
            assert_eq!(&data[m.json_start..m.json_end], json);
        }
        other => panic!("unexpected {:?}", other),
    }
}

#[test]
fn test_resolution_label() {
    assert_eq!(resolution_label(1920, 1080), "1080p");
    assert_eq!(resolution_label(2560, 1440), "1440p");
    assert_eq!(resolution_label(3840, 2160), "4K");
    assert_eq!(resolution_label(4096, 2160), "4K DCI");
    assert_eq!(resolution_label(1280, 720), "Custom");
}

#[test]
fn format_names() {
    assert_eq!(mcraw_tui::file::format_name(1), "MotionCam v1 (Legacy)");
    assert_eq!(mcraw_tui::file::format_name(3), "MotionCam v3");
    assert_eq!(mcraw_tui::file::format_name(9), "Unknown format");
}

use mcraw_tui::lj92::compress_lj92;

/// Reads a lossless JPEG produced by `compress_lj92` back into samples.
fn decode(jpeg: &[u8]) -> (usize, usize, Vec<u16>) {
    assert_eq!(&jpeg[0..4], &[0xFF, 0xD8, 0xFF, 0xC3]);
    let height = u16::from_be_bytes([jpeg[7], jpeg[8]]) as usize;
    let width = u16::from_be_bytes([jpeg[9], jpeg[10]]) as usize;
    // DHT
    assert_eq!(&jpeg[15..17], &[0xFF, 0xC4]);
    let bits = &jpeg[20..36];
    let total: usize = bits.iter().map(|&b| b as usize).sum();
    let vals = &jpeg[36..36 + total];
    let mut table: Vec<(u32, u32, u8)> = Vec::new(); // (len, code, symbol)
    let mut code = 0u32;
    let mut k = 0;
    for (i, &n) in bits.iter().enumerate() {
        for _ in 0..n {
            table.push((i as u32 + 1, code, vals[k]));
            code += 1;
            k += 1;
        }
        code <<= 1;
    }
    let sos = 36 + total;
    assert_eq!(&jpeg[sos..sos + 2], &[0xFF, 0xDA]);
    let start = sos + 10;
    let end = jpeg.len() - 2;
    assert_eq!(&jpeg[end..], &[0xFF, 0xD9]);
    // unstuff
    let mut bytes = Vec::new();
    let mut i = start;
    while i < end {
        bytes.push(jpeg[i]);
        if jpeg[i] == 0xFF {
            assert_eq!(jpeg[i + 1], 0x00);
            i += 2;
        } else {
            i += 1;
        }
    }
    let mut pos = 0usize;
    let mut bit = |pos: &mut usize| -> u32 {
        let b = (bytes[*pos / 8] >> (7 - *pos % 8)) & 1;
        *pos += 1;
        b as u32
    };
    // ITU-T T.81 lossless decoding, predictor 1, 16-bit precision: the first
    // sample is predicted by 2^15, the first of each later row by the sample
    // above, the others by the sample to the left; differences add modulo
    // 2^16, and category 16 stands for 32768 with no extra bits.
    let mut out: Vec<u16> = Vec::with_capacity(width * height);
    for y in 0..height {
        for x in 0..width {
            let pred: u32 = if x > 0 {
                out[y * width + x - 1] as u32
            } else if y > 0 {
                out[(y - 1) * width] as u32
            } else {
                32768
            };
            let (mut len, mut c) = (0u32, 0u32);
            let sym = loop {
                c = (c << 1) | bit(&mut pos);
                len += 1;
                if let Some(&(_, _, s)) = table.iter().find(|&&(l, cc, _)| l == len && cc == c) {
                    break s as u32;
                }
                assert!(len <= 16, "no code matched");
            };
            let diff: i64 = if sym == 16 {
                32768
            } else {
                let mut extra = 0u32;
                for _ in 0..sym {
                    extra = (extra << 1) | bit(&mut pos);
                }
                if sym == 0 {
                    0
                } else if extra >> (sym - 1) == 1 {
                    extra as i64
                } else {
                    extra as i64 - (1i64 << sym) + 1
                }
            };
            out.push(((pred as i64 + diff).rem_euclid(65536)) as u16);
        }
    }
    (width, height, out)
}

#[test]
fn lj92_round_trips_samples() {
    let width = 7;
    let height = 5;
    let mut bayer = Vec::new();
    let mut seed: u32 = 12345;
    for _ in 0..width * height {
        seed = seed.wrapping_mul(1103515245).wrapping_add(12345);
        bayer.push((seed >> 8) as u16);
    }
    // include the extremes
    bayer[0] = 0;
    bayer[1] = 65535;
    bayer[2] = 0;
    let jpeg = compress_lj92(&bayer, width, height);
    let (w, h, samples) = decode(&jpeg);
    assert_eq!((w, h), (width, height));
    assert_eq!(samples, bayer);
}

#[test]
fn lj92_header_and_empty_scan() {
    let jpeg = compress_lj92(&[], 0, 0);
    let expected: Vec<u8> = vec![
        0xFF, 0xD8, 0xFF, 0xC3, 0x00, 0x0B, 0x10, 0x00, 0x00, 0x00, 0x00, 0x01, 0x01, 0x11, 0x00,
        0xFF, 0xC4, 0x00, 36, 0x00, 0, 1, 5, 1, 1, 1, 1, 1, 1, 1, 1, 1, 1, 1, 0, 0, 0, 1, 2, 3, 4,
        5, 6, 7, 8, 9, 10, 11, 12, 13, 14, 15, 16, 0xFF, 0xDA, 0x00, 0x08, 0x01, 0x01, 0x00, 0x01,
        0x00, 0x00, 0xFF, 0xD9,
    ];
    assert_eq!(jpeg, expected);
}

#[test]
fn lj92_codes_small_differences() {
    // samples 32768, 32769: difference 0 from the first prediction 2^15
    // (code 00), then 1 (code 010, extra bit 1)
    let jpeg = compress_lj92(&[32768, 32769], 2, 1);
    let n = jpeg.len();
    // entropy data: 00 010 1 + zero padding = 0b0001_0100
    assert_eq!(jpeg[n - 3], 0b0001_0100);
    assert_eq!(&jpeg[n - 2..], &[0xFF, 0xD9]);
}

#[test]
fn lj92_stuffs_ff_bytes() {
    // 65535 is 32767 above the first prediction: category 15 (13-bit code
    // 1111111111110) followed by fifteen one bits, so 0xFF bytes come out
    let jpeg = compress_lj92(&[65535, 0], 2, 1);
    let (_, _, samples) = decode(&jpeg);
    assert_eq!(samples, vec![65535, 0]);
    let body = &jpeg[36 + 17 + 10..jpeg.len() - 2];
    assert!(body.windows(2).any(|w| w == [0xFF, 0x00]));
}

#[test]
fn lj92_first_sample_is_predicted_from_half_range() {
    // a single zero differs from 2^15 by -32768, coded as category 16 alone
    let jpeg = compress_lj92(&[0], 1, 1);
    let (_, _, samples) = decode(&jpeg);
    assert_eq!(samples, vec![0]);
    // 14-bit code 11111111111110, padded with zeros: 0xFF (stuffed) 0xF8
    let n = jpeg.len();
    assert_eq!(&jpeg[n - 5..n - 2], &[0xFF, 0x00, 0xF8]);
}

#[test]
fn lj92_rows_start_from_the_sample_above() {
    let bayer = vec![100u16, 200, 300, 101, 65535, 0];
    let jpeg = compress_lj92(&bayer, 3, 2);
    let (_, _, samples) = decode(&jpeg);
    assert_eq!(samples, bayer);
}

//! The MCRAW container header: Bayer patterns, the legacy binary header
//! with its tag-length-value metadata block, and the framing of the newer
//! `MOTION ` header whose JSON body is decoded by the caller.

use vstd::prelude::*;
use vstd::utf8::{decode_utf8, valid_utf8};
use crate::text::owned;

verus! {

broadcast use vstd::string::group_string_axioms;

/// Bayer filter pattern IDs as defined in the MCRAW format.
#[derive(Debug, Clone, Copy, PartialEq, Eq, Structural)]
pub enum BayerPattern {
    RGGB,
    GRBG,
    GBRG,
    BGGR,
    QuadBayerRGGB,
    QuadBayerGRBG,
    QuadBayerGBRG,
    QuadBayerBGGR,
}

impl BayerPattern {
    /// The pattern's ID in the file format.
    pub open spec fn spec_id(self) -> u8 {
        match self {
            BayerPattern::RGGB => 0,
            BayerPattern::GRBG => 1,
            BayerPattern::GBRG => 2,
            BayerPattern::BGGR => 3,
            BayerPattern::QuadBayerRGGB => 4,
            BayerPattern::QuadBayerGRBG => 5,
            BayerPattern::QuadBayerGBRG => 6,
            BayerPattern::QuadBayerBGGR => 7,
        }
    }

    /// The pattern with ID `value`; unknown IDs read as RGGB.
    pub open spec fn spec_from_id(value: u8) -> BayerPattern {
        if value == 1 {
            BayerPattern::GRBG
        } else if value == 2 {
            BayerPattern::GBRG
        } else if value == 3 {
            BayerPattern::BGGR
        } else if value == 4 {
            BayerPattern::QuadBayerRGGB
        } else if value == 5 {
            BayerPattern::QuadBayerGRBG
        } else if value == 6 {
            BayerPattern::QuadBayerGBRG
        } else if value == 7 {
            BayerPattern::QuadBayerBGGR
        } else {
            BayerPattern::RGGB
        }
    }

    pub fn from_u8(value: u8) -> (r: Self)
        ensures
            r == Self::spec_from_id(value),
    {
        match value {
            0 => BayerPattern::RGGB,
            1 => BayerPattern::GRBG,
            2 => BayerPattern::GBRG,
            3 => BayerPattern::BGGR,
            4 => BayerPattern::QuadBayerRGGB,
            5 => BayerPattern::QuadBayerGRBG,
            6 => BayerPattern::QuadBayerGBRG,
            7 => BayerPattern::QuadBayerBGGR,
            _ => BayerPattern::RGGB,
        }
    }

    pub fn to_u8(&self) -> (r: u8)
        ensures
            r == self.spec_id(),
    {
        match self {
            BayerPattern::RGGB => 0,
            BayerPattern::GRBG => 1,
            BayerPattern::GBRG => 2,
            BayerPattern::BGGR => 3,
            BayerPattern::QuadBayerRGGB => 4,
            BayerPattern::QuadBayerGRBG => 5,
            BayerPattern::QuadBayerGBRG => 6,
            BayerPattern::QuadBayerBGGR => 7,
        }
    }

    pub open spec fn spec_name(self) -> Seq<char> {
        match self {
            BayerPattern::RGGB => "RGGB"@,
            BayerPattern::GRBG => "GRBG"@,
            BayerPattern::GBRG => "GBRG"@,
            BayerPattern::BGGR => "BGGR"@,
            BayerPattern::QuadBayerRGGB => "QuadBayer RGGB"@,
            BayerPattern::QuadBayerGRBG => "QuadBayer GRBG"@,
            BayerPattern::QuadBayerGBRG => "QuadBayer GBRG"@,
            BayerPattern::QuadBayerBGGR => "QuadBayer BGGR"@,
        }
    }

    pub fn name(&self) -> (r: &'static str)
        ensures
            r@ == self.spec_name(),
    {
        match self {
            BayerPattern::RGGB => "RGGB",
            BayerPattern::GRBG => "GRBG",
            BayerPattern::GBRG => "GBRG",
            BayerPattern::BGGR => "BGGR",
            BayerPattern::QuadBayerRGGB => "QuadBayer RGGB",
            BayerPattern::QuadBayerGRBG => "QuadBayer GRBG",
            BayerPattern::QuadBayerGBRG => "QuadBayer GBRG",
            BayerPattern::QuadBayerBGGR => "QuadBayer BGGR",
        }
    }

    /// Dcraw-style `filters` bitfield (R=0, G1=1, G2=3, B=2) used by the
    /// demosaic shader: G1 is the green on the red row, G2 the green on the
    /// blue row; QuadBayer patterns fall back to RGGB.
    pub open spec fn spec_dcraw_filters(self) -> u32 {
        match self {
            BayerPattern::RGGB => 0xB4B4B4B4,
            BayerPattern::BGGR => 0x1E1E1E1E,
            BayerPattern::GRBG => 0xE1E1E1E1,
            BayerPattern::GBRG => 0x4B4B4B4B,
            _ => 0xB4B4B4B4,
        }
    }

    /// The colour code at `row`, `col` of the 2x2 cell of the pattern
    /// (QuadBayer patterns read as RGGB): R=0, G1=1, G2=3, B=2.
    pub open spec fn site_code(self, row: u32, col: u32) -> u32 {
        let top = row & 1 == 0;
        let left = col & 1 == 0;
        match self {
            BayerPattern::BGGR => if top {
                if left { 2 } else { 3 }
            } else {
                if left { 1 } else { 0 }
            },
            BayerPattern::GRBG => if top {
                if left { 1 } else { 0 }
            } else {
                if left { 2 } else { 3 }
            },
            BayerPattern::GBRG => if top {
                if left { 3 } else { 2 }
            } else {
                if left { 0 } else { 1 }
            },
            _ => if top {
                if left { 0 } else { 1 }
            } else {
                if left { 3 } else { 2 }
            },
        }
    }

    pub fn to_dcraw_filters(&self) -> (r: u32)
        ensures
            r == self.spec_dcraw_filters(),
            forall|row: u32, col: u32| #[trigger] dcraw_fc(r, row, col) == self.site_code(row, col),
    {
        let r: u32 = match self {
            BayerPattern::RGGB => 0xB4B4B4B4,
            BayerPattern::BGGR => 0x1E1E1E1E,
            BayerPattern::GRBG => 0xE1E1E1E1,
            BayerPattern::GBRG => 0x4B4B4B4B,
            _ => 0xB4B4B4B4,
        };
        proof {
            assert forall|row: u32, col: u32| #[trigger] dcraw_fc(r, row, col) == self.site_code(row, col) by {
                let f = r;
                if f == 0xB4B4B4B4 {
                    assert(((f >> ((((row << 1) & 14) | (col & 1)) << 1)) & 3) == (if row & 1 == 0 {
                        if col & 1 == 0 { 0u32 } else { 1u32 }
                    } else {
                        if col & 1 == 0 { 3u32 } else { 2u32 }
                    })) by (bit_vector)
                        requires f == 0xB4B4B4B4u32;
                } else if f == 0x1E1E1E1E {
                    assert(((f >> ((((row << 1) & 14) | (col & 1)) << 1)) & 3) == (if row & 1 == 0 {
                        if col & 1 == 0 { 2u32 } else { 3u32 }
                    } else {
                        if col & 1 == 0 { 1u32 } else { 0u32 }
                    })) by (bit_vector)
                        requires f == 0x1E1E1E1Eu32;
                } else if f == 0xE1E1E1E1 {
                    assert(((f >> ((((row << 1) & 14) | (col & 1)) << 1)) & 3) == (if row & 1 == 0 {
                        if col & 1 == 0 { 1u32 } else { 0u32 }
                    } else {
                        if col & 1 == 0 { 2u32 } else { 3u32 }
                    })) by (bit_vector)
                        requires f == 0xE1E1E1E1u32;
                } else {
                    assert(((f >> ((((row << 1) & 14) | (col & 1)) << 1)) & 3) == (if row & 1 == 0 {
                        if col & 1 == 0 { 3u32 } else { 2u32 }
                    } else {
                        if col & 1 == 0 { 0u32 } else { 1u32 }
                    })) by (bit_vector)
                        requires f == 0x4B4B4B4Bu32;
                }
            }
        }
        r
    }
}

/// The colour code dcraw's `FC(row, col)` reads from a `filters` word.
pub open spec fn dcraw_fc(filters: u32, row: u32, col: u32) -> u32 {
    (filters >> ((((row << 1) & 14) | (col & 1)) << 1)) & 3
}

/// Reading back the ID of a pattern gives the pattern; every ID below 8
/// names a distinct pattern.
pub proof fn lemma_bayer_id_roundtrip(p: BayerPattern, v: u8)
    ensures
        BayerPattern::spec_from_id(p.spec_id()) == p,
        v < 8 ==> BayerPattern::spec_from_id(v).spec_id() == v,
        v >= 8 ==> BayerPattern::spec_from_id(v) == BayerPattern::RGGB,
{
}

// ---------------------------------------------------------------------------
// Byte readers
// ---------------------------------------------------------------------------

pub open spec fn be_u16(d: Seq<u8>, i: int) -> u16 {
    (d[i] as int * 256 + d[i + 1] as int) as u16
}

pub open spec fn be_u32(d: Seq<u8>, i: int) -> u32 {
    (d[i] as int * 0x1000000 + d[i + 1] as int * 0x10000 + d[i + 2] as int * 0x100
        + d[i + 3] as int) as u32
}

pub open spec fn le_u32(d: Seq<u8>, i: int) -> u32 {
    (d[i + 3] as int * 0x1000000 + d[i + 2] as int * 0x10000 + d[i + 1] as int * 0x100
        + d[i] as int) as u32
}

pub open spec fn be_u64(d: Seq<u8>, i: int) -> u64 {
    (be_u32(d, i) as int * 0x100000000 + be_u32(d, i + 4) as int) as u64
}

fn get_be_u16(d: &[u8], i: usize) -> (r: u16)
    requires
        i + 2 <= d@.len(),
    ensures
        r == be_u16(d@, i as int),
{
    (d[i] as u16) * 256 + (d[i + 1] as u16)
}

fn get_be_u32(d: &[u8], i: usize) -> (r: u32)
    requires
        i + 4 <= d@.len(),
    ensures
        r == be_u32(d@, i as int),
{
    (d[i] as u32) * 0x1000000 + (d[i + 1] as u32) * 0x10000 + (d[i + 2] as u32) * 0x100
        + (d[i + 3] as u32)
}

pub(crate) fn get_le_u32(d: &[u8], i: usize) -> (r: u32)
    requires
        i + 4 <= d@.len(),
    ensures
        r == le_u32(d@, i as int),
{
    let _n = d.len();
    (d[i + 3] as u32) * 0x1000000 + (d[i + 2] as u32) * 0x10000 + (d[i + 1] as u32) * 0x100
        + (d[i] as u32)
}

fn get_be_u64(d: &[u8], i: usize) -> (r: u64)
    requires
        i + 8 <= d@.len(),
    ensures
        r == be_u64(d@, i as int),
{
    let _n = d.len();
    let hi = get_be_u32(d, i) as u64;
    let lo = get_be_u32(d, i + 4) as u64;
    hi * 0x100000000 + lo
}

/// Read a big-endian u32 from a byte slice at the given offset.
pub fn read_u32_be(data: &[u8], offset: usize) -> (r: u32)
    requires
        offset + 4 <= data@.len(),
    ensures
        r == be_u32(data@, offset as int),
{
    get_be_u32(data, offset)
}

/// A big-endian u32 at `offset`, and the offset after it; nothing when
/// fewer than four bytes remain.
pub open spec fn spec_parse_u32(d: Seq<u8>, o: int) -> (int, Option<u32>) {
    if o + 4 > d.len() {
        (o, None)
    } else {
        (o + 4, Some(be_u32(d, o)))
    }
}

/// A big-endian 8-byte float at `offset`, kept as its bit pattern, and
/// the offset after it.
pub open spec fn spec_parse_f64_bits(d: Seq<u8>, o: int) -> (int, Option<u64>) {
    if o + 8 > d.len() {
        (o, None)
    } else {
        (o + 8, Some(be_u64(d, o)))
    }
}

/// A length-prefixed UTF-8 string at `offset`. The offset moves past the
/// length field as soon as it is read, and past the bytes only when they
/// are in range and valid UTF-8.
pub open spec fn spec_parse_string(d: Seq<u8>, o: int) -> (int, Option<Seq<char>>) {
    if o + 4 > d.len() {
        (o, None)
    } else {
        let n = be_u32(d, o) as int;
        let start = o + 4;
        if start + n > d.len() {
            (start, None)
        } else if valid_utf8(d.subrange(start, start + n)) {
            (start + n, Some(decode_utf8(d.subrange(start, start + n))))
        } else {
            (start, None)
        }
    }
}

/// Errors from the field readers of the metadata block.
#[derive(Debug, Clone, Copy, PartialEq, Eq, Structural)]
pub enum FieldError {
    UnexpectedEnd,
    StringBeyondData,
    InvalidUtf8,
}

pub fn parse_u32_be(data: &[u8], offset: &mut usize) -> (r: Result<u32, FieldError>)
    requires
        *old(offset) <= data@.len(),
    ensures
        *final(offset) == spec_parse_u32(data@, *old(offset) as int).0,
        r.is_ok() == spec_parse_u32(data@, *old(offset) as int).1.is_some(),
        r matches Ok(v) ==> spec_parse_u32(data@, *old(offset) as int).1 == Some(v),
        r matches Err(e) ==> e == FieldError::UnexpectedEnd,
{
    if data.len() - *offset < 4 {
        return Err(FieldError::UnexpectedEnd);
    }
    let val = get_be_u32(data, *offset);
    *offset = *offset + 4;
    Ok(val)
}

/// Reads a big-endian 8-byte float field as its IEEE-754 bit pattern.
pub fn parse_f64(data: &[u8], offset: &mut usize) -> (r: Result<u64, FieldError>)
    requires
        *old(offset) <= data@.len(),
    ensures
        *final(offset) == spec_parse_f64_bits(data@, *old(offset) as int).0,
        r.is_ok() == spec_parse_f64_bits(data@, *old(offset) as int).1.is_some(),
        r matches Ok(v) ==> spec_parse_f64_bits(data@, *old(offset) as int).1 == Some(v),
        r matches Err(e) ==> e == FieldError::UnexpectedEnd,
{
    if data.len() - *offset < 8 {
        return Err(FieldError::UnexpectedEnd);
    }
    let val = get_be_u64(data, *offset);
    *offset = *offset + 8;
    Ok(val)
}

/// `std::str::from_utf8`, copied into an owned string: `Some` exactly when
/// the bytes are valid UTF-8, holding the characters they encode.
#[verifier::external_body]
fn utf8_to_string(bytes: &[u8]) -> (r: Option<String>)
    ensures
        r is Some <==> valid_utf8(bytes@),
        r matches Some(s) ==> s@ == decode_utf8(bytes@),
{
    match std::str::from_utf8(bytes) {
        Ok(s) => Some(s.to_string()),
        Err(_) => None,
    }
}

pub fn parse_string(data: &[u8], offset: &mut usize) -> (r: Result<String, FieldError>)
    requires
        *old(offset) <= data@.len(),
    ensures
        *final(offset) == spec_parse_string(data@, *old(offset) as int).0,
        r.is_ok() == spec_parse_string(data@, *old(offset) as int).1.is_some(),
        r matches Ok(s) ==> spec_parse_string(data@, *old(offset) as int).1 == Some(s@),
        r matches Err(e) ==> (e == FieldError::UnexpectedEnd <==> *old(offset) + 4 > data@.len()),
{
    if data.len() - *offset < 4 {
        return Err(FieldError::UnexpectedEnd);
    }
    let str_len = get_be_u32(data, *offset) as usize;
    *offset = *offset + 4;
    if str_len > data.len() - *offset {
        return Err(FieldError::StringBeyondData);
    }
    let start = *offset;
    let bytes = &data[start..start + str_len];
    match utf8_to_string(bytes) {
        Some(s) => {
            *offset = start + str_len;
            Ok(s)
        },
        None => Err(FieldError::InvalidUtf8),
    }
}

// ---------------------------------------------------------------------------
// The legacy header's metadata block
// ---------------------------------------------------------------------------

/// Camera metadata read from the legacy header's metadata block. Floating
/// point fields hold the IEEE-754 bit pattern found in the file.
#[derive(Debug, Clone)]
pub struct CameraMetadata {
    pub sensor_make: Option<String>,
    pub sensor_model: Option<String>,
    pub camera_model: Option<String>,
    pub lens_model: Option<String>,
    pub focal_length_bits: Option<u64>,
    pub aperture_bits: Option<u64>,
    pub iso: Option<u32>,
    pub exposure_time_bits: Option<u64>,
    pub white_balance_bits: Option<u64>,
    pub capture_date: Option<String>,
}

impl Default for CameraMetadata {
    /// No field known.
    fn default() -> (r: Self)
        ensures
            r.sensor_make is None && r.sensor_model is None && r.camera_model is None
                && r.lens_model is None && r.focal_length_bits is None && r.aperture_bits is None
                && r.iso is None && r.exposure_time_bits is None && r.white_balance_bits is None
                && r.capture_date is None,
    {
        CameraMetadata {
            sensor_make: None,
            sensor_model: None,
            camera_model: None,
            lens_model: None,
            focal_length_bits: None,
            aperture_bits: None,
            iso: None,
            exposure_time_bits: None,
            white_balance_bits: None,
            capture_date: None,
        }
    }
}

/// Everything the metadata block can set, as plain values.
pub struct BlockFields {
    pub sensor_make: Option<Seq<char>>,
    pub sensor_model: Option<Seq<char>>,
    pub camera_model: Option<Seq<char>>,
    pub lens_model: Option<Seq<char>>,
    pub focal_length_bits: Option<u64>,
    pub aperture_bits: Option<u64>,
    pub iso: Option<u32>,
    pub exposure_time_bits: Option<u64>,
    pub white_balance_bits: Option<u64>,
    pub capture_date: Option<Seq<char>>,
    pub frame_offsets: Seq<u64>,
    pub audio_offset: Option<u64>,
    pub audio_length: Option<u64>,
    pub sensor_width: u16,
    pub sensor_height: u16,
    pub active_offset_x: u16,
    pub active_offset_y: u16,
    pub active_width: u16,
    pub active_height: u16,
}

pub open spec fn opt_view(s: Option<String>) -> Option<Seq<char>> {
    match s {
        Some(v) => Some(v@),
        None => None,
    }
}

/// The fields before the block is read: nothing set, dimensions zero.
pub open spec fn empty_fields() -> BlockFields {
    BlockFields {
        sensor_make: None,
        sensor_model: None,
        camera_model: None,
        lens_model: None,
        focal_length_bits: None,
        aperture_bits: None,
        iso: None,
        exposure_time_bits: None,
        white_balance_bits: None,
        capture_date: None,
        frame_offsets: seq![],
        audio_offset: None,
        audio_length: None,
        sensor_width: 0,
        sensor_height: 0,
        active_offset_x: 0,
        active_offset_y: 0,
        active_width: 0,
        active_height: 0,
    }
}

/// Up to `n` big-endian 8-byte values from `o`, stopping at the end of the
/// data, and the offset after the last one read.
pub open spec fn spec_read_u64s(d: Seq<u8>, o: int, n: nat) -> (int, Seq<u64>)
    decreases n,
{
    if n == 0 || o + 8 > d.len() {
        (o, seq![])
    } else {
        let rest = spec_read_u64s(d, o + 8, (n - 1) as nat);
        (rest.0, seq![be_u64(d, o)] + rest.1)
    }
}

/// A big-endian u16 at `o` when two bytes remain, and the offset after it.
pub open spec fn spec_u16_field(d: Seq<u8>, o: int, cur: u16) -> (int, u16) {
    if o + 2 <= d.len() {
        (o + 2, be_u16(d, o))
    } else {
        (o, cur)
    }
}

/// One entry of the metadata block: the tag byte at `o`, then its value.
/// Unknown tags skip one further byte.
pub open spec fn spec_block_step(d: Seq<u8>, has_audio: bool, o: int, f: BlockFields) -> (int, BlockFields) {
    let tag = d[o];
    let o1 = o + 1;
    if tag == 0x01 {
        let (o2, v) = spec_parse_string(d, o1);
        (o2, if v is Some { BlockFields { sensor_make: v, ..f } } else { f })
    } else if tag == 0x02 {
        let (o2, v) = spec_parse_string(d, o1);
        (o2, if v is Some { BlockFields { sensor_model: v, ..f } } else { f })
    } else if tag == 0x03 {
        let (o2, v) = spec_parse_string(d, o1);
        (o2, if v is Some { BlockFields { camera_model: v, ..f } } else { f })
    } else if tag == 0x04 {
        let (o2, v) = spec_parse_string(d, o1);
        (o2, if v is Some { BlockFields { lens_model: v, ..f } } else { f })
    } else if tag == 0x05 {
        let (o2, v) = spec_parse_f64_bits(d, o1);
        (o2, if v is Some { BlockFields { focal_length_bits: v, ..f } } else { f })
    } else if tag == 0x06 {
        let (o2, v) = spec_parse_f64_bits(d, o1);
        (o2, if v is Some { BlockFields { aperture_bits: v, ..f } } else { f })
    } else if tag == 0x07 {
        let (o2, v) = spec_parse_u32(d, o1);
        (o2, if v is Some { BlockFields { iso: v, ..f } } else { f })
    } else if tag == 0x08 {
        let (o2, v) = spec_parse_f64_bits(d, o1);
        (o2, if v is Some { BlockFields { exposure_time_bits: v, ..f } } else { f })
    } else if tag == 0x09 {
        let (o2, v) = spec_parse_f64_bits(d, o1);
        (o2, if v is Some { BlockFields { white_balance_bits: v, ..f } } else { f })
    } else if tag == 0x0A {
        let (o2, v) = spec_parse_string(d, o1);
        (o2, if v is Some { BlockFields { capture_date: v, ..f } } else { f })
    } else if tag == 0x0B {
        (spec_read_u64s(d, o1, 9).0, f)
    } else if tag == 0x0C {
        (spec_parse_string(d, o1).0, f)
    } else if tag == 0x10 {
        let (o2, n) = spec_parse_u32(d, o1);
        match n {
            Some(n) => {
                let (o3, offs) = spec_read_u64s(d, o2, n as nat);
                (o3, BlockFields { frame_offsets: offs, ..f })
            },
            None => (o2, f),
        }
    } else if tag == 0x11 {
        if has_audio && o1 + 8 <= d.len() {
            (o1 + 8, BlockFields { audio_offset: Some(be_u64(d, o1)), ..f })
        } else {
            (o1, f)
        }
    } else if tag == 0x12 {
        if has_audio && o1 + 8 <= d.len() {
            (o1 + 8, BlockFields { audio_length: Some(be_u64(d, o1)), ..f })
        } else {
            (o1, f)
        }
    } else if tag == 0x13 {
        let (o2, v) = spec_u16_field(d, o1, f.sensor_width);
        (o2, BlockFields { sensor_width: v, ..f })
    } else if tag == 0x14 {
        let (o2, v) = spec_u16_field(d, o1, f.sensor_height);
        (o2, BlockFields { sensor_height: v, ..f })
    } else if tag == 0x15 {
        let (o2, v) = spec_u16_field(d, o1, f.active_offset_x);
        (o2, BlockFields { active_offset_x: v, ..f })
    } else if tag == 0x16 {
        let (o2, v) = spec_u16_field(d, o1, f.active_offset_y);
        (o2, BlockFields { active_offset_y: v, ..f })
    } else if tag == 0x17 {
        let (o2, v) = spec_u16_field(d, o1, f.active_width);
        (o2, BlockFields { active_width: v, ..f })
    } else if tag == 0x18 {
        let (o2, v) = spec_u16_field(d, o1, f.active_height);
        (o2, BlockFields { active_height: v, ..f })
    } else {
        (o1 + 1, f)
    }
}

/// Each geometry tag of the metadata block sets its own field to the
/// big-endian 16-bit value that follows it (high byte first) and leaves
/// every other field as it was: 0x13 the sensor width, 0x14 the sensor
/// height, 0x15 and 0x16 the active area's x and y offsets, 0x17 and 0x18
/// its width and height. The entry takes three bytes.
pub proof fn lemma_geometry_tags(d: Seq<u8>, has_audio: bool, o: int, f: BlockFields)
    requires
        0 <= o,
        o + 3 <= d.len(),
    ensures
        ({
            let v = (d[o + 1] as int * 256 + d[o + 2] as int) as u16;
            let s = spec_block_step(d, has_audio, o, f);
            &&& 0x13 <= d[o] <= 0x18 ==> s.0 == o + 3
            &&& d[o] == 0x13 ==> s.1 == BlockFields { sensor_width: v, ..f }
            &&& d[o] == 0x14 ==> s.1 == BlockFields { sensor_height: v, ..f }
            &&& d[o] == 0x15 ==> s.1 == BlockFields { active_offset_x: v, ..f }
            &&& d[o] == 0x16 ==> s.1 == BlockFields { active_offset_y: v, ..f }
            &&& d[o] == 0x17 ==> s.1 == BlockFields { active_width: v, ..f }
            &&& d[o] == 0x18 ==> s.1 == BlockFields { active_height: v, ..f }
        }),
{
}

/// Every step moves forward.
pub proof fn lemma_block_step_advances(d: Seq<u8>, has_audio: bool, o: int, f: BlockFields)
    requires
        0 <= o < d.len(),
    ensures
        spec_block_step(d, has_audio, o, f).0 > o,
        spec_block_step(d, has_audio, o, f).0 <= d.len() + 1,
{
    lemma_read_offsets_bounds(d, o + 1, 9);
    let (o2, n) = spec_parse_u32(d, o + 1);
    if n is Some {
        lemma_read_offsets_bounds(d, o2, n->0 as nat);
    }
}

pub proof fn lemma_read_offsets_bounds(d: Seq<u8>, o: int, n: nat)
    requires
        o <= d.len(),
    ensures
        o <= spec_read_u64s(d, o, n).0 <= d.len(),
    decreases n,
{
    if n > 0 && o + 8 <= d.len() {
        lemma_read_offsets_bounds(d, o + 8, (n - 1) as nat);
    }
}

/// The metadata block read from offset `o` while `o` is before both the
/// block end and the end of the data.
pub open spec fn spec_parse_block(d: Seq<u8>, has_audio: bool, o: int, end: int, f: BlockFields) -> BlockFields
    decreases d.len() + 1 - o,
{
    if 0 <= o && o < end && o < d.len() {
        proof {
            lemma_block_step_advances(d, has_audio, o, f);
        }
        let (o2, f2) = spec_block_step(d, has_audio, o, f);
        spec_parse_block(d, has_audio, o2, end, f2)
    } else {
        f
    }
}

/// Reads up to `n` big-endian 8-byte values, stopping at the end of data.
fn read_be_u64s(data: &[u8], offset: &mut usize, n: u64) -> (r: Vec<u64>)
    requires
        *old(offset) <= data@.len(),
    ensures
        *final(offset) == spec_read_u64s(data@, *old(offset) as int, n as nat).0,
        r@ == spec_read_u64s(data@, *old(offset) as int, n as nat).1,
{
    let ghost o0 = *offset as int;
    let mut r: Vec<u64> = Vec::new();
    let mut i: u64 = 0;
    while i < n
        invariant_except_break
            i <= n,
        invariant
            *offset <= data@.len(),
            spec_read_u64s(data@, o0, n as nat) == (
                spec_read_u64s(data@, *offset as int, (n - i) as nat).0,
                r@ + spec_read_u64s(data@, *offset as int, (n - i) as nat).1,
            ),
        ensures
            spec_read_u64s(data@, o0, n as nat) == (*offset as int, r@),
        decreases n - i,
    {
        if data.len() - *offset >= 8 {
            let v = get_be_u64(data, *offset);
            proof {
                let rest = spec_read_u64s(data@, *offset + 8, (n - i - 1) as nat);
                assert(r@ + (seq![v] + rest.1) =~= r@.push(v) + rest.1);
            }
            r.push(v);
            *offset = *offset + 8;
            i = i + 1;
        } else {
            proof {
                assert(r@ + seq![] =~= r@);
            }
            break;
        }
    }
    proof {
        if i == n {
            assert(r@ + seq![] =~= r@);
        }
    }
    r
}

/// Reads up to `len` big-endian 8-byte floats as bit patterns, stopping at
/// the end of the data.
pub fn parse_f64_array(data: &[u8], offset: &mut usize, len: usize) -> (r: Vec<u64>)
    requires
        *old(offset) <= data@.len(),
    ensures
        *final(offset) == spec_read_u64s(data@, *old(offset) as int, len as nat).0,
        r@ == spec_read_u64s(data@, *old(offset) as int, len as nat).1,
{
    read_be_u64s(data, offset, len as u64)
}

/// The mutable state of the metadata-block reader.
struct BlockState {
    metadata: CameraMetadata,
    frame_offsets: Vec<u64>,
    audio_offset: Option<u64>,
    audio_length: Option<u64>,
    sensor_width: u16,
    sensor_height: u16,
    active_offset_x: u16,
    active_offset_y: u16,
    active_width: u16,
    active_height: u16,
}

/// The block fields held by camera metadata and the remaining header fields.
pub open spec fn fields_of(
    m: CameraMetadata,
    frame_offsets: Seq<u64>,
    audio_offset: Option<u64>,
    audio_length: Option<u64>,
    sensor_width: u16,
    sensor_height: u16,
    active_offset_x: u16,
    active_offset_y: u16,
    active_width: u16,
    active_height: u16,
) -> BlockFields {
    BlockFields {
        sensor_make: opt_view(m.sensor_make),
        sensor_model: opt_view(m.sensor_model),
        camera_model: opt_view(m.camera_model),
        lens_model: opt_view(m.lens_model),
        focal_length_bits: m.focal_length_bits,
        aperture_bits: m.aperture_bits,
        iso: m.iso,
        exposure_time_bits: m.exposure_time_bits,
        white_balance_bits: m.white_balance_bits,
        capture_date: opt_view(m.capture_date),
        frame_offsets,
        audio_offset,
        audio_length,
        sensor_width,
        sensor_height,
        active_offset_x,
        active_offset_y,
        active_width,
        active_height,
    }
}

impl BlockState {
    spec fn view(&self) -> BlockFields {
        fields_of(self.metadata, self.frame_offsets@, self.audio_offset, self.audio_length,
            self.sensor_width, self.sensor_height, self.active_offset_x, self.active_offset_y,
            self.active_width, self.active_height)
    }
}

fn read_u16_field(data: &[u8], offset: &mut usize, cur: u16) -> (r: u16)
    requires
        *old(offset) <= data@.len(),
    ensures
        (*final(offset) as int, r) == spec_u16_field(data@, *old(offset) as int, cur),
{
    if data.len() - *offset >= 2 {
        let v = get_be_u16(data, *offset);
        *offset = *offset + 2;
        v
    } else {
        cur
    }
}

/// Reads one tag and its value at `offset`.
fn read_block_entry(data: &[u8], has_audio: bool, offset: &mut usize, st: &mut BlockState)
    requires
        *old(offset) < data@.len(),
        data@.len() < usize::MAX,
    ensures
        (*final(offset) as int, final(st).view()) == spec_block_step(data@, has_audio, *old(offset) as int, old(st).view()),
{
    let tag = data[*offset];
    *offset = *offset + 1;
    if tag == 0x01 {
        if let Ok(s) = parse_string(data, offset) {
            st.metadata.sensor_make = Some(s);
        }
    } else if tag == 0x02 {
        if let Ok(s) = parse_string(data, offset) {
            st.metadata.sensor_model = Some(s);
        }
    } else if tag == 0x03 {
        if let Ok(s) = parse_string(data, offset) {
            st.metadata.camera_model = Some(s);
        }
    } else if tag == 0x04 {
        if let Ok(s) = parse_string(data, offset) {
            st.metadata.lens_model = Some(s);
        }
    } else if tag == 0x05 {
        if let Ok(v) = parse_f64(data, offset) {
            st.metadata.focal_length_bits = Some(v);
        }
    } else if tag == 0x06 {
        if let Ok(v) = parse_f64(data, offset) {
            st.metadata.aperture_bits = Some(v);
        }
    } else if tag == 0x07 {
        if let Ok(v) = parse_u32_be(data, offset) {
            st.metadata.iso = Some(v);
        }
    } else if tag == 0x08 {
        if let Ok(v) = parse_f64(data, offset) {
            st.metadata.exposure_time_bits = Some(v);
        }
    } else if tag == 0x09 {
        if let Ok(v) = parse_f64(data, offset) {
            st.metadata.white_balance_bits = Some(v);
        }
    } else if tag == 0x0A {
        if let Ok(s) = parse_string(data, offset) {
            st.metadata.capture_date = Some(s);
        }
    } else if tag == 0x0B {
        // The colour matrix is read past but not kept.
        let _matrix = parse_f64_array(data, offset, 9);
    } else if tag == 0x0C {
        // The calibration illuminant name is read past but not kept.
        let _illuminant = parse_string(data, offset);
    } else if tag == 0x10 {
        if let Ok(n) = parse_u32_be(data, offset) {
            st.frame_offsets = read_be_u64s(data, offset, n as u64);
        }
    } else if tag == 0x11 {
        if has_audio && data.len() - *offset >= 8 {
            st.audio_offset = Some(get_be_u64(data, *offset));
            *offset = *offset + 8;
        }
    } else if tag == 0x12 {
        if has_audio && data.len() - *offset >= 8 {
            st.audio_length = Some(get_be_u64(data, *offset));
            *offset = *offset + 8;
        }
    } else if tag == 0x13 {
        st.sensor_width = read_u16_field(data, offset, st.sensor_width);
    } else if tag == 0x14 {
        st.sensor_height = read_u16_field(data, offset, st.sensor_height);
    } else if tag == 0x15 {
        st.active_offset_x = read_u16_field(data, offset, st.active_offset_x);
    } else if tag == 0x16 {
        st.active_offset_y = read_u16_field(data, offset, st.active_offset_y);
    } else if tag == 0x17 {
        st.active_width = read_u16_field(data, offset, st.active_width);
    } else if tag == 0x18 {
        st.active_height = read_u16_field(data, offset, st.active_height);
    } else {
        *offset = *offset + 1;
    }
}

// ---------------------------------------------------------------------------
// Header
// ---------------------------------------------------------------------------

/// The fields of a legacy (`MCRAW`) header. `fps_bits` holds the bit
/// pattern of the big-endian 8-byte float found in the file.
#[derive(Debug, Clone)]
pub struct McrawHeader {
    /// The path the clip was read from.
    pub path: String,
    pub size: u64,
    pub format_version: u32,
    pub frame_count: u32,
    pub width: u16,
    pub height: u16,
    pub fps_bits: u64,
    pub has_audio: bool,
    pub audio_sample_rate: u32,
    pub audio_channels: u16,
    pub bit_depth: u16,
    pub bayer_pattern: BayerPattern,
    pub camera_metadata: CameraMetadata,
    pub frame_offsets: Vec<u64>,
    pub audio_offset: Option<u64>,
    pub audio_length: Option<u64>,
    pub sensor_width: u16,
    pub sensor_height: u16,
    pub active_offset_x: u16,
    pub active_offset_y: u16,
    pub active_width: u16,
    pub active_height: u16,
}

impl McrawHeader {
    /// The fields that the metadata block sets.
    pub open spec fn block_fields(self) -> BlockFields {
        fields_of(self.camera_metadata, self.frame_offsets@, self.audio_offset, self.audio_length,
            self.sensor_width, self.sensor_height, self.active_offset_x, self.active_offset_y,
            self.active_width, self.active_height)
    }
}

/// The usual name of a frame size, `Custom` for any other.
pub open spec fn spec_resolution_label(width: u16, height: u16) -> Seq<char> {
    if width == 1920 && height == 1080 {
        "1080p"@
    } else if width == 2560 && height == 1440 {
        "1440p"@
    } else if width == 3840 && height == 2160 {
        "4K"@
    } else if width == 4096 && height == 2160 {
        "4K DCI"@
    } else {
        "Custom"@
    }
}

pub fn resolution_label(width: u16, height: u16) -> (r: &'static str)
    ensures
        r@ == spec_resolution_label(width, height),
{
    match (width, height) {
        (1920, 1080) => "1080p",
        (2560, 1440) => "1440p",
        (3840, 2160) => "4K",
        (4096, 2160) => "4K DCI",
        _ => "Custom",
    }
}

/// The name of a container format version.
pub open spec fn spec_format_name(version: u32) -> Seq<char> {
    if version == 1 {
        "MotionCam v1 (Legacy)"@
    } else if version == 2 {
        "MotionCam v2"@
    } else if version == 3 {
        "MotionCam v3"@
    } else {
        "Unknown format"@
    }
}

pub fn format_name(version: u32) -> (r: &'static str)
    ensures
        r@ == spec_format_name(version),
{
    match version {
        1 => "MotionCam v1 (Legacy)",
        2 => "MotionCam v2",
        3 => "MotionCam v3",
        _ => "Unknown format",
    }
}

impl McrawHeader {
    pub fn resolution_label(&self) -> (r: &'static str)
        ensures
            r@ == spec_resolution_label(self.width, self.height),
    {
        resolution_label(self.width, self.height)
    }

    pub fn format_name(&self) -> (r: &'static str)
        ensures
            r@ == spec_format_name(self.format_version),
    {
        format_name(self.format_version)
    }
}

/// Where the JSON body of a `MOTION ` header lies in the data.
#[derive(Debug, Clone, Copy, PartialEq, Eq, Structural)]
pub struct MotionHeader {
    pub format_version: u32,
    pub json_start: usize,
    pub json_end: usize,
}

/// A recognised header.
#[derive(Debug, Clone)]
pub enum Header {
    /// The newer format; its JSON body is decoded by the caller.
    Motion(MotionHeader),
    /// The legacy binary format, fully read.
    Legacy(McrawHeader),
}

/// Why a header was refused.
#[derive(Debug, Clone)]
pub enum HeaderError {
    /// Fewer than 17 bytes.
    TooSmall { path: String, len: usize },
    /// The JSON body of a `MOTION ` header extends past the data.
    JsonBeyondData,
    /// Not a `MOTION ` header and fewer than 36 bytes.
    TooSmallForLegacy { path: String, len: usize },
    /// Neither magic; `found` holds the first five bytes.
    InvalidMagic { path: String, found: Vec<u8> },
}

pub open spec fn motion_magic() -> Seq<u8> {
    seq![0x4du8, 0x4f, 0x54, 0x49, 0x4f, 0x4e, 0x20]
}

pub open spec fn mcraw_magic() -> Seq<u8> {
    seq![0x4du8, 0x43, 0x52, 0x41, 0x57]
}

pub open spec fn is_motion(d: Seq<u8>) -> bool {
    d.len() >= 7 && d.take(7) == motion_magic()
}

pub open spec fn is_legacy(d: Seq<u8>) -> bool {
    !is_motion(d) && d.len() >= 36 && d.take(5) == mcraw_magic()
}

/// A legacy header whose metadata-block length field is cut off: fewer
/// than its four bytes follow the fixed header, and reading the field
/// would index past the end of the data.
pub open spec fn legacy_block_length_cut(d: Seq<u8>) -> bool {
    is_legacy(d) && 36 < d.len() < 40
}

/// The metadata block of a legacy header, if the data goes past byte 36.
pub open spec fn spec_legacy_block(d: Seq<u8>) -> BlockFields {
    if d.len() > 36 {
        spec_parse_block(d, d[25] != 0, 40, 40 + be_u32(d, 36) as int, empty_fields())
    } else {
        empty_fields()
    }
}

/// A legacy header holds the fixed fields at their offsets and the fields
/// of its metadata block.
pub open spec fn legacy_header_matches(h: McrawHeader, d: Seq<u8>) -> bool {
    let has_audio = d[25] != 0;
    &&& h.size == d.len()
    &&& h.format_version == be_u32(d, 5)
    &&& h.frame_count == be_u32(d, 9)
    &&& h.width == be_u16(d, 13)
    &&& h.height == be_u16(d, 15)
    &&& h.fps_bits == be_u64(d, 17)
    &&& h.has_audio == has_audio
    &&& h.audio_sample_rate == (if has_audio { be_u32(d, 26) } else { 0 })
    &&& h.audio_channels == be_u16(d, 30)
    &&& h.bit_depth == be_u16(d, 32)
    &&& h.bayer_pattern == BayerPattern::spec_from_id(d[34])
    &&& h.block_fields() == spec_legacy_block(d)
}

fn starts_with_bytes(d: &[u8], p: &[u8]) -> (r: bool)
    ensures
        r == (p@.len() <= d@.len() && d@.take(p@.len() as int) == p@),
{
    if p.len() > d.len() {
        return false;
    }
    let mut i: usize = 0;
    while i < p.len()
        invariant
            p@.len() <= d@.len(),
            i <= p@.len(),
            forall|j: int| 0 <= j < i ==> d@[j] == p@[j],
        decreases p@.len() - i,
    {
        if d[i] != p[i] {
            assert(d@.take(p@.len() as int)[i as int] != p@[i as int]);
            return false;
        }
        i = i + 1;
    }
    assert(d@.take(p@.len() as int) =~= p@);
    true
}

/// Reads the header at the start of a container's data.
///
/// A `MOTION ` header yields where its JSON body lies; a legacy `MCRAW`
/// header is read in full, including its tag-length-value metadata block.
pub fn parse_header(data: &[u8], path: &str) -> (r: Result<Header, HeaderError>)
    requires
        data@.len() < usize::MAX,
        !legacy_block_length_cut(data@),
    ensures
        data@.len() < 17 ==> (r matches Err(HeaderError::TooSmall { path: p, len })
            && len == data@.len() && p@ == path@),
        data@.len() >= 17 && is_motion(data@) ==> (
            if 16 + le_u32(data@, 12) <= data@.len() {
                r matches Ok(Header::Motion(m)) && m.format_version == data@[7]
                    && m.json_start == 16 && m.json_end == 16 + le_u32(data@, 12)
            } else {
                r matches Err(HeaderError::JsonBeyondData)
            }),
        data@.len() >= 17 && !is_motion(data@) && data@.len() < 36 ==> (
            r matches Err(HeaderError::TooSmallForLegacy { path: p, len })
                && len == data@.len() && p@ == path@),
        data@.len() >= 36 && !is_motion(data@) && data@.take(5) != mcraw_magic() ==> (
            r matches Err(HeaderError::InvalidMagic { path: p, found })
                && found@ == data@.take(5) && p@ == path@),
        is_legacy(data@) ==> (r matches Ok(Header::Legacy(h)) && legacy_header_matches(h, data@)
            && h.path@ == path@),
{
    if data.len() < 17 {
        return Err(HeaderError::TooSmall { path: owned(path), len: data.len() });
    }
    let motion: [u8; 7] = [0x4d, 0x4f, 0x54, 0x49, 0x4f, 0x4e, 0x20];
    if starts_with_bytes(data, &motion) {
        assert(motion@ =~= motion_magic());
        let format_version = data[7] as u32;
        let json_len = get_le_u32(data, 12) as usize;
        if json_len > data.len() - 16 {
            return Err(HeaderError::JsonBeyondData);
        }
        return Ok(Header::Motion(MotionHeader { format_version, json_start: 16, json_end: 16 + json_len }));
    }
    assert(motion@ =~= motion_magic());
    if data.len() < 36 {
        return Err(HeaderError::TooSmallForLegacy { path: owned(path), len: data.len() });
    }
    let magic: [u8; 5] = [0x4d, 0x43, 0x52, 0x41, 0x57];
    assert(magic@ =~= mcraw_magic());
    if !starts_with_bytes(data, &magic) {
        let mut found: Vec<u8> = Vec::new();
        found.push(data[0]);
        found.push(data[1]);
        found.push(data[2]);
        found.push(data[3]);
        found.push(data[4]);
        assert(found@ =~= data@.take(5));
        return Err(HeaderError::InvalidMagic { path: owned(path), found });
    }

    let format_version = get_be_u32(data, 5);
    let frame_count = get_be_u32(data, 9);
    let width = get_be_u16(data, 13);
    let height = get_be_u16(data, 15);
    let fps_bits = get_be_u64(data, 17);
    let has_audio = data[25] != 0;
    let audio_sample_rate = if has_audio && data.len() >= 30 {
        get_be_u32(data, 26)
    } else {
        0
    };
    let audio_channels = if data.len() >= 32 {
        get_be_u16(data, 30)
    } else {
        0
    };
    let bit_depth = if data.len() >= 34 {
        get_be_u16(data, 32)
    } else {
        0
    };
    let bayer_pattern_id = if data.len() >= 35 {
        data[34]
    } else {
        0
    };
    let bayer_pattern = BayerPattern::from_u8(bayer_pattern_id);

    let mut st = BlockState {
        metadata: CameraMetadata {
            sensor_make: None,
            sensor_model: None,
            camera_model: None,
            lens_model: None,
            focal_length_bits: None,
            aperture_bits: None,
            iso: None,
            exposure_time_bits: None,
            white_balance_bits: None,
            capture_date: None,
        },
        frame_offsets: Vec::new(),
        audio_offset: None,
        audio_length: None,
        sensor_width: 0,
        sensor_height: 0,
        active_offset_x: 0,
        active_offset_y: 0,
        active_width: 0,
        active_height: 0,
    };
    assert(st.view() == empty_fields());

    let mut offset: usize = 36;
    if offset < data.len() {
        let block_length = read_u32_be(data, offset);
        offset = offset + 4;
        let block_end: u64 = (offset as u64) + (block_length as u64);
        let ghost end = 40 + block_length as int;
        while (offset as u64) < block_end && offset < data.len()
            invariant
                data@.len() < usize::MAX,
                40 <= offset <= data@.len() + 1,
                block_end == end,
                spec_parse_block(data@, has_audio, offset as int, end, st.view())
                    == spec_parse_block(data@, has_audio, 40, end, empty_fields()),
            decreases data@.len() + 1 - offset,
        {
            proof {
                lemma_block_step_advances(data@, has_audio, offset as int, st.view());
            }
            read_block_entry(data, has_audio, &mut offset, &mut st);
        }
    }
    let BlockState {
        metadata,
        frame_offsets,
        audio_offset,
        audio_length,
        sensor_width,
        sensor_height,
        active_offset_x,
        active_offset_y,
        active_width,
        active_height,
    } = st;
    Ok(Header::Legacy(McrawHeader {
        path: owned(path),
        size: data.len() as u64,
        format_version,
        frame_count,
        width,
        height,
        fps_bits,
        has_audio,
        audio_sample_rate,
        audio_channels,
        bit_depth,
        bayer_pattern,
        camera_metadata: metadata,
        frame_offsets,
        audio_offset,
        audio_length,
        sensor_width,
        sensor_height,
        active_offset_x,
        active_offset_y,
        active_width,
        active_height,
    }))
}

} // verus!

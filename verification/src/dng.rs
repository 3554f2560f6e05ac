//! Pieces of a CinemaDNG frame: the CFA pattern tag, the lens-shading
//! GainMap opcode (DNG OpcodeList2) and the clip name frames are named by.

use vstd::prelude::*;
use crate::file::BayerPattern;
use crate::lj92::{compress_lj92, lj92_stream};
use crate::text::{ends_with, owned, to_chars, string_from_chars};
use crate::naming::name_stem;

verus! {

broadcast use vstd::string::group_string_axioms;

/// The CFA colours (0 red, 1 green, 2 blue) of the 2x2 tile at the origin
/// of a pattern; unknown (quad) patterns read as RGGB.
pub open spec fn cfa_tile(pattern: BayerPattern) -> Seq<u8> {
    match pattern {
        BayerPattern::GRBG => seq![1u8, 0, 2, 1],
        BayerPattern::GBRG => seq![1u8, 2, 0, 1],
        BayerPattern::BGGR => seq![2u8, 1, 1, 0],
        _ => seq![0u8, 1, 1, 2],
    }
}

/// The tile seen from an origin moved by (`offset_x`, `offset_y`): an odd
/// offset swaps the columns, or the rows.
pub open spec fn spec_cfa(pattern: BayerPattern, offset_x: u32, offset_y: u32) -> Seq<u8> {
    let c = cfa_tile(pattern);
    let c = if offset_x % 2 == 1 {
        seq![c[1], c[0], c[3], c[2]]
    } else {
        c
    };
    if offset_y % 2 == 1 {
        seq![c[2], c[3], c[0], c[1]]
    } else {
        c
    }
}

/// The CFA colour code of a letter of a pattern's name: R 0, G 1, B 2.
pub open spec fn cfa_colour(letter: char) -> u8 {
    if letter == 'R' {
        0
    } else if letter == 'G' {
        1
    } else {
        2
    }
}

/// The CFA colour code of a site code (R 0, G1 1, B 2, G2 3): the two
/// greens are one colour.
pub open spec fn site_colour(code: u32) -> u8 {
    if code == 0 {
        0
    } else if code == 2 {
        2
    } else {
        1
    }
}

/// The `CFAPattern` tag names, for each site (`row`, `col`) of the 2x2
/// tile at the active area's origin, the colour the sensor has there: the
/// pattern's own site code, read at the sensor site the origin's offset
/// moves to (an odd offset shifts by one column or row). For the four plain
/// patterns this is the letter of the pattern's name (`GRBG`: G R over B G)
/// at that site, R as 0, G as 1 and B as 2.
pub proof fn lemma_cfa_names_the_pattern(p: BayerPattern, offset_x: u32, offset_y: u32, row: int, col: int)
    requires
        0 <= row < 2,
        0 <= col < 2,
    ensures
        spec_cfa(p, offset_x, offset_y)[2 * row + col] == site_colour(
            p.site_code(((row + offset_y) % 2) as u32, ((col + offset_x) % 2) as u32),
        ),
        (p == BayerPattern::RGGB || p == BayerPattern::GRBG || p == BayerPattern::GBRG || p
            == BayerPattern::BGGR) ==> spec_cfa(p, offset_x, offset_y)[2 * row + col] == cfa_colour(
            p.spec_name()[2 * ((row + offset_y) % 2) + (col + offset_x) % 2],
        ),
{
    reveal_strlit("RGGB");
    reveal_strlit("GRBG");
    reveal_strlit("GBRG");
    reveal_strlit("BGGR");
    assert((0u32 & 1) == 0 && (1u32 & 1) == 1) by (bit_vector);
    let r = (row + offset_y) % 2;
    let c = (col + offset_x) % 2;
    assert(r == 0 || r == 1);
    assert(c == 0 || c == 1);
    assert(offset_x % 2 == 0 || offset_x % 2 == 1);
    assert(offset_y % 2 == 0 || offset_y % 2 == 1);
}

/// The `CFAPattern` tag value for a sensor area starting at the offsets.
pub fn pattern_to_cfa(pattern: BayerPattern, offset_x: u32, offset_y: u32) -> (r: [u8; 4])
    ensures
        r@ == spec_cfa(pattern, offset_x, offset_y),
{
    let mut cfa = match pattern {
        BayerPattern::RGGB => [0u8, 1, 1, 2],
        BayerPattern::GRBG => [1u8, 0, 2, 1],
        BayerPattern::GBRG => [1u8, 2, 0, 1],
        BayerPattern::BGGR => [2u8, 1, 1, 0],
        _ => [0u8, 1, 1, 2],
    };
    assert(cfa@ =~= cfa_tile(pattern));
    let ghost c0 = cfa@;
    if offset_x & 1 == 1 {
        cfa = [cfa[1], cfa[0], cfa[3], cfa[2]];
    }
    assert(offset_x & 1 == offset_x % 2) by (bit_vector);
    assert(offset_y & 1 == offset_y % 2) by (bit_vector);
    let ghost c1 = cfa@;
    assert(c1 =~= if offset_x % 2 == 1 {
        seq![c0[1], c0[0], c0[3], c0[2]]
    } else {
        c0
    });
    if offset_y & 1 == 1 {
        cfa = [cfa[2], cfa[3], cfa[0], cfa[1]];
    }
    assert(cfa@ =~= spec_cfa(pattern, offset_x, offset_y));
    cfa
}

// ---------------------------------------------------------------------------
// Clip names
// ---------------------------------------------------------------------------

/// `s` with every trailing repetition of `suffix` removed (what
/// `str::trim_end_matches` does with a string pattern).
pub open spec fn trim_suffix_all(s: Seq<char>, suffix: Seq<char>) -> Seq<char>
    decreases s.len(),
{
    if suffix.len() > 0 && ends_with(s, suffix) {
        trim_suffix_all(s.take(s.len() - suffix.len()), suffix)
    } else {
        s
    }
}

/// The clip name for a file stem: the stem (or `clip` when the path has
/// none) without trailing `-metadata` suffixes.
pub open spec fn spec_clip_name(stem: Option<Seq<char>>) -> Seq<char> {
    let base = match stem {
        Some(s) => s,
        None => "clip"@,
    };
    trim_suffix_all(base, "-metadata"@)
}

/// The text of `p` after its last `/` (all of `p` when it has none).
pub open spec fn after_last_slash(p: Seq<char>) -> Seq<char>
    decreases p.len(),
{
    if p.len() == 0 {
        p
    } else if p.last() == '/' {
        Seq::empty()
    } else {
        after_last_slash(p.drop_last()).push(p.last())
    }
}

/// A path whose file name is read alike on every platform: it holds no `\`
/// or `:`, does not begin with `//`, and its text after the last `/` is a
/// name other than ``, `.` and `..`.
pub open spec fn portable_path(p: Seq<char>) -> bool {
    let name = after_last_slash(p);
    &&& !p.contains('\\')
    &&& !p.contains(':')
    &&& !(p.len() >= 2 && p[0] == '/' && p[1] == '/')
    &&& name.len() > 0
    &&& name != "."@
    &&& name != ".."@
}

/// `Path::file_stem` then `OsStr::to_str`: the file name of `path` without
/// its extension. How a path splits into components depends on the
/// platform's separators; for a path of `/`-separated names that the
/// platforms read alike (`portable_path`) the stem is `name_stem` of the
/// text after the last `/`. Other paths are left unsaid.
#[verifier::external_body]
pub(crate) fn file_stem(path: &str) -> (r: Option<String>)
    ensures
        portable_path(path@) ==> r is Some,
        portable_path(path@) ==> r.unwrap()@ == name_stem(after_last_slash(path@)),
{
    std::path::Path::new(path).file_stem().and_then(|s| s.to_str()).map(|s| s.to_string())
}

/// The clip name for the file stem of a path.
pub fn clip_name_from_stem(stem: Option<String>) -> (r: String)
    ensures
        r@ == spec_clip_name(match stem {
            Some(s) => Some(s@),
            None => None,
        }),
{
    let base = match stem {
        Some(s) => s,
        None => owned("clip"),
    };
    let suffix = to_chars("-metadata");
    let mut cs = to_chars(base.as_str());
    let ghost b = base@;
    proof {
        reveal_strlit("-metadata");
    }
    while cs.len() >= suffix.len() && crate::text::chars_ends_with(cs.as_slice(), suffix.as_slice())
        invariant
            suffix@ == "-metadata"@,
            suffix@.len() == 9,
            trim_suffix_all(b, suffix@) == trim_suffix_all(cs@, suffix@),
        decreases cs@.len(),
    {
        let n = cs.len() - 9;
        cs.truncate(n);
    }
    proof {
        assert(!ends_with(cs@, suffix@));
    }
    string_from_chars(cs.as_slice())
}

/// The clip a file belongs to: its stem, less a `-metadata` suffix.
pub fn stem_from_path(path: &str) -> (r: String)
    ensures
        exists|stem: Option<Seq<char>>| r@ == spec_clip_name(stem),
        portable_path(path@) ==> r@ == spec_clip_name(Some(name_stem(after_last_slash(path@)))),
{
    let stem = file_stem(path);
    clip_name_from_stem(stem)
}

// ---------------------------------------------------------------------------
// GainMap opcode
// ---------------------------------------------------------------------------

/// A lens-shading gain map: per Bayer plane, `width` x `height` gains given
/// as the IEEE-754 bit patterns of the `f32` values (`f32::to_bits`).
pub struct GainMapPlanes {
    pub channels: Vec<Vec<u32>>,
    pub width: u32,
    pub height: u32,
}

/// A 32-bit value big-endian.
pub open spec fn be32(v: nat) -> Seq<u8> {
    seq![((v / 0x100_0000) % 256) as u8, ((v / 0x1_0000) % 256) as u8, ((v / 256) % 256) as u8, (v % 256) as u8]
}

/// A 16-bit value big-endian.
pub open spec fn be16_bytes(v: nat) -> Seq<u8> {
    seq![((v / 256) % 256) as u8, (v % 256) as u8]
}

/// The gains of one plane, each big-endian.
pub open spec fn plane_bytes(p: Seq<u32>) -> Seq<u8>
    decreases p.len(),
{
    if p.len() == 0 {
        Seq::empty()
    } else {
        plane_bytes(p.drop_last()) + be32(p.last() as nat)
    }
}

/// The GainMap parameters (DNG 1.7): map 0 over the area from (`top`,
/// `left`) to (`bottom`, `right`), four planes, the map size, `f32` gains,
/// bilinear interpolation, then the gains of planes 0 to 3.
pub open spec fn gainmap_payload(planes: Seq<Seq<u32>>, width: u32, height: u32, top: u32, left: u32, bottom: u32, right: u32) -> Seq<u8> {
    be32(0) + be32(top as nat) + be32(left as nat) + be32(bottom as nat) + be32(right as nat)
        + be32(4) + be32(width as nat) + be32(height as nat) + be32(0) + be32(1) + plane_bytes(
        planes[0],
    ) + plane_bytes(planes[1]) + plane_bytes(planes[2]) + plane_bytes(planes[3])
}

/// The OpcodeList2 tag value: one opcode record (GainMap, id 9, DNG
/// 1.7.0.0, not optional) whose byte count (modulo 2^32) precedes its
/// parameters.
pub open spec fn gainmap_blob(planes: Seq<Seq<u32>>, width: u32, height: u32, top: u32, left: u32, bottom: u32, right: u32) -> Seq<u8> {
    let payload = gainmap_payload(planes, width, height, top, left, bottom, right);
    be32(1) + be16_bytes(9) + be32(1007000) + be32(0) + be32(payload.len() % 0x1_0000_0000)
        + payload
}

pub open spec fn plane_views(c: Seq<Vec<u32>>) -> Seq<Seq<u32>> {
    c.map_values(|v: Vec<u32>| v@)
}

fn push_be32(out: &mut Vec<u8>, v: u32)
    ensures
        final(out)@ == old(out)@ + be32(v as nat),
{
    out.push((v / 0x100_0000) as u8);
    out.push(((v / 0x1_0000) % 256) as u8);
    out.push(((v / 256) % 256) as u8);
    out.push((v % 256) as u8);
    assert(final(out)@ =~= old(out)@ + be32(v as nat)) by {
        assert((v / 0x100_0000) % 256 == v / 0x100_0000);
    }
}

fn push_plane(out: &mut Vec<u8>, p: &Vec<u32>)
    ensures
        final(out)@ == old(out)@ + plane_bytes(p@),
{
    let mut i: usize = 0;
    while i < p.len()
        invariant
            i <= p@.len(),
            out@ == old(out)@ + plane_bytes(p@.take(i as int)),
        decreases p@.len() - i,
    {
        proof {
            assert(p@.take(i + 1).drop_last() =~= p@.take(i as int));
        }
        push_be32(out, p[i]);
        i = i + 1;
        assert(out@ =~= old(out)@ + plane_bytes(p@.take(i as int)));
    }
    assert(p@.take(i as int) =~= p@);
}

/// Build the binary blob for a single GainMap opcode embedded in
/// OpcodeList2 (tag 0xC61B): the opcode count, then the record, all
/// big-endian.
pub fn build_gainmap_opcode_blob(map: &GainMapPlanes, top: u32, left: u32, bottom: u32, right: u32) -> (r: Vec<u8>)
    requires
        map.channels@.len() >= 4,
    ensures
        r@ == gainmap_blob(
            plane_views(map.channels@),
            map.width,
            map.height,
            top,
            left,
            bottom,
            right,
        ),
{
    let mut payload: Vec<u8> = Vec::new();
    push_be32(&mut payload, 0);
    push_be32(&mut payload, top);
    push_be32(&mut payload, left);
    push_be32(&mut payload, bottom);
    push_be32(&mut payload, right);
    push_be32(&mut payload, 4);
    push_be32(&mut payload, map.width);
    push_be32(&mut payload, map.height);
    push_be32(&mut payload, 0);
    push_be32(&mut payload, 1);
    let ghost head = payload@;
    push_plane(&mut payload, &map.channels[0]);
    let ghost p0 = payload@;
    push_plane(&mut payload, &map.channels[1]);
    let ghost p1 = payload@;
    push_plane(&mut payload, &map.channels[2]);
    let ghost p2 = payload@;
    push_plane(&mut payload, &map.channels[3]);
    let ghost planes = plane_views(map.channels@);
    proof {
        assert(planes[0] == map.channels@[0]@);
        assert(planes[1] == map.channels@[1]@);
        assert(planes[2] == map.channels@[2]@);
        assert(planes[3] == map.channels@[3]@);
        assert(payload@ =~= gainmap_payload(planes, map.width, map.height, top, left, bottom, right));
    }
    let data_size = (payload.len() as u64 % 0x1_0000_0000) as u32;
    let mut buf: Vec<u8> = Vec::new();
    push_be32(&mut buf, 1);
    buf.push(0);
    buf.push(9);
    push_be32(&mut buf, 1007000);
    push_be32(&mut buf, 0);
    push_be32(&mut buf, data_size);
    let mut i: usize = 0;
    let ghost start = buf@;
    while i < payload.len()
        invariant
            i <= payload@.len(),
            buf@ == start + payload@.take(i as int),
        decreases payload@.len() - i,
    {
        buf.push(payload[i]);
        i = i + 1;
        assert(buf@ =~= start + payload@.take(i as int));
    }
    proof {
        assert(payload@.take(i as int) =~= payload@);
        assert(buf@ =~= gainmap_blob(planes, map.width, map.height, top, left, bottom, right));
    }
    buf
}

// ---------------------------------------------------------------------------
// Frame layout
// ---------------------------------------------------------------------------

/// The values of a CinemaDNG frame's directory that come from the clip's
/// geometry: the LJ92-compressed strip, the CFA pattern, the active area
/// (top, left, bottom, right) and the default crop (origin left, top and
/// size).
pub struct DngFrame {
    pub width: u16,
    pub height: u16,
    pub strip: Vec<u8>,
    pub cfa: [u8; 4],
    pub active_area: [u32; 4],
    pub crop_origin: [u32; 2],
    pub crop_size: [u32; 2],
}

/// Why a frame cannot be written.
#[derive(Debug, Clone, PartialEq, Eq, Structural)]
pub enum DngError {
    /// The Bayer buffer holds fewer samples than the frame has.
    BayerTooShort { width: usize, height: usize, got: usize, need: usize },
}

/// Lays out a `width` x `height` frame whose active area starts at the
/// offsets: the samples are compressed, the CFA pattern follows the
/// active area's origin, and the active area and crop are taken as given.
pub fn dng_frame(
    width: u16,
    height: u16,
    bayer: &[u16],
    pattern: BayerPattern,
    active_offset_x: u16,
    active_offset_y: u16,
    active_width: u16,
    active_height: u16,
) -> (r: Result<DngFrame, DngError>)
    ensures
        bayer@.len() < width * height ==> r == Err::<DngFrame, DngError>(DngError::BayerTooShort {
            width: width as usize,
            height: height as usize,
            got: bayer@.len() as usize,
            need: (width * height) as usize,
        }),
        bayer@.len() >= width * height ==> (r matches Ok(f) && {
            &&& f.width == width
            &&& f.height == height
            &&& f.strip@ == lj92_stream(bayer@, width as nat, height as nat)
            &&& f.cfa@ == spec_cfa(pattern, active_offset_x as u32, active_offset_y as u32)
            &&& f.active_area@ == seq![
                active_offset_y as u32,
                active_offset_x as u32,
                (active_offset_y + active_height) as u32,
                (active_offset_x + active_width) as u32,
            ]
            &&& f.crop_origin@ == seq![active_offset_x as u32, active_offset_y as u32]
            &&& f.crop_size@ == seq![active_width as u32, active_height as u32]
        }),
{
    let w = width as usize;
    let h = height as usize;
    assert(w * h <= 65535 * 65535) by (nonlinear_arith)
        requires
            w <= 65535,
            h <= 65535,
    ;
    let need = w * h;
    if bayer.len() < need {
        return Err(DngError::BayerTooShort { width: w, height: h, got: bayer.len(), need });
    }
    let strip = compress_lj92(bayer, w, h);
    let cfa = pattern_to_cfa(pattern, active_offset_x as u32, active_offset_y as u32);
    let top = active_offset_y as u32;
    let left = active_offset_x as u32;
    let active_area = [top, left, top + active_height as u32, left + active_width as u32];
    let crop_origin = [left, top];
    let crop_size = [active_width as u32, active_height as u32];
    proof {
        assert(active_area@ =~= seq![
            active_offset_y as u32,
            active_offset_x as u32,
            (active_offset_y + active_height) as u32,
            (active_offset_x + active_width) as u32,
        ]);
        assert(crop_origin@ =~= seq![active_offset_x as u32, active_offset_y as u32]);
        assert(crop_size@ =~= seq![active_width as u32, active_height as u32]);
    }
    Ok(DngFrame { width, height, strip, cfa, active_area, crop_origin, crop_size })
}

} // verus!

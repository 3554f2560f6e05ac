//! Thumbnails: cached encoded images, the Kitty graphics framing of raw
//! RGB pixels, and the colour of a site of the Bayer mosaic.

use vstd::prelude::*;
use base64::Engine;
use vstd::utf8::encode_utf8;
use crate::text::decimal_string;
use crate::text::decimal;
use crate::terminal::TerminalProtocol;

verus! {

broadcast use vstd::string::group_string_axioms;

pub const THUMBNAIL_WIDTH: u32 = 320;
pub const THUMBNAIL_HEIGHT: u32 = 180;
pub const CACHE_MAX_ENTRIES: usize = 1000;
pub const CACHE_MAX_BYTES: usize = 52428800;

/// `std::path::PathBuf`, carried through unchanged.
#[verifier::external_type_specification]
#[verifier::external_body]
pub struct ExPathBuf(std::path::PathBuf);

/// An encoded thumbnail ready to be written to the terminal.
pub struct CachedThumbnail {
    pub sixel: Vec<u8>,
    pub width: u32,
    pub height: u32,
    pub encode_time: std::time::Instant,
}

impl CachedThumbnail {
    pub fn byte_size(&self) -> (r: usize)
        ensures
            r == self.sixel@.len(),
    {
        self.sixel.len()
    }
}

/// What a thumbnail worker hands back for one file.
#[derive(Debug)]
pub struct ThumbnailResult {
    pub path: std::path::PathBuf,
    pub sixel: Option<Vec<u8>>,
    pub width: u32,
    pub height: u32,
    pub error: Option<String>,
}

/// `Instant::now()`.
#[verifier::external_body]
fn now() -> std::time::Instant {
    std::time::Instant::now()
}

impl ThumbnailResult {
    /// The result as a cache entry, stamped now; none when encoding failed.
    pub fn to_cached(&self) -> (r: Option<CachedThumbnail>)
        ensures
            r is Some <==> self.sixel is Some,
            r is Some ==> r->Some_0.sixel@ == self.sixel->Some_0@ && r->Some_0.width == self.width
                && r->Some_0.height == self.height,
    {
        match &self.sixel {
            Some(s) => Some(
                CachedThumbnail { sixel: s.clone(), width: self.width, height: self.height, encode_time: now() },
            ),
            None => None,
        }
    }
}

/// The colour (0 red, 1 green, 2 blue) of site (`x`, `y`) of a mosaic with
/// Bayer phase `phase` (0=RGGB, 1=GRBG, 2=GBRG, 3 or more=BGGR).
pub open spec fn spec_bayer_color(x: i32, y: i32, phase: u32) -> i32 {
    let even_row = y & 1 == 0;
    let even_col = x & 1 == 0;
    // the colour at the top-left site of the 2x2 tile, then the others
    let (tl, tr, bl, br) = if phase == 0 {
        (0i32, 1i32, 1i32, 2i32)
    } else if phase == 1 {
        (1, 0, 2, 1)
    } else if phase == 2 {
        (1, 2, 0, 1)
    } else {
        (2, 1, 1, 0)
    };
    if even_row {
        if even_col {
            tl
        } else {
            tr
        }
    } else {
        if even_col {
            bl
        } else {
            br
        }
    }
}

pub fn bayer_color(x: i32, y: i32, phase: u32) -> (r: i32)
    ensures
        r == spec_bayer_color(x, y, phase),
{
    let even_row = (y & 1) == 0;
    let even_col = (x & 1) == 0;
    match phase {
        0 => {
            if even_row {
                if even_col {
                    0
                } else {
                    1
                }
            } else {
                if even_col {
                    1
                } else {
                    2
                }
            }
        },
        1 => {
            if even_row {
                if even_col {
                    1
                } else {
                    0
                }
            } else {
                if even_col {
                    2
                } else {
                    1
                }
            }
        },
        2 => {
            if even_row {
                if even_col {
                    1
                } else {
                    2
                }
            } else {
                if even_col {
                    0
                } else {
                    1
                }
            }
        },
        _ => {
            if even_row {
                if even_col {
                    2
                } else {
                    1
                }
            } else {
                if even_col {
                    1
                } else {
                    0
                }
            }
        },
    }
}

/// The RGB bytes of RGBA pixels: every fourth byte (alpha) dropped.
pub open spec fn spec_rgba_to_rgb(rgba: Seq<u8>) -> Seq<u8> {
    Seq::new(
        ((rgba.len() + 1) / 4 * 3) as nat,
        |i: int| rgba[(i / 3) * 4 + i % 3],
    )
}

/// Strip alpha channel from RGBA for Kitty f=24 raw RGB. A trailing group
/// of three bytes counts as a pixel without alpha.
pub fn rgba_to_rgb(rgba: &[u8]) -> (r: Vec<u8>)
    requires
        rgba@.len() % 4 == 0 || rgba@.len() % 4 == 3,
    ensures
        r@ == spec_rgba_to_rgb(rgba@),
{
    let n = rgba.len();
    let groups = if n % 4 == 3 { n / 4 + 1 } else { n / 4 };
    let mut rgb: Vec<u8> = Vec::new();
    for p in 0..groups
        invariant
            n == rgba@.len(),
            n % 4 == 0 || n % 4 == 3,
            groups == (n + 1) / 4,
            rgb@.len() == p * 3,
            forall|j: int| 0 <= j < rgb@.len() ==> rgb@[j] == rgba@[(j / 3) * 4 + j % 3],
    {
        let b = p * 4;
        let ghost before = rgb@;
        rgb.push(rgba[b]);
        rgb.push(rgba[b + 1]);
        rgb.push(rgba[b + 2]);
        proof {
            assert forall|j: int| 0 <= j < rgb@.len() implies rgb@[j] == rgba@[(j / 3) * 4 + j % 3] by {
                if j >= before.len() {
                    let k = j - before.len();
                    assert((j / 3) * 4 == b && j % 3 == k) by (nonlinear_arith)
                        requires
                            j == p * 3 + k,
                            0 <= k < 3,
                            b == p * 4,
                    ;
                }
            }
        }
    }
    proof {
        assert(rgb@ =~= spec_rgba_to_rgb(rgba@));
    }
    rgb
}

/// The character of the standard base64 alphabet (RFC 4648) for a six-bit
/// value: `A`-`Z`, `a`-`z`, `0`-`9`, `+`, `/`.
pub open spec fn base64_char(v: int) -> char {
    if v < 26 {
        (65 + v) as char
    } else if v < 52 {
        (71 + v) as char
    } else if v < 62 {
        (v - 4) as char
    } else if v == 62 {
        '+'
    } else {
        '/'
    }
}

/// The standard base64 encoding of some bytes: each group of three bytes
/// becomes four characters of six bits each; a final group of one or two
/// bytes is padded with `=` to four characters.
pub open spec fn base64_standard(data: Seq<u8>) -> Seq<char>
    decreases data.len(),
{
    if data.len() == 0 {
        Seq::empty()
    } else if data.len() == 1 {
        let a = data[0] as int;
        seq![base64_char(a / 4), base64_char((a % 4) * 16), '=', '=']
    } else if data.len() == 2 {
        let a = data[0] as int;
        let b = data[1] as int;
        seq![base64_char(a / 4), base64_char((a % 4) * 16 + b / 16), base64_char((b % 16) * 4), '=']
    } else {
        let a = data[0] as int;
        let b = data[1] as int;
        let c = data[2] as int;
        seq![
            base64_char(a / 4),
            base64_char((a % 4) * 16 + b / 16),
            base64_char((b % 16) * 4 + c / 64),
            base64_char(c % 64),
        ] + base64_standard(data.subrange(3, data.len() as int))
    }
}

/// `base64::engine::general_purpose::STANDARD.encode`: the standard alphabet
/// with `=` padding, four characters for every started group of three bytes.
#[verifier::external_body]
fn base64_encode(data: &[u8]) -> (r: String)
    requires
        4 * ((data@.len() + 2) / 3) <= usize::MAX,
    ensures
        r@ == base64_standard(data@),
        r@.len() == 4 * ((data@.len() + 2) / 3),
{
    base64::engine::general_purpose::STANDARD.encode(data)
}

/// The header of a Kitty transmit command for a `width` x `height` raw RGB
/// image (`a=t`: transmit only, image 0, replacing it).
pub open spec fn kitty_header(width: nat, height: nat) -> Seq<char> {
    "\x1b_Ga=t,i=0,r=1,f=24,s="@ + decimal(width) + ",v="@ + decimal(height) + ",m=0;"@
}

/// A Kitty transmit command carrying base64 payload `b64`.
pub open spec fn kitty_command(b64: Seq<char>, width: nat, height: nat) -> Seq<u8> {
    encode_utf8(kitty_header(width, height) + b64) + seq![0x1bu8, 0x5cu8]
}

fn push_str_bytes(out: &mut Vec<u8>, s: &str)
    ensures
        final(out)@ == old(out)@ + encode_utf8(s@),
{
    let b = s.as_bytes();
    let mut i: usize = 0;
    while i < b.len()
        invariant
            b@ == encode_utf8(s@),
            i <= b@.len(),
            out@ == old(out)@ + b@.take(i as int),
        decreases b@.len() - i,
    {
        out.push(b[i]);
        i = i + 1;
        assert(out@ =~= old(out)@ + b@.take(i as int));
    }
    assert(b@.take(i as int) =~= b@);
}

proof fn lemma_encode_utf8_append(a: Seq<char>, b: Seq<char>)
    ensures
        encode_utf8(a + b) == encode_utf8(a) + encode_utf8(b),
    decreases a.len(),
{
    if a.len() == 0 {
        assert(a + b =~= b);
        assert(encode_utf8(a) + encode_utf8(b) =~= encode_utf8(b));
    } else {
        assert((a + b).drop_first() =~= a.drop_first() + b);
        assert((a + b)[0] == a[0]);
        lemma_encode_utf8_append(a.drop_first(), b);
        assert(encode_utf8(a + b) =~= encode_utf8(a) + encode_utf8(b));
    }
}

/// Frames a base64 payload as a Kitty graphics transmit command.
pub fn kitty_frame(b64: &str, width: usize, height: usize) -> (r: Vec<u8>)
    ensures
        r@ == kitty_command(b64@, width as nat, height as nat),
{
    let mut header = crate::text::owned("\x1b_Ga=t,i=0,r=1,f=24,s=");
    let w = decimal_string(width as u64);
    crate::text::push_str(&mut header, w.as_str());
    crate::text::push_str(&mut header, ",v=");
    let h = decimal_string(height as u64);
    crate::text::push_str(&mut header, h.as_str());
    crate::text::push_str(&mut header, ",m=0;");
    let mut out: Vec<u8> = Vec::new();
    push_str_bytes(&mut out, header.as_str());
    push_str_bytes(&mut out, b64);
    out.push(0x1b);
    out.push(0x5c);
    proof {
        lemma_encode_utf8_append(header@, b64@);
        assert(header@ == kitty_header(width as nat, height as nat));
        assert(out@ =~= kitty_command(b64@, width as nat, height as nat));
    }
    out
}

/// Encode an RGBA buffer as Kitty graphics protocol raw RGB (`f=24`),
/// transmit only: the caller places the image with a later `a=p` command.
pub fn kitty_encode(rgba: &[u8], width: usize, height: usize) -> (r: Vec<u8>)
    requires
        rgba@.len() % 4 == 0 || rgba@.len() % 4 == 3,
        rgba@.len() < usize::MAX,
    ensures
        r@ == kitty_command(base64_standard(spec_rgba_to_rgb(rgba@)), width as nat, height as nat),
{
    let rgb = rgba_to_rgb(rgba);
    proof {
        assert(rgb@.len() <= rgba@.len());
        assert(4 * ((rgb@.len() + 2) / 3) <= usize::MAX) by (nonlinear_arith)
            requires
                rgb@.len() == (rgba@.len() + 1) / 4 * 3,
                rgba@.len() < usize::MAX,
        ;
    }
    let b64 = base64_encode(rgb.as_slice());
    kitty_frame(b64.as_str(), width, height)
}


/// `icy_sixel::SixelError`, carried through unchanged.
#[verifier::external_type_specification]
#[verifier::external_body]
pub struct ExSixelError(icy_sixel::SixelError);

/// The bytes of the SIXEL text `icy_sixel` encodes an RGBA image to with
/// its default options; none when it refuses the image.
pub uninterp spec fn sixel_encoding(rgba: Seq<u8>, width: usize, height: usize) -> Option<Seq<u8>>;

/// `icy_sixel::sixel_encode` with `EncodeOptions::default()`, the text
/// taken as bytes. It refuses an empty image and a buffer that does not
/// hold four bytes a pixel.
#[verifier::external_body]
fn sixel_encode(rgba: &[u8], width: usize, height: usize) -> (r: Result<Vec<u8>, icy_sixel::SixelError>)
    ensures
        r matches Ok(b) ==> sixel_encoding(rgba@, width, height) == Some(b@),
        r is Err ==> sixel_encoding(rgba@, width, height) is None,
        width == 0 || height == 0 || rgba@.len() != width * height * 4 ==> r is Err,
{
    icy_sixel::sixel_encode(rgba, width, height, &icy_sixel::EncodeOptions::default()).map(|s| s.into_bytes())
}

/// Why an image cannot be shown in the terminal.
#[derive(Debug)]
pub enum TerminalImageError {
    /// The SIXEL encoder refused the image.
    Sixel(icy_sixel::SixelError),
    /// The terminal shows no images.
    Unsupported,
}

/// An RGBA image encoded for the terminal's graphics protocol: a Kitty
/// transmit command, SIXEL text, or an error when the terminal shows none.
pub fn encode_rgba_to_terminal(
    protocol: TerminalProtocol,
    rgba: &[u8],
    width: usize,
    height: usize,
) -> (r: Result<Vec<u8>, TerminalImageError>)
    requires
        protocol is Kitty ==> (rgba@.len() % 4 == 0 || rgba@.len() % 4 == 3) && rgba@.len() < usize::MAX,
    ensures
        protocol is Kitty ==> (r matches Ok(b) && b@ == kitty_command(
            base64_standard(spec_rgba_to_rgb(rgba@)),
            width as nat,
            height as nat,
        )),
        protocol is Sixel ==> match sixel_encoding(rgba@, width, height) {
            Some(b) => (r matches Ok(v) && v@ == b),
            None => r matches Err(TerminalImageError::Sixel(_)),
        },
        protocol is TextFallback ==> r matches Err(TerminalImageError::Unsupported),
{
    match protocol {
        TerminalProtocol::Kitty => Ok(kitty_encode(rgba, width, height)),
        TerminalProtocol::Sixel => match sixel_encode(rgba, width, height) {
            Ok(b) => Ok(b),
            Err(e) => Err(TerminalImageError::Sixel(e)),
        },
        TerminalProtocol::TextFallback => Err(TerminalImageError::Unsupported),
    }
}

} // verus!

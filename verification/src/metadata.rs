//! Human-readable renderings of clip metadata: file sizes, durations and
//! capture dates.

use vstd::prelude::*;
use vstd::arithmetic::power2::{pow2, lemma2_to64, lemma_pow2_pos};
use vstd::arithmetic::div_mod::lemma_fundamental_div_mod;
use vstd::bits::lemma_u64_shl_is_mul;
use crate::lj92::{bit_len, lemma_bit_len_at_most, lemma_bit_len_bound};
use vstd::utf8::{encode_utf8, encode_scalar, char_is_scalar};
use crate::text::{decimal, decimal_string, digit, digit_char, push_char, push_str, to_chars};
use crate::file::{format_name, resolution_label, spec_format_name, spec_resolution_label, BayerPattern};
use crate::session::string_views;
use crate::workflow::{last_component, last_component_of, two_digit_string, two_digits};

verus! {

/// `n / d` rounded to the nearest integer, ties to the even one.
pub open spec fn round_half_even(n: nat, d: nat) -> nat {
    let q = n / d;
    let r = n % d;
    if 2 * r > d || (2 * r == d && q % 2 == 1) {
        q + 1
    } else {
        q
    }
}

/// The double nearest to `b` (ties to even): `b` itself below 2^53,
/// otherwise `b` rounded to 53 significant bits.
pub open spec fn nearest_double(b: nat) -> nat {
    if b < pow2(53) {
        b
    } else {
        let unit = pow2((bit_len(b) - 53) as nat);
        round_half_even(b, unit) * unit
    }
}

/// `v / 2^shift` with two decimals, rounded to nearest with ties to even.
pub open spec fn two_decimals(v: nat, shift: nat) -> Seq<char> {
    let n = round_half_even(v * 100, pow2(shift));
    decimal(n / 100) + seq!['.', digit_char((n / 10) % 10), digit_char(n % 10)]
}

/// The text `format_size` gives for a byte count.
pub open spec fn size_text(bytes: nat) -> Seq<char> {
    if bytes >= pow2(30) {
        two_decimals(nearest_double(bytes), 30) + seq![' ', 'G', 'B']
    } else if bytes >= pow2(20) {
        two_decimals(bytes, 20) + seq![' ', 'M', 'B']
    } else if bytes >= pow2(10) {
        two_decimals(bytes, 10) + seq![' ', 'K', 'B']
    } else {
        decimal(bytes) + seq![' ', 'B']
    }
}

fn round_half_even_u128(n: u128, d: u128) -> (r: u128)
    requires
        d > 0,
        n / d < u128::MAX,
    ensures
        r == round_half_even(n as nat, d as nat),
{
    let q = n / d;
    let rem = n % d;
    if rem > d - rem || (rem == d - rem && q % 2 == 1) {
        q + 1
    } else {
        q
    }
}

/// The value of `b` once converted to `f64`.
fn nearest_double_u64(b: u64) -> (r: u128)
    ensures
        r == nearest_double(b as nat),
        r <= pow2(64),
{
    proof {
        lemma2_to64();
        vstd::arithmetic::power2::lemma2_to64_rest();
    }
    if b < 0x20_0000_0000_0000 {
        return b as u128;
    }
    let mut a = b;
    let mut len: u64 = 0;
    proof {
        vstd::arithmetic::power2::lemma2_to64_rest();
        lemma_bit_len_at_most(b as nat, 64);
    }
    while a > 0
        invariant
            bit_len(b as nat) == len + bit_len(a as nat),
            bit_len(b as nat) <= 64,
        decreases a,
    {
        a = a / 2;
        len = len + 1;
    }
    proof {
        assert(len >= 54) by {
            lemma_bit_len_bound(b as nat);
            if len <= 53 {
                if len < 53 {
                    vstd::arithmetic::power2::lemma_pow2_strictly_increases(len as nat, 53);
                }
            }
        }
    }
    let s = len - 53;
    proof {
        lemma_u64_shl_is_mul(1, s);
        lemma_pow2_pos(s as nat);
    }
    let unit = 1u64 << s;
    let q = round_half_even_u128(b as u128, unit as u128);
    proof {
        lemma_bit_len_bound(b as nat);
        vstd::arithmetic::power2::lemma_pow2_adds(53, s as nat);
        lemma_fundamental_div_mod(b as int, unit as int);
        let qq = (b as int) / (unit as int);
        let rr = (b as int) % (unit as int);
        assert(qq < pow2(53)) by (nonlinear_arith)
            requires
                b == unit * qq + rr,
                0 <= rr,
                b < pow2(53) * unit,
                unit > 0,
        ;
        assert(q * unit <= pow2(53) * pow2(s as nat)) by (nonlinear_arith)
            requires
                q <= pow2(53),
                unit == pow2(s as nat),
        ;
        if len < 64 {
            vstd::arithmetic::power2::lemma_pow2_strictly_increases(len as nat, 64);
        }
    }
    q * (unit as u128)
}

/// Renders `v / 2^shift` with two decimals.
fn two_decimals_string(v: u128, shift: u32, suffix: &str) -> (r: String)
    requires
        v <= pow2(64),
        10 <= shift <= 30,
    ensures
        r@ == two_decimals(v as nat, shift as nat) + suffix@,
{
    proof {
        lemma2_to64();
        vstd::arithmetic::power2::lemma2_to64_rest();
        lemma_pow2_pos(shift as nat);
        vstd::bits::lemma_u64_pow2_no_overflow(shift as nat);
        lemma_u64_shl_is_mul(1, shift as u64);
    }
    let d = (1u64 << (shift as u64)) as u128;
    let n = round_half_even_u128(v * 100, d);
    proof {
        let x = (v * 100) as int;
        vstd::arithmetic::div_mod::lemma_div_is_ordered_by_denominator(x, 1024, d as int);
        vstd::arithmetic::div_mod::lemma_div_is_ordered(x, 1844674407370955161600, 1024);
        assert(n <= 0x1_0000_0000_0000_0000);
    }
    let whole = (n / 100) as u64;
    let mut r = decimal_string(whole);
    push_char(&mut r, '.');
    let tens = digit(((n / 10) % 10) as u64);
    let ones = digit((n % 10) as u64);
    push_char(&mut r, tens);
    push_char(&mut r, ones);
    push_str(&mut r, suffix);
    r
}

/// Renders a byte count in B, KB, MB or GB (powers of 1024), the last three
/// with two decimals as `format!("{:.2}")` prints the `f64` quotient.
pub fn format_size(bytes: u64) -> (r: String)
    ensures
        r@ == size_text(bytes as nat),
{
    proof {
        lemma2_to64();
    }
    if bytes >= 0x4000_0000 {
        let v = nearest_double_u64(bytes);
        proof {
            reveal_strlit(" GB");
        }
        let r = two_decimals_string(v, 30, " GB");
        assert(" GB"@ =~= seq![' ', 'G', 'B']);
        r
    } else if bytes >= 0x10_0000 {
        proof {
            reveal_strlit(" MB");
            vstd::arithmetic::power2::lemma2_to64_rest();
        }
        let r = two_decimals_string(bytes as u128, 20, " MB");
        assert(" MB"@ =~= seq![' ', 'M', 'B']);
        r
    } else if bytes >= 0x400 {
        proof {
            reveal_strlit(" KB");
            vstd::arithmetic::power2::lemma2_to64_rest();
        }
        let r = two_decimals_string(bytes as u128, 10, " KB");
        assert(" KB"@ =~= seq![' ', 'K', 'B']);
        r
    } else {
        let mut r = decimal_string(bytes);
        proof {
            reveal_strlit(" B");
        }
        push_str(&mut r, " B");
        assert(" B"@ =~= seq![' ', 'B']);
        r
    }
}

// ---------------------------------------------------------------------------
// Capture dates
// ---------------------------------------------------------------------------

/// Unicode `White_Space`, the characters `str::trim` removes.
pub open spec fn is_white_space(c: char) -> bool {
    let u = c as u32;
    ||| 0x09 <= u <= 0x0D
    ||| u == 0x20
    ||| u == 0x85
    ||| u == 0xA0
    ||| u == 0x1680
    ||| 0x2000 <= u <= 0x200A
    ||| u == 0x2028
    ||| u == 0x2029
    ||| u == 0x202F
    ||| u == 0x205F
    ||| u == 0x3000
}

pub open spec fn trim_start_ws(s: Seq<char>) -> Seq<char>
    decreases s.len(),
{
    if s.len() > 0 && is_white_space(s[0]) {
        trim_start_ws(s.drop_first())
    } else {
        s
    }
}

pub open spec fn trim_end_ws(s: Seq<char>) -> Seq<char>
    decreases s.len(),
{
    if s.len() > 0 && is_white_space(s.last()) {
        trim_end_ws(s.drop_last())
    } else {
        s
    }
}

/// `s` without leading and trailing white space, as `str::trim` gives it.
pub open spec fn trim_ws(s: Seq<char>) -> Seq<char> {
    trim_end_ws(trim_start_ws(s))
}

/// Length in bytes of the UTF-8 encoding of `s` (what `str::len` gives).
pub open spec fn utf8_len(s: Seq<char>) -> nat {
    encode_utf8(s).len()
}

/// Byte offset `b` of the encoding of `s` falls between two characters.
pub open spec fn is_boundary_at(s: Seq<char>, b: nat) -> bool {
    exists|k: int| 0 <= k <= s.len() && #[trigger] utf8_len(s.take(k)) == b
}

/// The number of characters whose encoding fills the first `b` bytes.
pub open spec fn chars_before(s: Seq<char>, b: nat) -> int {
    choose|k: int| 0 <= k <= s.len() && #[trigger] utf8_len(s.take(k)) == b
}

/// The text `format_capture_date` gives: an ISO-8601 stamp
/// `YYYY-MM-DDTHH:MM:SS<zone>` (after trimming) becomes
/// `YYYY-MM-DD HH:MM:SS<zone>`, the zone trimmed; shorter text is only
/// trimmed. Positions are byte offsets, as in the string slicing they
/// describe.
pub open spec fn capture_date_text(raw: Seq<char>) -> Seq<char> {
    let t = trim_ws(raw);
    if utf8_len(t) >= 19 {
        let k10 = chars_before(t, 10);
        let k11 = chars_before(t, 11);
        let k19 = chars_before(t, 19);
        t.take(k10) + seq![' '] + t.subrange(k11, k19) + trim_ws(t.skip(k19))
    } else {
        t
    }
}

/// Bytes in the UTF-8 encoding of one character.
pub open spec fn char_width(c: char) -> nat {
    let u = c as u32;
    if u <= 0x7F {
        1
    } else if u <= 0x7FF {
        2
    } else if u <= 0xFFFF {
        3
    } else {
        4
    }
}

proof fn lemma_encode_utf8_append(a: Seq<char>, b: Seq<char>)
    ensures
        encode_utf8(a + b) == encode_utf8(a) + encode_utf8(b),
    decreases a.len(),
{
    if a.len() == 0 {
        assert(a + b =~= b);
        assert(encode_utf8(a) + encode_utf8(b) =~= encode_utf8(b));
    } else {
        assert((a + b).drop_first() =~= a.drop_first() + b);
        assert((a + b)[0] == a[0]);
        lemma_encode_utf8_append(a.drop_first(), b);
        assert(encode_utf8(a + b) =~= encode_utf8(a) + encode_utf8(b));
    }
}

proof fn lemma_utf8_len_step(s: Seq<char>, k: int)
    requires
        0 <= k < s.len(),
    ensures
        utf8_len(s.take(k + 1)) == utf8_len(s.take(k)) + char_width(s[k]),
        1 <= char_width(s[k]) <= 4,
{
    assert(s.take(k + 1) =~= s.take(k) + seq![s[k]]);
    lemma_encode_utf8_append(s.take(k), seq![s[k]]);
    char_is_scalar(s[k]);
    assert(seq![s[k]].drop_first() =~= Seq::<char>::empty());
    assert(encode_utf8(seq![s[k]]) =~= encode_scalar(s[k] as u32) + encode_utf8(Seq::<char>::empty()));
}

proof fn lemma_utf8_len_increases(s: Seq<char>, i: int, j: int)
    requires
        0 <= i < j <= s.len(),
    ensures
        utf8_len(s.take(i)) < utf8_len(s.take(j)),
    decreases j - i,
{
    lemma_utf8_len_step(s, j - 1);
    if i < j - 1 {
        lemma_utf8_len_increases(s, i, j - 1);
    }
}

fn is_white_space_char(c: char) -> (r: bool)
    ensures
        r == is_white_space(c),
{
    let u = c as u32;
    (0x09 <= u && u <= 0x0D) || u == 0x20 || u == 0x85 || u == 0xA0 || u == 0x1680 || (0x2000 <= u
        && u <= 0x200A) || u == 0x2028 || u == 0x2029 || u == 0x202F || u == 0x205F || u == 0x3000
}

fn char_width_exec(c: char) -> (r: usize)
    ensures
        r == char_width(c),
{
    let u = c as u32;
    if u <= 0x7F {
        1
    } else if u <= 0x7FF {
        2
    } else if u <= 0xFFFF {
        3
    } else {
        4
    }
}

/// The trimmed part of `cs[from..to]`, as a range of `cs`.
pub(crate) fn trim_range(cs: &[char], from: usize, to: usize) -> (r: (usize, usize))
    requires
        from <= to <= cs@.len(),
    ensures
        from <= r.0 <= r.1 <= to,
        cs@.subrange(r.0 as int, r.1 as int) == trim_ws(cs@.subrange(from as int, to as int)),
{
    let mut i = from;
    while i < to && is_white_space_char(cs[i])
        invariant
            from <= i <= to <= cs@.len(),
            trim_start_ws(cs@.subrange(from as int, to as int)) == trim_start_ws(
                cs@.subrange(i as int, to as int),
            ),
        decreases to - i,
    {
        proof {
            let t = cs@.subrange(i as int, to as int);
            assert(t.drop_first() =~= cs@.subrange(i + 1, to as int));
        }
        i = i + 1;
    }
    proof {
        let t = cs@.subrange(i as int, to as int);
        assert(trim_start_ws(t) == t);
    }
    let mut j = to;
    while j > i && is_white_space_char(cs[j - 1])
        invariant
            from <= i <= j <= to <= cs@.len(),
            trim_end_ws(cs@.subrange(i as int, to as int)) == trim_end_ws(
                cs@.subrange(i as int, j as int),
            ),
        decreases j - i,
    {
        proof {
            let t = cs@.subrange(i as int, j as int);
            assert(t.drop_last() =~= cs@.subrange(i as int, j - 1));
            assert(t.last() == cs@[j - 1]);
        }
        j = j - 1;
    }
    proof {
        let t = cs@.subrange(i as int, j as int);
        if t.len() > 0 {
            assert(t.last() == cs@[j - 1]);
        }
        assert(trim_end_ws(t) == t);
    }
    (i, j)
}

/// The character index in `t` where its encoding reaches byte `b`, if that
/// offset falls between two characters.
fn char_index_at(t: &[char], b: usize) -> (r: Option<usize>)
    requires
        b <= 64,
    ensures
        r.is_some() == is_boundary_at(t@, b as nat),
        r.is_some() ==> r.unwrap() == chars_before(t@, b as nat) && r.unwrap() <= t@.len(),
{
    let mut j: usize = 0;
    let mut off: usize = 0;
    proof {
        assert(t@.take(0) =~= Seq::<char>::empty());
    }
    while j < t.len() && off < b
        invariant
            j <= t@.len(),
            off == utf8_len(t@.take(j as int)),
            b <= 64,
            off <= b + 4,
            forall|i: int| 0 <= i < j ==> utf8_len(#[trigger] t@.take(i)) < b,
        decreases t@.len() - j,
    {
        proof {
            lemma_utf8_len_step(t@, j as int);
        }
        let w = char_width_exec(t[j]);
        off = off + w;
        j = j + 1;
    }
    if off == b {
        proof {
            assert forall|k: int| 0 <= k <= t@.len() && #[trigger] utf8_len(t@.take(k)) == b implies k
                == j by {
                if k < j {
                } else if k > j {
                    lemma_utf8_len_increases(t@, j as int, k);
                }
            }
            assert(utf8_len(t@.take(j as int)) == b);
        }
        Some(j)
    } else {
        proof {
            assert forall|k: int| 0 <= k <= t@.len() implies #[trigger] utf8_len(t@.take(k)) != b by {
                if k > j {
                    lemma_utf8_len_increases(t@, j as int, k);
                }
            }
        }
        None
    }
}

pub(crate) fn push_chars(s: &mut String, cs: &[char], from: usize, to: usize)
    requires
        from <= to <= cs@.len(),
    ensures
        final(s)@ == old(s)@ + cs@.subrange(from as int, to as int),
{
    let mut i = from;
    while i < to
        invariant
            from <= i <= to <= cs@.len(),
            s@ == old(s)@ + cs@.subrange(from as int, i as int),
        decreases to - i,
    {
        push_char(s, cs[i]);
        i = i + 1;
        assert(s@ =~= old(s)@ + cs@.subrange(from as int, i as int));
    }
}

/// Turns an ISO-8601 capture stamp into `date time zone` for display.
pub fn format_capture_date(raw: &str) -> (r: String)
    requires
        utf8_len(trim_ws(raw@)) >= 19 ==> is_boundary_at(trim_ws(raw@), 10) && is_boundary_at(
            trim_ws(raw@),
            11,
        ) && is_boundary_at(trim_ws(raw@), 19),
    ensures
        r@ == capture_date_text(raw@),
{
    let all = to_chars(raw);
    let (a, b) = trim_range(all.as_slice(), 0, all.len());
    proof {
        assert(all@.subrange(0, all@.len() as int) =~= raw@);
    }
    let mut t: Vec<char> = Vec::new();
    let mut i = a;
    while i < b
        invariant
            a <= i <= b <= all@.len(),
            t@ == all@.subrange(a as int, i as int),
        decreases b - i,
    {
        t.push(all[i]);
        i = i + 1;
        assert(t@ =~= all@.subrange(a as int, i as int));
    }
    proof {
        assert(t@ == trim_ws(raw@));
    }
    let k19 = char_index_at(t.as_slice(), 19);
    let long = match k19 {
        Some(p) => {
            proof {
                if p < t@.len() {
                    lemma_utf8_len_increases(t@, p as int, t@.len() as int);
                }
                assert(t@.take(t@.len() as int) =~= t@);
            }
            true
        },
        None => {
            // 19 bytes are there unless the encoding ends before them.
            let mut n: usize = 0;
            let mut j: usize = 0;
            proof {
                assert(t@.take(0) =~= Seq::<char>::empty());
            }
            while j < t.len() && n < 19
                invariant
                    j <= t@.len(),
                    n == utf8_len(t@.take(j as int)),
                    n <= 23,
                decreases t@.len() - j,
            {
                proof {
                    lemma_utf8_len_step(t@, j as int);
                }
                n = n + char_width_exec(t[j]);
                j = j + 1;
            }
            proof {
                if n < 19 {
                    assert(t@.take(j as int) =~= t@);
                } else if j < t@.len() {
                    lemma_utf8_len_increases(t@, j as int, t@.len() as int);
                    assert(t@.take(t@.len() as int) =~= t@);
                } else {
                    assert(t@.take(j as int) =~= t@);
                }
            }
            n >= 19
        },
    };
    if !long {
        proof {
            assert(t@.take(t@.len() as int) =~= t@);
            if utf8_len(t@) >= 19 {
                assert(utf8_len(t@) >= 19);
            }
        }
        let mut r = String::new();
        push_chars(&mut r, t.as_slice(), 0, t.len());
        assert(t@.subrange(0, t@.len() as int) =~= t@);
        return r;
    }
    let k10 = char_index_at(t.as_slice(), 10);
    let k11 = char_index_at(t.as_slice(), 11);
    match (k10, k11, k19) {
        (Some(p10), Some(p11), Some(p19)) => {
            proof {
                if p11 > p19 {
                    lemma_utf8_len_increases(t@, p19 as int, p11 as int);
                }
            }
            let mut r = String::new();
            push_chars(&mut r, t.as_slice(), 0, p10);
            push_char(&mut r, ' ');
            push_chars(&mut r, t.as_slice(), p11, p19);
            let (za, zb) = trim_range(t.as_slice(), p19, t.len());
            push_chars(&mut r, t.as_slice(), za, zb);
            proof {
                assert(t@.subrange(0, p10 as int) =~= t@.take(p10 as int));
                assert(t@.subrange(p19 as int, t@.len() as int) =~= t@.skip(p19 as int));
                assert(r@ =~= capture_date_text(raw@));
            }
            r
        },
        _ => {
            proof {
                assert(t@.take(t@.len() as int) =~= t@);
                assert(false);
            }
            String::new()
        },
    }
}


/// A duration of whole seconds as a clock: `m:ss` under an hour,
/// `h:mm:ss` from one hour on.
pub open spec fn clock_text(secs: nat) -> Seq<char> {
    let h = secs / 3600;
    let m = (secs % 3600) / 60;
    let s = secs % 60;
    if h > 0 {
        decimal(h) + ":"@ + two_digits(m) + ":"@ + two_digits(s)
    } else {
        decimal(m) + ":"@ + two_digits(s)
    }
}

/// Renders a clip's duration, given in whole seconds, as a clock.
pub fn format_duration(total_secs: u64) -> (r: String)
    ensures
        r@ == clock_text(total_secs as nat),
{
    let h = total_secs / 3600;
    let m = (total_secs % 3600) / 60;
    let sec = total_secs % 60;
    let ss = two_digit_string(sec);
    if h > 0 {
        let mut r = decimal_string(h);
        push_str(&mut r, ":");
        let mm = two_digit_string(m);
        push_str(&mut r, mm.as_str());
        push_str(&mut r, ":");
        push_str(&mut r, ss.as_str());
        r
    } else {
        let mut r = decimal_string(m);
        push_str(&mut r, ":");
        push_str(&mut r, ss.as_str());
        r
    }
}


// ---------------------------------------------------------------------------
// The clip information panel
// ---------------------------------------------------------------------------

/// `label` followed by `n` in decimal.
fn labelled_number(label: &str, n: u64, unit: &str) -> (r: String)
    ensures
        r@ == label@ + decimal(n as nat) + unit@,
{
    let mut s = owned_str(label);
    let d = decimal_string(n);
    push_str(&mut s, d.as_str());
    push_str(&mut s, unit);
    s
}

fn owned_str(s: &str) -> (r: String)
    ensures
        r@ == s@,
{
    let mut r = String::new();
    push_str(&mut r, s);
    r
}

/// The General section: heading, file name (after the last `/`), path,
/// size, container format, the capture date when known, and a blank line.
pub open spec fn general_section_text(
    path: Seq<char>,
    size: nat,
    version: u32,
    capture: Option<Seq<char>>,
) -> Seq<Seq<char>> {
    let head = seq![
        "General"@,
        "  Filename:     "@ + last_component(path, '/'),
        "  Path:         "@ + path,
        "  Size:         "@ + size_text(size),
        "  Format:       "@ + spec_format_name(version),
    ];
    match capture {
        Some(c) => head.push("  Capture Date: "@ + capture_date_text(c)).push(Seq::empty()),
        None => head.push(Seq::empty()),
    }
}

pub fn general_section(path: &str, size: u64, format_version: u32, capture_date: Option<&str>) -> (r:
    Vec<String>)
    requires
        capture_date matches Some(c) ==> (utf8_len(trim_ws(c@)) >= 19 ==> is_boundary_at(
            trim_ws(c@),
            10,
        ) && is_boundary_at(trim_ws(c@), 11) && is_boundary_at(trim_ws(c@), 19)),
    ensures
        string_views(r@) == general_section_text(
            path@,
            size as nat,
            format_version,
            match capture_date {
                Some(c) => Some(c@),
                None => None,
            },
        ),
{
    let mut lines: Vec<String> = Vec::new();
    lines.push(owned_str("General"));
    let mut l = owned_str("  Filename:     ");
    let name = last_component_of(path, '/');
    push_str(&mut l, name.as_str());
    lines.push(l);
    let mut l = owned_str("  Path:         ");
    push_str(&mut l, path);
    lines.push(l);
    let mut l = owned_str("  Size:         ");
    let sz = format_size(size);
    push_str(&mut l, sz.as_str());
    lines.push(l);
    let mut l = owned_str("  Format:       ");
    push_str(&mut l, format_name(format_version));
    lines.push(l);
    match capture_date {
        Some(c) => {
            let mut l = owned_str("  Capture Date: ");
            let d = format_capture_date(c);
            push_str(&mut l, d.as_str());
            lines.push(l);
        },
        None => {},
    }
    lines.push(String::new());
    proof {
        assert(string_views(lines@) =~= general_section_text(
            path@,
            size as nat,
            format_version,
            match capture_date {
                Some(c) => Some(c@),
                None => None,
            },
        ));
    }
    lines
}

/// The Video section: heading, resolution with its label, the frame rate
/// as the caller writes it, the duration, frame count, bit depth, Bayer
/// layout, the active area when one is set, and a blank line.
pub open spec fn video_section_text(
    width: u16,
    height: u16,
    fps_text: Seq<char>,
    duration_secs: nat,
    frames: nat,
    bit_depth: nat,
    bayer: BayerPattern,
    active: (u16, u16, u16, u16),
) -> Seq<Seq<char>> {
    let head = seq![
        "Video"@,
        "  Resolution:   "@ + decimal(width as nat) + "x"@ + decimal(height as nat) + " ("@
            + spec_resolution_label(width, height) + ")"@,
        "  FPS:          "@ + fps_text,
        "  Duration:     "@ + clock_text(duration_secs),
        "  Frames:       "@ + decimal(frames),
        "  Bit Depth:    "@ + decimal(bit_depth) + "-bit"@,
        "  Bayer:        "@ + bayer.spec_name(),
    ];
    if active.0 > 0 && active.1 > 0 {
        head.push(
            "  Active Area:  "@ + decimal(active.0 as nat) + "x"@ + decimal(active.1 as nat) + " @("@
                + decimal(active.2 as nat) + ","@ + decimal(active.3 as nat) + ")"@,
        ).push(Seq::empty())
    } else {
        head.push(Seq::empty())
    }
}

/// `active` is the active area as (width, height, x offset, y offset).
pub fn video_section(
    width: u16,
    height: u16,
    fps_text: &str,
    duration_secs: u64,
    frames: u32,
    bit_depth: u16,
    bayer: BayerPattern,
    active: (u16, u16, u16, u16),
) -> (r: Vec<String>)
    ensures
        string_views(r@) == video_section_text(
            width,
            height,
            fps_text@,
            duration_secs as nat,
            frames as nat,
            bit_depth as nat,
            bayer,
            active,
        ),
{
    let mut l1 = labelled_number("  Resolution:   ", width as u64, "x");
    let h = decimal_string(height as u64);
    push_str(&mut l1, h.as_str());
    push_str(&mut l1, " (");
    push_str(&mut l1, resolution_label(width, height));
    push_str(&mut l1, ")");
    let mut l2 = owned_str("  FPS:          ");
    push_str(&mut l2, fps_text);
    let mut l3 = owned_str("  Duration:     ");
    let d = format_duration(duration_secs);
    push_str(&mut l3, d.as_str());
    let l4 = labelled_number("  Frames:       ", frames as u64, "");
    let l5 = labelled_number("  Bit Depth:    ", bit_depth as u64, "-bit");
    let mut l6 = owned_str("  Bayer:        ");
    push_str(&mut l6, bayer.name());
    let ghost spec_lines = video_section_text(
        width,
        height,
        fps_text@,
        duration_secs as nat,
        frames as nat,
        bit_depth as nat,
        bayer,
        active,
    );
    proof {
        reveal_strlit("");
        assert(l4@ =~= "  Frames:       "@ + decimal(frames as nat));
    }
    let mut lines: Vec<String> = Vec::new();
    lines.push(owned_str("Video"));
    lines.push(l1);
    lines.push(l2);
    lines.push(l3);
    lines.push(l4);
    lines.push(l5);
    lines.push(l6);
    if active.0 > 0 && active.1 > 0 {
        let mut l = labelled_number("  Active Area:  ", active.0 as u64, "x");
        let ah = decimal_string(active.1 as u64);
        push_str(&mut l, ah.as_str());
        push_str(&mut l, " @(");
        let ax = decimal_string(active.2 as u64);
        push_str(&mut l, ax.as_str());
        push_str(&mut l, ",");
        let ay = decimal_string(active.3 as u64);
        push_str(&mut l, ay.as_str());
        push_str(&mut l, ")");
        lines.push(l);
    }
    lines.push(String::new());
    proof {
        assert(string_views(lines@) =~= spec_lines);
    }
    lines
}

/// How a channel count reads: mono, stereo or multi.
pub open spec fn channel_name(channels: nat) -> Seq<char> {
    if channels == 1 {
        "mono"@
    } else if channels == 2 {
        "stereo"@
    } else {
        "multi"@
    }
}

/// The Audio section: heading; without audio one line that says so;
/// with audio, that it has some, the sample rate and channels when known,
/// the audio's length and offset when known; then a blank line.
pub open spec fn audio_section_text(
    has_audio: bool,
    sample_rate: nat,
    channels: nat,
    length: Option<u64>,
    offset: Option<u64>,
) -> Seq<Seq<char>> {
    let body = if has_audio {
        let a = seq!["  Has Audio:    Yes"@];
        let b = if sample_rate > 0 {
            a.push("  Sample Rate:  "@ + decimal(sample_rate) + " Hz"@)
        } else {
            a
        };
        let c = if channels > 0 {
            b.push("  Channels:    "@ + decimal(channels) + " ("@ + channel_name(channels) + ")"@)
        } else {
            b
        };
        let d = match length {
            Some(n) => c.push("  Audio Length: "@ + decimal(n as nat) + " bytes"@),
            None => c,
        };
        match offset {
            Some(n) => d.push("  Audio Offset: "@ + decimal(n as nat) + " bytes"@),
            None => d,
        }
    } else {
        seq!["  Has Audio:    No"@]
    };
    seq!["Audio"@] + body.push(Seq::empty())
}

pub fn audio_section(
    has_audio: bool,
    sample_rate: u32,
    channels: u16,
    length: Option<u64>,
    offset: Option<u64>,
) -> (r: Vec<String>)
    ensures
        string_views(r@) == audio_section_text(
            has_audio,
            sample_rate as nat,
            channels as nat,
            length,
            offset,
        ),
{
    let mut lines: Vec<String> = Vec::new();
    lines.push(owned_str("Audio"));
    let ghost first = string_views(lines@);
    if has_audio {
        lines.push(owned_str("  Has Audio:    Yes"));
        if sample_rate > 0 {
            lines.push(labelled_number("  Sample Rate:  ", sample_rate as u64, " Hz"));
        }
        if channels > 0 {
            let mut l = labelled_number("  Channels:    ", channels as u64, " (");
            let name = if channels == 1 {
                "mono"
            } else if channels == 2 {
                "stereo"
            } else {
                "multi"
            };
            push_str(&mut l, name);
            push_str(&mut l, ")");
            lines.push(l);
        }
        match length {
            Some(n) => lines.push(labelled_number("  Audio Length: ", n, " bytes")),
            None => {},
        }
        match offset {
            Some(n) => lines.push(labelled_number("  Audio Offset: ", n, " bytes")),
            None => {},
        }
    } else {
        lines.push(owned_str("  Has Audio:    No"));
    }
    lines.push(String::new());
    proof {
        assert(string_views(lines@) =~= audio_section_text(
            has_audio,
            sample_rate as nat,
            channels as nat,
            length,
            offset,
        ));
    }
    lines
}

/// A signed integer in decimal, with `-` before a negative one.
pub open spec fn signed_decimal(v: int) -> Seq<char> {
    if v < 0 {
        "-"@ + decimal((-v) as nat)
    } else {
        decimal(v as nat)
    }
}

fn signed_decimal_string(v: i32) -> (r: String)
    ensures
        r@ == signed_decimal(v as int),
{
    if v < 0 {
        let mut s = owned_str("-");
        let m = (-(v as i64)) as u64;
        let d = decimal_string(m);
        push_str(&mut s, d.as_str());
        s
    } else {
        decimal_string(v as u64)
    }
}

/// One line `pre` + `v` + `post` when there is a `v`, else none.
pub open spec fn opt_line(v: Option<Seq<char>>, pre: Seq<char>, post: Seq<char>) -> Seq<Seq<char>> {
    match v {
        Some(t) => seq![pre + t + post],
        None => Seq::empty(),
    }
}

/// The Camera section: heading, then each field that is known, and a blank
/// line. Values that are floats come as the text they are shown as: the
/// focal length and aperture with one decimal, the exposure time as
/// rendered, the white balance in whole kelvin and each colour matrix as
/// its nine entries with two decimals, comma-separated.
pub open spec fn camera_section_text(
    model: Option<Seq<char>>,
    lens: Option<Seq<char>>,
    focal_length: Option<Seq<char>>,
    aperture: Option<Seq<char>>,
    iso: Option<u32>,
    exposure: Option<Seq<char>>,
    white_balance: Option<Seq<char>>,
    color_matrix1: Option<Seq<char>>,
    color_matrix2: Option<Seq<char>>,
    illuminants: Option<(i32, i32)>,
) -> Seq<Seq<char>> {
    seq!["Camera"@] + (match model {
        Some(m) => if m.len() > 0 {
            seq!["  Camera:       "@ + m]
        } else {
            Seq::empty()
        },
        None => Seq::empty(),
    }) + opt_line(lens, "  Lens:         "@, ""@) + opt_line(focal_length, "  Focal Length: "@, "mm"@)
        + opt_line(aperture, "  Aperture:     f/"@, ""@) + (match iso {
        Some(i) => seq!["  ISO:          "@ + decimal(i as nat)],
        None => Seq::empty(),
    }) + opt_line(exposure, "  Exposure:     "@, ""@) + opt_line(
        white_balance,
        "  White Balance:"@,
        "K"@,
    ) + opt_line(color_matrix1, "  Color Matrix1: ["@, "]"@) + opt_line(
        color_matrix2,
        "  Color Matrix2: ["@,
        "]"@,
    ) + (match illuminants {
        Some((a, b)) => seq!["  Cal Illuminants: "@ + signed_decimal(a as int) + " / "@ + signed_decimal(b as int)],
        None => Seq::empty(),
    }) + seq![Seq::<char>::empty()]
}

pub open spec fn opt_view(v: Option<&str>) -> Option<Seq<char>> {
    match v {
        Some(t) => Some(t@),
        None => None,
    }
}

fn push_opt_line(lines: &mut Vec<String>, v: Option<&str>, pre: &str, post: &str)
    ensures
        string_views(final(lines)@) == string_views(old(lines)@) + opt_line(opt_view(v), pre@, post@),
{
    let ghost before = string_views(lines@);
    match v {
        Some(t) => {
            let mut l = owned_str(pre);
            push_str(&mut l, t);
            push_str(&mut l, post);
            lines.push(l);
        },
        None => {},
    }
    proof {
        assert(string_views(lines@) =~= before + opt_line(opt_view(v), pre@, post@));
    }
}

/// The Camera section of the information panel.
pub fn camera_section(
    model: Option<&str>,
    lens: Option<&str>,
    focal_length: Option<&str>,
    aperture: Option<&str>,
    iso: Option<u32>,
    exposure: Option<&str>,
    white_balance: Option<&str>,
    color_matrix1: Option<&str>,
    color_matrix2: Option<&str>,
    illuminants: Option<(i32, i32)>,
) -> (r: Vec<String>)
    ensures
        string_views(r@) == camera_section_text(
            opt_view(model),
            opt_view(lens),
            opt_view(focal_length),
            opt_view(aperture),
            iso,
            opt_view(exposure),
            opt_view(white_balance),
            opt_view(color_matrix1),
            opt_view(color_matrix2),
            illuminants,
        ),
{
    let mut lines: Vec<String> = Vec::new();
    lines.push(owned_str("Camera"));
    let ghost s0 = string_views(lines@);
    assert(s0 =~= seq!["Camera"@]) by {
        reveal_strlit("Camera");
    }
    match model {
        Some(m) => {
            if m.unicode_len() > 0 {
                let mut l = owned_str("  Camera:       ");
                push_str(&mut l, m);
                lines.push(l);
            }
        },
        None => {},
    }
    let ghost s1 = string_views(lines@);
    assert(s1 =~= s0 + (match opt_view(model) {
        Some(m) => if m.len() > 0 {
            seq!["  Camera:       "@ + m]
        } else {
            Seq::empty()
        },
        None => Seq::empty(),
    }));
    push_opt_line(&mut lines, lens, "  Lens:         ", "");
    push_opt_line(&mut lines, focal_length, "  Focal Length: ", "mm");
    push_opt_line(&mut lines, aperture, "  Aperture:     f/", "");
    let ghost s2 = string_views(lines@);
    match iso {
        Some(i) => lines.push(labelled_number("  ISO:          ", i as u64, "")),
        None => {},
    }
    let ghost s3 = string_views(lines@);
    assert(s3 =~= s2 + (match iso {
        Some(i) => seq!["  ISO:          "@ + decimal(i as nat)],
        None => Seq::empty(),
    })) by {
        reveal_strlit("");
        if let Some(i) = iso {
            assert("  ISO:          "@ + decimal(i as nat) + ""@ =~= "  ISO:          "@ + decimal(i as nat));
        }
    }
    push_opt_line(&mut lines, exposure, "  Exposure:     ", "");
    push_opt_line(&mut lines, white_balance, "  White Balance:", "K");
    push_opt_line(&mut lines, color_matrix1, "  Color Matrix1: [", "]");
    push_opt_line(&mut lines, color_matrix2, "  Color Matrix2: [", "]");
    let ghost s4 = string_views(lines@);
    match illuminants {
        Some((a, b)) => {
            let mut l = owned_str("  Cal Illuminants: ");
            let x = signed_decimal_string(a);
            push_str(&mut l, x.as_str());
            push_str(&mut l, " / ");
            let y = signed_decimal_string(b);
            push_str(&mut l, y.as_str());
            lines.push(l);
        },
        None => {},
    }
    let ghost s5 = string_views(lines@);
    assert(s5 =~= s4 + (match illuminants {
        Some((a, b)) => seq!["  Cal Illuminants: "@ + signed_decimal(a as int) + " / "@ + signed_decimal(b as int)],
        None => Seq::empty(),
    }));
    lines.push(String::new());
    proof {
        assert(string_views(lines@) =~= camera_section_text(
            opt_view(model),
            opt_view(lens),
            opt_view(focal_length),
            opt_view(aperture),
            iso,
            opt_view(exposure),
            opt_view(white_balance),
            opt_view(color_matrix1),
            opt_view(color_matrix2),
            illuminants,
        ));
    }
    lines
}

} // verus!

//! Export codec settings: the codec families and their profiles, the
//! rate-control presets, and the FFmpeg arguments built from them.

use vstd::prelude::*;
use crate::text::{owned, push_str, str_eq, to_chars, starts_with, ends_with, str_starts_with, str_ends_with};

verus! {

broadcast use vstd::string::group_string_axioms;

/// The character views of a sequence of strings.
pub open spec fn views(v: Seq<String>) -> Seq<Seq<char>> {
    v.map_values(|s: String| s@)
}

/// The character views of a sequence of string slices.
pub open spec fn str_views(v: Seq<&str>) -> Seq<Seq<char>> {
    v.map_values(|s: &str| s@)
}

/// Appends owned copies of `items` to `v`.
pub fn push_strs(v: &mut Vec<String>, items: &[&str])
    ensures
        views(final(v)@) == views(old(v)@) + str_views(items@),
{
    let mut i: usize = 0;
    while i < items.len()
        invariant
            i <= items@.len(),
            views(v@) == views(old(v)@) + str_views(items@.take(i as int)),
        decreases items@.len() - i,
    {
        let s = owned(items[i]);
        let ghost before = v@;
        v.push(s);
        proof {
            assert(items@.take(i + 1) =~= items@.take(i as int).push(items@[i as int]));
            assert(str_views(items@.take(i + 1)) =~= str_views(items@.take(i as int)).push(items@[i as int]@));
            assert(views(v@) =~= views(before).push(s@));
        }
        i = i + 1;
        assert(views(v@) =~= views(old(v)@) + str_views(items@.take(i as int)));
    }
    assert(items@.take(items@.len() as int) =~= items@);
}

/// Appends `more` to `v`.
pub fn append_strings(v: &mut Vec<String>, more: Vec<String>)
    ensures
        views(final(v)@) == views(old(v)@) + views(more@),
{
    let mut more = more;
    let ghost m0 = more@;
    let mut i: usize = 0;
    let n = more.len();
    while i < n
        invariant
            n == m0.len(),
            i <= n,
            more@ == m0,
            views(v@) == views(old(v)@) + views(m0.take(i as int)),
        decreases n - i,
    {
        let s = more[i].clone();
        let ghost before = v@;
        v.push(s);
        proof {
            assert(m0.take(i + 1) =~= m0.take(i as int).push(m0[i as int]));
            assert(views(m0.take(i + 1)) =~= views(m0.take(i as int)).push(m0[i as int]@));
            assert(views(v@) =~= views(before).push(s@));
        }
        i = i + 1;
        assert(views(v@) =~= views(old(v)@) + views(m0.take(i as int)));
    }
    assert(m0.take(n as int) =~= m0);
}

// ---------------------------------------------------------------------------
// Codec families and profiles
// ---------------------------------------------------------------------------

/// Video codec families offered for export.
#[derive(Debug, Clone, Copy, PartialEq, Eq, Structural)]
pub enum CodecFamily {
    ProRes,
    DNxHR,
    HEVC,
    H264,
    AV1,
    VP9,
}

impl CodecFamily {
    /// Position of the family in the cycle order of `all`.
    pub open spec fn spec_index(self) -> int {
        match self {
            CodecFamily::ProRes => 0,
            CodecFamily::DNxHR => 1,
            CodecFamily::HEVC => 2,
            CodecFamily::H264 => 3,
            CodecFamily::AV1 => 4,
            CodecFamily::VP9 => 5,
        }
    }

    pub open spec fn spec_all() -> Seq<CodecFamily> {
        seq![
            CodecFamily::ProRes,
            CodecFamily::DNxHR,
            CodecFamily::HEVC,
            CodecFamily::H264,
            CodecFamily::AV1,
            CodecFamily::VP9,
        ]
    }

    pub open spec fn spec_name(self) -> Seq<char> {
        match self {
            CodecFamily::ProRes => "ProRes"@,
            CodecFamily::DNxHR => "DNxHR"@,
            CodecFamily::HEVC => "HEVC"@,
            CodecFamily::H264 => "H.264"@,
            CodecFamily::AV1 => "AV1"@,
            CodecFamily::VP9 => "VP9"@,
        }
    }

    pub open spec fn spec_next(self) -> CodecFamily {
        Self::spec_all()[(self.spec_index() + 1) % 6]
    }

    pub open spec fn spec_prev(self) -> CodecFamily {
        Self::spec_all()[(self.spec_index() + 5) % 6]
    }

    pub fn name(&self) -> (r: &'static str)
        ensures
            r@ == self.spec_name(),
    {
        match self {
            CodecFamily::ProRes => "ProRes",
            CodecFamily::DNxHR => "DNxHR",
            CodecFamily::HEVC => "HEVC",
            CodecFamily::H264 => "H.264",
            CodecFamily::AV1 => "AV1",
            CodecFamily::VP9 => "VP9",
        }
    }

    pub fn all() -> (r: &'static [CodecFamily])
        ensures
            r@ == Self::spec_all(),
    {
        &[
            CodecFamily::ProRes,
            CodecFamily::DNxHR,
            CodecFamily::HEVC,
            CodecFamily::H264,
            CodecFamily::AV1,
            CodecFamily::VP9,
        ]
    }

    fn position(self) -> (r: usize)
        ensures
            r == self.spec_index(),
    {
        match self {
            CodecFamily::ProRes => 0,
            CodecFamily::DNxHR => 1,
            CodecFamily::HEVC => 2,
            CodecFamily::H264 => 3,
            CodecFamily::AV1 => 4,
            CodecFamily::VP9 => 5,
        }
    }

    pub fn next(self) -> (r: Self)
        ensures
            r == self.spec_next(),
    {
        let all = Self::all();
        all[(self.position() + 1) % all.len()]
    }

    pub fn prev(self) -> (r: Self)
        ensures
            r == self.spec_prev(),
    {
        let all = Self::all();
        all[(self.position() + all.len() - 1) % all.len()]
    }
}

/// `next` and `prev` undo each other, and `all` lists every family at its
/// own index.
pub proof fn lemma_codec_family_cycle(x: CodecFamily)
    ensures
        x.spec_next().spec_prev() == x,
        x.spec_prev().spec_next() == x,
        0 <= x.spec_index() < CodecFamily::spec_all().len(),
        CodecFamily::spec_all()[x.spec_index()] == x,
{
}

/// ProRes profiles.
#[derive(Debug, Clone, Copy, PartialEq, Eq, Structural)]
pub enum ProResProfile {
    Proxy,
    LT,
    Standard,
    HQ,
    P4444,
    XQ4444,
}

impl ProResProfile {
    /// Position in the cycle order of `all`.
    pub open spec fn spec_index(self) -> int {
        match self {
            ProResProfile::Proxy => 0,
            ProResProfile::LT => 1,
            ProResProfile::Standard => 2,
            ProResProfile::HQ => 3,
            ProResProfile::P4444 => 4,
            ProResProfile::XQ4444 => 5,
        }
    }

    pub open spec fn spec_all() -> Seq<ProResProfile> {
        seq![
            ProResProfile::Proxy,
            ProResProfile::LT,
            ProResProfile::Standard,
            ProResProfile::HQ,
            ProResProfile::P4444,
            ProResProfile::XQ4444,
        ]
    }

    pub open spec fn spec_name(self) -> Seq<char> {
        match self {
            ProResProfile::Proxy => "Proxy"@,
            ProResProfile::LT => "LT"@,
            ProResProfile::Standard => "Standard"@,
            ProResProfile::HQ => "HQ"@,
            ProResProfile::P4444 => "4444"@,
            ProResProfile::XQ4444 => "4444 XQ"@,
        }
    }

    pub open spec fn spec_next(self) -> ProResProfile {
        Self::spec_all()[(self.spec_index() + 1) % 6]
    }

    pub open spec fn spec_prev(self) -> ProResProfile {
        Self::spec_all()[(self.spec_index() + 5) % 6]
    }

    pub fn name(&self) -> (r: &'static str)
        ensures
            r@ == self.spec_name(),
    {
        match self {
            ProResProfile::Proxy => "Proxy",
            ProResProfile::LT => "LT",
            ProResProfile::Standard => "Standard",
            ProResProfile::HQ => "HQ",
            ProResProfile::P4444 => "4444",
            ProResProfile::XQ4444 => "4444 XQ",
        }
    }


    pub fn all() -> (r: &'static [ProResProfile])
        ensures
            r@ == Self::spec_all(),
    {
        &[
            ProResProfile::Proxy,
            ProResProfile::LT,
            ProResProfile::Standard,
            ProResProfile::HQ,
            ProResProfile::P4444,
            ProResProfile::XQ4444,
        ]
    }

    fn position(self) -> (r: usize)
        ensures
            r == self.spec_index(),
    {
        match self {
            ProResProfile::Proxy => 0,
            ProResProfile::LT => 1,
            ProResProfile::Standard => 2,
            ProResProfile::HQ => 3,
            ProResProfile::P4444 => 4,
            ProResProfile::XQ4444 => 5,
        }
    }

    pub fn next(self) -> (r: Self)
        ensures
            r == self.spec_next(),
    {
        let all = Self::all();
        all[(self.position() + 1) % all.len()]
    }

    pub fn prev(self) -> (r: Self)
        ensures
            r == self.spec_prev(),
    {
        let all = Self::all();
        all[(self.position() + all.len() - 1) % all.len()]
    }
}

/// `next` and `prev` undo each other, and `all` lists every value at its
/// own index.
pub proof fn lemma_prores_profile_cycle(x: ProResProfile)
    ensures
        x.spec_next().spec_prev() == x,
        x.spec_prev().spec_next() == x,
        0 <= x.spec_index() < ProResProfile::spec_all().len(),
        ProResProfile::spec_all()[x.spec_index()] == x,
{
}

/// DNxHR profiles.
#[derive(Debug, Clone, Copy, PartialEq, Eq, Structural)]
pub enum DnxhrProfile {
    SQ,
    HD,
    HDX,
    HQX,
    P444,
}

impl DnxhrProfile {
    /// Position in the cycle order of `all`.
    pub open spec fn spec_index(self) -> int {
        match self {
            DnxhrProfile::SQ => 0,
            DnxhrProfile::HD => 1,
            DnxhrProfile::HDX => 2,
            DnxhrProfile::HQX => 3,
            DnxhrProfile::P444 => 4,
        }
    }

    pub open spec fn spec_all() -> Seq<DnxhrProfile> {
        seq![
            DnxhrProfile::SQ,
            DnxhrProfile::HD,
            DnxhrProfile::HDX,
            DnxhrProfile::HQX,
            DnxhrProfile::P444,
        ]
    }

    pub open spec fn spec_name(self) -> Seq<char> {
        match self {
            DnxhrProfile::SQ => "SQ"@,
            DnxhrProfile::HD => "HD"@,
            DnxhrProfile::HDX => "HDX"@,
            DnxhrProfile::HQX => "HQX"@,
            DnxhrProfile::P444 => "444"@,
        }
    }

    pub open spec fn spec_next(self) -> DnxhrProfile {
        Self::spec_all()[(self.spec_index() + 1) % 5]
    }

    pub open spec fn spec_prev(self) -> DnxhrProfile {
        Self::spec_all()[(self.spec_index() + 4) % 5]
    }

    pub fn name(&self) -> (r: &'static str)
        ensures
            r@ == self.spec_name(),
    {
        match self {
            DnxhrProfile::SQ => "SQ",
            DnxhrProfile::HD => "HD",
            DnxhrProfile::HDX => "HDX",
            DnxhrProfile::HQX => "HQX",
            DnxhrProfile::P444 => "444",
        }
    }


    pub fn all() -> (r: &'static [DnxhrProfile])
        ensures
            r@ == Self::spec_all(),
    {
        &[
            DnxhrProfile::SQ,
            DnxhrProfile::HD,
            DnxhrProfile::HDX,
            DnxhrProfile::HQX,
            DnxhrProfile::P444,
        ]
    }

    fn position(self) -> (r: usize)
        ensures
            r == self.spec_index(),
    {
        match self {
            DnxhrProfile::SQ => 0,
            DnxhrProfile::HD => 1,
            DnxhrProfile::HDX => 2,
            DnxhrProfile::HQX => 3,
            DnxhrProfile::P444 => 4,
        }
    }

    pub fn next(self) -> (r: Self)
        ensures
            r == self.spec_next(),
    {
        let all = Self::all();
        all[(self.position() + 1) % all.len()]
    }

    pub fn prev(self) -> (r: Self)
        ensures
            r == self.spec_prev(),
    {
        let all = Self::all();
        all[(self.position() + all.len() - 1) % all.len()]
    }
}

/// `next` and `prev` undo each other, and `all` lists every value at its
/// own index.
pub proof fn lemma_dnxhr_profile_cycle(x: DnxhrProfile)
    ensures
        x.spec_next().spec_prev() == x,
        x.spec_prev().spec_next() == x,
        0 <= x.spec_index() < DnxhrProfile::spec_all().len(),
        DnxhrProfile::spec_all()[x.spec_index()] == x,
{
}

/// HEVC profiles.
#[derive(Debug, Clone, Copy, PartialEq, Eq, Structural)]
pub enum HevcProfile {
    Main10_420,
    Main10_444,
}

impl HevcProfile {
    /// Position in the cycle order of `all`.
    pub open spec fn spec_index(self) -> int {
        match self {
            HevcProfile::Main10_420 => 0,
            HevcProfile::Main10_444 => 1,
        }
    }

    pub open spec fn spec_all() -> Seq<HevcProfile> {
        seq![
            HevcProfile::Main10_420,
            HevcProfile::Main10_444,
        ]
    }

    pub open spec fn spec_name(self) -> Seq<char> {
        match self {
            HevcProfile::Main10_420 => "Main 10 4:2:0"@,
            HevcProfile::Main10_444 => "Main 10 4:4:4"@,
        }
    }

    pub open spec fn spec_next(self) -> HevcProfile {
        Self::spec_all()[(self.spec_index() + 1) % 2]
    }

    pub open spec fn spec_prev(self) -> HevcProfile {
        Self::spec_all()[(self.spec_index() + 1) % 2]
    }

    pub fn name(&self) -> (r: &'static str)
        ensures
            r@ == self.spec_name(),
    {
        match self {
            HevcProfile::Main10_420 => "Main 10 4:2:0",
            HevcProfile::Main10_444 => "Main 10 4:4:4",
        }
    }

    pub open spec fn spec_is_8bit(self) -> bool {
        false
    }

    pub fn is_8bit(&self) -> (r: bool)
        ensures
            r == self.spec_is_8bit(),
    {
        false
    }

    pub fn all() -> (r: &'static [HevcProfile])
        ensures
            r@ == Self::spec_all(),
    {
        &[
            HevcProfile::Main10_420,
            HevcProfile::Main10_444,
        ]
    }

    fn position(self) -> (r: usize)
        ensures
            r == self.spec_index(),
    {
        match self {
            HevcProfile::Main10_420 => 0,
            HevcProfile::Main10_444 => 1,
        }
    }

    pub fn next(self) -> (r: Self)
        ensures
            r == self.spec_next(),
    {
        let all = Self::all();
        all[(self.position() + 1) % all.len()]
    }

    pub fn prev(self) -> (r: Self)
        ensures
            r == self.spec_prev(),
    {
        let all = Self::all();
        all[(self.position() + all.len() - 1) % all.len()]
    }
}

/// `next` and `prev` undo each other, and `all` lists every value at its
/// own index.
pub proof fn lemma_hevc_profile_cycle(x: HevcProfile)
    ensures
        x.spec_next().spec_prev() == x,
        x.spec_prev().spec_next() == x,
        0 <= x.spec_index() < HevcProfile::spec_all().len(),
        HevcProfile::spec_all()[x.spec_index()] == x,
{
}

/// H.264 profiles.
#[derive(Debug, Clone, Copy, PartialEq, Eq, Structural)]
pub enum H264Profile {
    Main8bit,
    High10bit,
}

impl H264Profile {
    /// Position in the cycle order of `all`.
    pub open spec fn spec_index(self) -> int {
        match self {
            H264Profile::Main8bit => 0,
            H264Profile::High10bit => 1,
        }
    }

    pub open spec fn spec_all() -> Seq<H264Profile> {
        seq![
            H264Profile::Main8bit,
            H264Profile::High10bit,
        ]
    }

    pub open spec fn spec_name(self) -> Seq<char> {
        match self {
            H264Profile::Main8bit => "Main 8-bit"@,
            H264Profile::High10bit => "High 10-bit"@,
        }
    }

    pub open spec fn spec_next(self) -> H264Profile {
        Self::spec_all()[(self.spec_index() + 1) % 2]
    }

    pub open spec fn spec_prev(self) -> H264Profile {
        Self::spec_all()[(self.spec_index() + 1) % 2]
    }

    pub fn name(&self) -> (r: &'static str)
        ensures
            r@ == self.spec_name(),
    {
        match self {
            H264Profile::Main8bit => "Main 8-bit",
            H264Profile::High10bit => "High 10-bit",
        }
    }

    pub open spec fn spec_is_8bit(self) -> bool {
        self is Main8bit
    }

    pub fn is_8bit(&self) -> (r: bool)
        ensures
            r == self.spec_is_8bit(),
    {
        matches!(self, H264Profile::Main8bit)
    }

    pub fn all() -> (r: &'static [H264Profile])
        ensures
            r@ == Self::spec_all(),
    {
        &[
            H264Profile::Main8bit,
            H264Profile::High10bit,
        ]
    }

    fn position(self) -> (r: usize)
        ensures
            r == self.spec_index(),
    {
        match self {
            H264Profile::Main8bit => 0,
            H264Profile::High10bit => 1,
        }
    }

    pub fn next(self) -> (r: Self)
        ensures
            r == self.spec_next(),
    {
        let all = Self::all();
        all[(self.position() + 1) % all.len()]
    }

    pub fn prev(self) -> (r: Self)
        ensures
            r == self.spec_prev(),
    {
        let all = Self::all();
        all[(self.position() + all.len() - 1) % all.len()]
    }
}

/// `next` and `prev` undo each other, and `all` lists every value at its
/// own index.
pub proof fn lemma_h264_profile_cycle(x: H264Profile)
    ensures
        x.spec_next().spec_prev() == x,
        x.spec_prev().spec_next() == x,
        0 <= x.spec_index() < H264Profile::spec_all().len(),
        H264Profile::spec_all()[x.spec_index()] == x,
{
}

/// AV1 profiles.
#[derive(Debug, Clone, Copy, PartialEq, Eq, Structural)]
pub enum Av1Profile {
    Profile0_420_10bit,
    Profile1_444_10bit,
}

impl Av1Profile {
    /// Position in the cycle order of `all`.
    pub open spec fn spec_index(self) -> int {
        match self {
            Av1Profile::Profile0_420_10bit => 0,
            Av1Profile::Profile1_444_10bit => 1,
        }
    }

    pub open spec fn spec_all() -> Seq<Av1Profile> {
        seq![
            Av1Profile::Profile0_420_10bit,
            Av1Profile::Profile1_444_10bit,
        ]
    }

    pub open spec fn spec_name(self) -> Seq<char> {
        match self {
            Av1Profile::Profile0_420_10bit => "Profile 0 4:2:0 10-bit"@,
            Av1Profile::Profile1_444_10bit => "Profile 1 4:4:4 10-bit"@,
        }
    }

    pub open spec fn spec_next(self) -> Av1Profile {
        Self::spec_all()[(self.spec_index() + 1) % 2]
    }

    pub open spec fn spec_prev(self) -> Av1Profile {
        Self::spec_all()[(self.spec_index() + 1) % 2]
    }

    pub fn name(&self) -> (r: &'static str)
        ensures
            r@ == self.spec_name(),
    {
        match self {
            Av1Profile::Profile0_420_10bit => "Profile 0 4:2:0 10-bit",
            Av1Profile::Profile1_444_10bit => "Profile 1 4:4:4 10-bit",
        }
    }

    pub open spec fn spec_is_8bit(self) -> bool {
        false
    }

    pub fn is_8bit(&self) -> (r: bool)
        ensures
            r == self.spec_is_8bit(),
    {
        false
    }

    pub fn all() -> (r: &'static [Av1Profile])
        ensures
            r@ == Self::spec_all(),
    {
        &[
            Av1Profile::Profile0_420_10bit,
            Av1Profile::Profile1_444_10bit,
        ]
    }

    fn position(self) -> (r: usize)
        ensures
            r == self.spec_index(),
    {
        match self {
            Av1Profile::Profile0_420_10bit => 0,
            Av1Profile::Profile1_444_10bit => 1,
        }
    }

    pub fn next(self) -> (r: Self)
        ensures
            r == self.spec_next(),
    {
        let all = Self::all();
        all[(self.position() + 1) % all.len()]
    }

    pub fn prev(self) -> (r: Self)
        ensures
            r == self.spec_prev(),
    {
        let all = Self::all();
        all[(self.position() + all.len() - 1) % all.len()]
    }
}

/// `next` and `prev` undo each other, and `all` lists every value at its
/// own index.
pub proof fn lemma_av1_profile_cycle(x: Av1Profile)
    ensures
        x.spec_next().spec_prev() == x,
        x.spec_prev().spec_next() == x,
        0 <= x.spec_index() < Av1Profile::spec_all().len(),
        Av1Profile::spec_all()[x.spec_index()] == x,
{
}

/// VP9 profiles.
#[derive(Debug, Clone, Copy, PartialEq, Eq, Structural)]
pub enum Vp9Profile {
    Profile2_420_10bit,
    Profile3_444_10bit,
}

impl Vp9Profile {
    /// Position in the cycle order of `all`.
    pub open spec fn spec_index(self) -> int {
        match self {
            Vp9Profile::Profile2_420_10bit => 0,
            Vp9Profile::Profile3_444_10bit => 1,
        }
    }

    pub open spec fn spec_all() -> Seq<Vp9Profile> {
        seq![
            Vp9Profile::Profile2_420_10bit,
            Vp9Profile::Profile3_444_10bit,
        ]
    }

    pub open spec fn spec_name(self) -> Seq<char> {
        match self {
            Vp9Profile::Profile2_420_10bit => "Profile 2 4:2:0 10-bit"@,
            Vp9Profile::Profile3_444_10bit => "Profile 3 4:4:4 10-bit"@,
        }
    }

    pub open spec fn spec_next(self) -> Vp9Profile {
        Self::spec_all()[(self.spec_index() + 1) % 2]
    }

    pub open spec fn spec_prev(self) -> Vp9Profile {
        Self::spec_all()[(self.spec_index() + 1) % 2]
    }

    pub fn name(&self) -> (r: &'static str)
        ensures
            r@ == self.spec_name(),
    {
        match self {
            Vp9Profile::Profile2_420_10bit => "Profile 2 4:2:0 10-bit",
            Vp9Profile::Profile3_444_10bit => "Profile 3 4:4:4 10-bit",
        }
    }

    pub open spec fn spec_is_8bit(self) -> bool {
        false
    }

    pub fn is_8bit(&self) -> (r: bool)
        ensures
            r == self.spec_is_8bit(),
    {
        false
    }

    pub fn all() -> (r: &'static [Vp9Profile])
        ensures
            r@ == Self::spec_all(),
    {
        &[
            Vp9Profile::Profile2_420_10bit,
            Vp9Profile::Profile3_444_10bit,
        ]
    }

    fn position(self) -> (r: usize)
        ensures
            r == self.spec_index(),
    {
        match self {
            Vp9Profile::Profile2_420_10bit => 0,
            Vp9Profile::Profile3_444_10bit => 1,
        }
    }

    pub fn next(self) -> (r: Self)
        ensures
            r == self.spec_next(),
    {
        let all = Self::all();
        all[(self.position() + 1) % all.len()]
    }

    pub fn prev(self) -> (r: Self)
        ensures
            r == self.spec_prev(),
    {
        let all = Self::all();
        all[(self.position() + all.len() - 1) % all.len()]
    }
}

/// `next` and `prev` undo each other, and `all` lists every value at its
/// own index.
pub proof fn lemma_vp9_profile_cycle(x: Vp9Profile)
    ensures
        x.spec_next().spec_prev() == x,
        x.spec_prev().spec_next() == x,
        0 <= x.spec_index() < Vp9Profile::spec_all().len(),
        Vp9Profile::spec_all()[x.spec_index()] == x,
{
}

// ---------------------------------------------------------------------------
// Decimal float syntax
// ---------------------------------------------------------------------------

pub open spec fn is_digit(c: char) -> bool {
    '0' <= c && c <= '9'
}

pub open spec fn all_digits(s: Seq<char>) -> bool {
    forall|i: int| 0 <= i < s.len() ==> is_digit(#[trigger] s[i])
}

pub open spec fn is_sign(c: char) -> bool {
    c == '+' || c == '-'
}

/// ASCII lower-casing of one character; other characters are unchanged.
pub open spec fn ascii_lower(c: char) -> char {
    if 'A' <= c && c <= 'Z' {
        ((c as u32) + 32) as char
    } else {
        c
    }
}

/// `s` equals the lower-case word `word` when ASCII case is ignored.
pub open spec fn eq_ignore_ascii_case(s: Seq<char>, word: Seq<char>) -> bool {
    s.len() == word.len() && forall|i: int| 0 <= i < s.len() ==> ascii_lower(#[trigger] s[i]) == word[i]
}

/// `Digit+ | Digit+ '.' Digit* | Digit* '.' Digit+`
pub open spec fn is_mantissa(m: Seq<char>) -> bool {
    ||| (m.len() > 0 && all_digits(m))
    ||| (m.len() >= 2 && exists|p: int|
        0 <= p < m.len() && #[trigger] m[p] == '.' && all_digits(m.take(p)) && all_digits(m.skip(p + 1)))
}

/// The part after the exponent marker: `Sign? Digit+`.
pub open spec fn is_exponent(x: Seq<char>) -> bool {
    let d = if x.len() > 0 && is_sign(x[0]) { x.skip(1) } else { x };
    d.len() > 0 && all_digits(d)
}

/// `Mantissa ('e' Exponent)?`, the exponent marker in either case.
pub open spec fn is_number(t: Seq<char>) -> bool {
    ||| is_mantissa(t)
    ||| exists|p: int|
        0 <= p < t.len() && (#[trigger] t[p] == 'e' || t[p] == 'E') && is_mantissa(t.take(p))
            && is_exponent(t.skip(p + 1))
}

pub open spec fn unsigned_part(s: Seq<char>) -> Seq<char> {
    if s.len() > 0 && is_sign(s[0]) { s.skip(1) } else { s }
}

/// The strings that std's `f64` parser accepts: an optional sign, then
/// `inf`, `infinity` or `nan` in any ASCII case, or a decimal number.
pub open spec fn is_float_literal(s: Seq<char>) -> bool {
    let t = unsigned_part(s);
    ||| eq_ignore_ascii_case(t, "inf"@)
    ||| eq_ignore_ascii_case(t, "infinity"@)
    ||| eq_ignore_ascii_case(t, "nan"@)
    ||| is_number(t)
}

fn lower_char(c: char) -> (r: char)
    ensures
        r == ascii_lower(c),
{
    if 'A' <= c && c <= 'Z' {
        let u: u32 = (c as u32) + 32;
        let b: u8 = u as u8;
        b as char
    } else {
        c
    }
}

fn eq_ignore_case_chars(s: &[char], word: &[char]) -> (r: bool)
    ensures
        r == eq_ignore_ascii_case(s@, word@),
{
    if s.len() != word.len() {
        return false;
    }
    let mut i: usize = 0;
    while i < s.len()
        invariant
            s@.len() == word@.len(),
            i <= s@.len(),
            forall|j: int| 0 <= j < i ==> ascii_lower(#[trigger] s@[j]) == word@[j],
        decreases s@.len() - i,
    {
        if lower_char(s[i]) != word[i] {
            return false;
        }
        i = i + 1;
    }
    true
}

fn digits_only(s: &[char]) -> (r: bool)
    ensures
        r == all_digits(s@),
{
    let mut i: usize = 0;
    while i < s.len()
        invariant
            i <= s@.len(),
            forall|j: int| 0 <= j < i ==> is_digit(#[trigger] s@[j]),
        decreases s@.len() - i,
    {
        if !('0' <= s[i] && s[i] <= '9') {
            return false;
        }
        i = i + 1;
    }
    true
}

/// The first index holding `a` or `b`.
fn first_of(s: &[char], a: char, b: char) -> (r: Option<usize>)
    ensures
        r matches Some(q) ==> q < s@.len() && (s@[q as int] == a || s@[q as int] == b)
            && forall|j: int| 0 <= j < q ==> s@[j] != a && s@[j] != b,
        r is None ==> forall|j: int| 0 <= j < s@.len() ==> s@[j] != a && s@[j] != b,
{
    let mut i: usize = 0;
    while i < s.len()
        invariant
            i <= s@.len(),
            forall|j: int| 0 <= j < i ==> s@[j] != a && s@[j] != b,
        decreases s@.len() - i,
    {
        if s[i] == a || s[i] == b {
            return Some(i);
        }
        i = i + 1;
    }
    None
}

fn mantissa_ok(m: &[char]) -> (r: bool)
    ensures
        r == is_mantissa(m@),
{
    match first_of(m, '.', '.') {
        None => {
            let r = m.len() > 0 && digits_only(m);
            proof {
                if !r {
                    assert forall|p: int| 0 <= p < m@.len() implies !(#[trigger] m@[p] == '.') by {}
                }
            }
            r
        },
        Some(q) => {
            let r = m.len() >= 2 && digits_only(&m[0..q]) && digits_only(&m[q + 1..m.len()]);
            proof {
                assert(m@.subrange(0, q as int) =~= m@.take(q as int));
                assert(m@.subrange(q + 1, m@.len() as int) =~= m@.skip(q + 1));
                assert(!is_digit(m@[q as int]));
                if r {
                    assert(m@[q as int] == '.');
                } else {
                    assert forall|p: int|
                        0 <= p < m@.len() && #[trigger] m@[p] == '.' && all_digits(m@.take(p))
                            && all_digits(m@.skip(p + 1)) implies m@.len() < 2 by {
                        if p > q {
                            assert(m@.take(p)[q as int] == '.');
                        }
                    }
                }
            }
            r
        },
    }
}

fn exponent_ok(x: &[char]) -> (r: bool)
    ensures
        r == is_exponent(x@),
{
    let d = if x.len() > 0 && (x[0] == '+' || x[0] == '-') {
        &x[1..x.len()]
    } else {
        x
    };
    proof {
        if x@.len() > 0 && is_sign(x@[0]) {
            assert(d@ =~= x@.skip(1));
        }
    }
    d.len() > 0 && digits_only(d)
}

fn number_ok(t: &[char]) -> (r: bool)
    ensures
        r == is_number(t@),
{
    if mantissa_ok(t) {
        return true;
    }
    match first_of(t, 'e', 'E') {
        None => {
            proof {
                assert forall|p: int| 0 <= p < t@.len() implies !(#[trigger] t@[p] == 'e' || t@[p] == 'E') by {}
            }
            false
        },
        Some(p) => {
            let n = t.len();
            assert(p < n);
            let m = &t[0..p];
            let x = &t[p + 1..n];
            let r = mantissa_ok(m) && exponent_ok(x);
            proof {
                assert(m@ =~= t@.take(p as int));
                assert(x@ =~= t@.skip(p + 1));
                if !r {
                    assert forall|k: int|
                        0 <= k < t@.len() && (#[trigger] t@[k] == 'e' || t@[k] == 'E')
                            && is_mantissa(t@.take(k)) implies !is_exponent(t@.skip(k + 1)) by {
                        if k > p {
                            let mk = t@.take(k);
                            assert(mk[p as int] == t@[p as int]);
                            if mk.len() > 0 && all_digits(mk) {
                                assert(is_digit(mk[p as int]));
                            } else {
                                let w = choose|w: int|
                                    0 <= w < mk.len() && #[trigger] mk[w] == '.' && all_digits(mk.take(w))
                                        && all_digits(mk.skip(w + 1));
                                if w < p {
                                    assert(mk.skip(w + 1)[p - w - 1] == mk[p as int]);
                                } else {
                                    assert(mk.take(w)[p as int] == mk[p as int]);
                                }
                            }
                        } else if k < p {
                            assert(t@[k] != 'e' && t@[k] != 'E');
                        }
                    }
                }
            }
            r
        },
    }
}

/// Whether `s` parses as an `f64` (std's `str::parse::<f64>()` succeeds).
pub fn is_float_literal_str(s: &str) -> (r: bool)
    ensures
        r == is_float_literal(s@),
{
    let cs = to_chars(s);
    let all = cs.as_slice();
    let t = if all.len() > 0 && (all[0] == '+' || all[0] == '-') {
        &all[1..all.len()]
    } else {
        all
    };
    proof {
        if s@.len() > 0 && is_sign(s@[0]) {
            assert(t@ =~= s@.skip(1));
        }
    }
    let inf = to_chars("inf");
    let infinity = to_chars("infinity");
    let nan = to_chars("nan");
    eq_ignore_case_chars(t, inf.as_slice()) || eq_ignore_case_chars(t, infinity.as_slice())
        || eq_ignore_case_chars(t, nan.as_slice()) || number_ok(t)
}

// ---------------------------------------------------------------------------
// Rate control
// ---------------------------------------------------------------------------

/// A hybrid rate-control / constant-quality preset.
///
/// Quality presets (`Lossless` / `High` / `Standard`) map to `-cq` (HW) or
/// `-crf` (SW).  Bitrate presets (`Master400M` / `Standard150M`) map to
/// `-b:v` / `-maxrate`.  The `Custom` variant lets the user type an arbitrary
/// FFmpeg rate-control argument.
#[derive(Debug)]
pub enum RateControl {
    Lossless,
    High,
    Standard,
    Master400M,
    Standard150M,
    Custom(String),
}


impl Clone for RateControl {
    fn clone(&self) -> (r: Self)
        ensures
            r == *self,
    {
        match self {
            RateControl::Lossless => RateControl::Lossless,
            RateControl::High => RateControl::High,
            RateControl::Standard => RateControl::Standard,
            RateControl::Master400M => RateControl::Master400M,
            RateControl::Standard150M => RateControl::Standard150M,
            RateControl::Custom(v) => RateControl::Custom(v.clone()),
        }
    }
}

impl RateControl {
    pub open spec fn spec_name(self) -> Seq<char> {
        match self {
            RateControl::Lossless => "Lossless"@,
            RateControl::High => "High Quality"@,
            RateControl::Standard => "Standard"@,
            RateControl::Master400M => "Master 400M"@,
            RateControl::Standard150M => "Standard 150M"@,
            RateControl::Custom(v) => if v@.len() == 0 {
                "Custom: []"@
            } else {
                "Custom: ["@ + v@ + "]"@
            },
        }
    }

    /// The display name, which is also the stored form.
    pub fn name(&self) -> (r: String)
        ensures
            r@ == self.spec_name(),
    {
        match self {
            RateControl::Lossless => owned("Lossless"),
            RateControl::High => owned("High Quality"),
            RateControl::Standard => owned("Standard"),
            RateControl::Master400M => owned("Master 400M"),
            RateControl::Standard150M => owned("Standard 150M"),
            RateControl::Custom(v) => {
                if v.as_str().unicode_len() == 0 {
                    owned("Custom: []")
                } else {
                    let mut s = owned("Custom: [");
                    push_str(&mut s, v.as_str());
                    push_str(&mut s, "]");
                    s
                }
            },
        }
    }

    pub fn next(&self) -> (r: Self)
        ensures
            match *self {
                RateControl::Lossless => r is High,
                RateControl::High => r is Standard,
                RateControl::Standard => r is Master400M,
                RateControl::Master400M => r is Standard150M,
                RateControl::Standard150M => r is Custom && r->Custom_0@.len() == 0,
                RateControl::Custom(_) => r is Lossless,
            },
    {
        match self {
            RateControl::Lossless => RateControl::High,
            RateControl::High => RateControl::Standard,
            RateControl::Standard => RateControl::Master400M,
            RateControl::Master400M => RateControl::Standard150M,
            RateControl::Standard150M => RateControl::Custom(String::new()),
            RateControl::Custom(_) => RateControl::Lossless,
        }
    }

    pub fn prev(&self) -> (r: Self)
        ensures
            match *self {
                RateControl::Lossless => r is Custom && r->Custom_0@.len() == 0,
                RateControl::High => r is Lossless,
                RateControl::Standard => r is High,
                RateControl::Master400M => r is Standard,
                RateControl::Standard150M => r is Master400M,
                RateControl::Custom(_) => r is Standard150M,
            },
    {
        match self {
            RateControl::Lossless => RateControl::Custom(String::new()),
            RateControl::High => RateControl::Lossless,
            RateControl::Standard => RateControl::High,
            RateControl::Master400M => RateControl::Standard,
            RateControl::Standard150M => RateControl::Master400M,
            RateControl::Custom(_) => RateControl::Standard150M,
        }
    }
}

/// A software encoder's name starts with `lib`; every other encoder runs on
/// hardware.
pub open spec fn is_hw_encoder(enc: Seq<char>) -> bool {
    !starts_with(enc, "lib"@)
}

pub open spec fn is_videotoolbox(enc: Seq<char>) -> bool {
    ends_with(enc, "_videotoolbox"@)
}

pub open spec fn is_nvenc(enc: Seq<char>) -> bool {
    ends_with(enc, "_nvenc"@)
}

/// libvpx-vp9 and libaom-av1 only honour `-crf` together with `-b:v 0`.
pub open spec fn needs_bv0_for_crf(enc: Seq<char>) -> bool {
    enc == "libvpx-vp9"@ || enc == "libaom-av1"@
}

/// Constant-quality arguments for `enc` at quality `value`.
pub open spec fn cq_args(enc: Seq<char>, value: Seq<char>) -> Seq<Seq<char>> {
    if is_videotoolbox(enc) {
        seq!["-quality"@, value]
    } else if is_hw_encoder(enc) {
        seq!["-cq"@, value]
    } else if needs_bv0_for_crf(enc) {
        seq!["-crf"@, value, "-b:v"@, "0"@]
    } else {
        seq!["-crf"@, value]
    }
}

/// Target-bitrate arguments for `enc` at bitrate `value`; NVENC is pinned
/// to VBR so that the target drives the encoder.
pub open spec fn bitrate_args(enc: Seq<char>, value: Seq<char>) -> Seq<Seq<char>> {
    let base = seq!["-b:v"@, value, "-maxrate"@, value];
    if is_nvenc(enc) {
        base + seq!["-rc:v"@, "vbr"@]
    } else {
        base
    }
}

/// A custom value read as a bitrate: it ends in `M` or `K`, in either case.
pub open spec fn has_bitrate_suffix(v: Seq<char>) -> bool {
    v.len() > 0 && (v.last() == 'M' || v.last() == 'm' || v.last() == 'K' || v.last() == 'k')
}

/// The FFmpeg rate-control arguments for `rc` on encoder `enc`.
pub open spec fn spec_rate_control_args(rc: RateControl, enc: Seq<char>) -> Seq<Seq<char>> {
    match rc {
        RateControl::Lossless => if is_videotoolbox(enc) {
            seq!["-quality"@, "lossless"@]
        } else {
            cq_args(enc, "16"@)
        },
        RateControl::High => if is_videotoolbox(enc) {
            seq!["-quality"@, "max"@]
        } else {
            cq_args(enc, "20"@)
        },
        RateControl::Standard => if is_videotoolbox(enc) {
            seq!["-quality"@, "high"@]
        } else {
            cq_args(enc, "24"@)
        },
        RateControl::Master400M => bitrate_args(enc, "400M"@),
        RateControl::Standard150M => bitrate_args(enc, "150M"@),
        RateControl::Custom(v) => if v@.len() == 0 {
            seq![]
        } else if has_bitrate_suffix(v@) {
            bitrate_args(enc, v@)
        } else if is_float_literal(v@) {
            cq_args(enc, v@)
        } else {
            seq![v@]
        },
    }
}

fn cq(is_videotoolbox: bool, is_hw: bool, needs_bv0: bool, value: &str) -> (r: Vec<String>)
    ensures
        views(r@) == (if is_videotoolbox {
            seq!["-quality"@, value@]
        } else if is_hw {
            seq!["-cq"@, value@]
        } else if needs_bv0 {
            seq!["-crf"@, value@, "-b:v"@, "0"@]
        } else {
            seq!["-crf"@, value@]
        }),
{
    let mut v: Vec<String> = Vec::new();
    if is_videotoolbox {
        push_strs(&mut v, &["-quality", value]);
    } else if is_hw {
        push_strs(&mut v, &["-cq", value]);
    } else if needs_bv0 {
        push_strs(&mut v, &["-crf", value, "-b:v", "0"]);
    } else {
        push_strs(&mut v, &["-crf", value]);
    }
    v
}

fn bitrate(is_nvenc: bool, value: &str) -> (r: Vec<String>)
    ensures
        views(r@) == (if is_nvenc {
            seq!["-b:v"@, value@, "-maxrate"@, value@] + seq!["-rc:v"@, "vbr"@]
        } else {
            seq!["-b:v"@, value@, "-maxrate"@, value@]
        }),
{
    let mut v: Vec<String> = Vec::new();
    push_strs(&mut v, &["-b:v", value, "-maxrate", value]);
    if is_nvenc {
        push_strs(&mut v, &["-rc:v", "vbr"]);
    }
    v
}

/// Build the FFmpeg rate-control / quality arguments for a given encoder.
///
/// Special cases:
/// * **libvpx-vp9** and **libaom-av1** require `-b:v 0` alongside `-crf` to
///   enable constant-quality mode.
/// * **NVENC** bitrate modes get an explicit `-rc:v vbr`.
pub fn rate_control_args(rc: &RateControl, encoder_name: &str) -> (r: Vec<String>)
    ensures
        views(r@) == spec_rate_control_args(*rc, encoder_name@),
{
    let is_hw = !str_starts_with(encoder_name, "lib");
    let is_vt = str_ends_with(encoder_name, "_videotoolbox");
    let is_nv = str_ends_with(encoder_name, "_nvenc");
    let needs_bv0 = str_eq(encoder_name, "libvpx-vp9") || str_eq(encoder_name, "libaom-av1");
    match rc {
        RateControl::Lossless => {
            if is_vt {
                let mut v: Vec<String> = Vec::new();
                push_strs(&mut v, &["-quality", "lossless"]);
                v
            } else {
                cq(is_vt, is_hw, needs_bv0, "16")
            }
        },
        RateControl::High => {
            if is_vt {
                let mut v: Vec<String> = Vec::new();
                push_strs(&mut v, &["-quality", "max"]);
                v
            } else {
                cq(is_vt, is_hw, needs_bv0, "20")
            }
        },
        RateControl::Standard => {
            if is_vt {
                let mut v: Vec<String> = Vec::new();
                push_strs(&mut v, &["-quality", "high"]);
                v
            } else {
                cq(is_vt, is_hw, needs_bv0, "24")
            }
        },
        RateControl::Master400M => bitrate(is_nv, "400M"),
        RateControl::Standard150M => bitrate(is_nv, "150M"),
        RateControl::Custom(val) => {
            let cs = to_chars(val.as_str());
            let n = cs.len();
            if n == 0 {
                return Vec::new();
            }
            let last = cs[n - 1];
            if last == 'M' || last == 'm' || last == 'K' || last == 'k' {
                bitrate(is_nv, val.as_str())
            } else if is_float_literal_str(val.as_str()) {
                cq(is_vt, is_hw, needs_bv0, val.as_str())
            } else {
                let mut v: Vec<String> = Vec::new();
                push_strs(&mut v, &[val.as_str()]);
                v
            }
        },
    }
}

// ---------------------------------------------------------------------------
// FFmpeg codec arguments
// ---------------------------------------------------------------------------

/// Codec name, pixel format and extra arguments, before rate control.
pub type CodecArgs = (Seq<char>, Seq<char>, Seq<Seq<char>>);

pub open spec fn prores_codec_args(encoder: Seq<char>, prores: ProResProfile) -> CodecArgs {
    let (profile_v, pix_fmt) = match prores {
        ProResProfile::Proxy => ("0"@, "yuv422p10le"@),
        ProResProfile::LT => ("1"@, "yuv422p10le"@),
        ProResProfile::Standard => ("2"@, "yuv422p10le"@),
        ProResProfile::HQ => ("3"@, "yuv422p10le"@),
        ProResProfile::P4444 => ("4"@, "yuva444p10le"@),
        ProResProfile::XQ4444 => ("5"@, "yuva444p12le"@),
    };
    (encoder, pix_fmt, seq!["-profile:v"@, profile_v])
}

pub open spec fn dnxhr_codec_args(dnxhr: DnxhrProfile) -> CodecArgs {
    let (profile, pix_fmt) = match dnxhr {
        DnxhrProfile::SQ => ("dnxhr_sq"@, "yuv422p10le"@),
        DnxhrProfile::HD => ("dnxhr_hd"@, "yuv422p10le"@),
        DnxhrProfile::HDX => ("dnxhr_hdx"@, "yuv422p10le"@),
        DnxhrProfile::HQX => ("dnxhr_hqx"@, "yuv422p10le"@),
        DnxhrProfile::P444 => ("dnxhr_444"@, "yuv444p10le"@),
    };
    ("dnxhd"@, pix_fmt, seq!["-profile:v"@, profile])
}

pub open spec fn hevc_codec_args(encoder: Seq<char>, hevc: HevcProfile) -> CodecArgs {
    if encoder == "hevc_nvenc"@ {
        ("hevc_nvenc"@, "p010le"@, seq!["-preset"@, "p6"@])
    } else if encoder == "hevc_amf"@ {
        ("hevc_amf"@, "p010le"@, seq!["-quality"@, "quality"@])
    } else if encoder == "hevc_qsv"@ {
        ("hevc_qsv"@, "p010le"@, seq![])
    } else if encoder == "hevc_videotoolbox"@ {
        ("hevc_videotoolbox"@, "p010le"@, seq!["-realtime"@, "true"@])
    } else {
        let pix_fmt = match hevc {
            HevcProfile::Main10_420 => "yuv420p10le"@,
            HevcProfile::Main10_444 => "yuv444p10le"@,
        };
        ("libx265"@, pix_fmt, seq!["-pix_fmt"@, pix_fmt])
    }
}

pub open spec fn h264_codec_args(encoder: Seq<char>, h264: H264Profile) -> CodecArgs {
    let ten = h264 is High10bit;
    if encoder == "h264_nvenc"@ {
        if ten {
            ("h264_nvenc"@, "p010le"@, seq!["-preset"@, "p6"@, "-profile:v"@, "high10"@])
        } else {
            ("h264_nvenc"@, "yuv420p"@, seq!["-preset"@, "p6"@])
        }
    } else if encoder == "h264_amf"@ {
        ("h264_amf"@, if ten { "p010le"@ } else { "yuv420p"@ }, seq!["-quality"@, "quality"@])
    } else if encoder == "h264_qsv"@ {
        ("h264_qsv"@, if ten { "p010le"@ } else { "yuv420p"@ }, seq![])
    } else if encoder == "h264_videotoolbox"@ {
        ("h264_videotoolbox"@, if ten { "p010le"@ } else { "yuv420p"@ }, seq!["-realtime"@, "true"@])
    } else {
        ("libx264"@, if ten { "yuv422p10le"@ } else { "yuv420p"@ }, seq!["-preset"@, "slow"@])
    }
}

pub open spec fn av1_codec_args(encoder: Seq<char>) -> CodecArgs {
    if encoder == "av1_nvenc"@ {
        ("av1_nvenc"@, "p010le"@, seq!["-preset"@, "p6"@])
    } else if encoder == "av1_amf"@ {
        ("av1_amf"@, "p010le"@, seq!["-quality"@, "quality"@])
    } else if encoder == "av1_qsv"@ {
        ("av1_qsv"@, "p010le"@, seq![])
    } else if encoder == "libsvtav1"@ {
        ("libsvtav1"@, "yuv420p10le"@, seq!["-preset"@, "8"@])
    } else {
        ("libaom-av1"@, "yuv420p10le"@, seq!["-cpu-used"@, "4"@])
    }
}

pub open spec fn vp9_codec_args(vp9: Vp9Profile) -> CodecArgs {
    let pix_fmt = match vp9 {
        Vp9Profile::Profile2_420_10bit => "yuv420p10le"@,
        Vp9Profile::Profile3_444_10bit => "yuv444p10le"@,
    };
    ("libvpx-vp9"@, pix_fmt, seq![])
}

/// The FFmpeg codec name, pixel format and extra arguments for a family:
/// codec and pixel format follow the family and the detected encoder names,
/// the profile follows the user's choice, and every family but ProRes and
/// DNxHR appends the rate-control arguments of its encoder.
pub open spec fn spec_ffmpeg_args(
    family: CodecFamily,
    hevc_encoder: Seq<char>,
    h264_encoder: Seq<char>,
    av1_encoder: Seq<char>,
    prores_encoder: Seq<char>,
    prores: ProResProfile,
    dnxhr: DnxhrProfile,
    hevc: HevcProfile,
    h264: H264Profile,
    vp9: Vp9Profile,
    rate_control: RateControl,
) -> CodecArgs {
    match family {
        CodecFamily::ProRes => prores_codec_args(prores_encoder, prores),
        CodecFamily::DNxHR => dnxhr_codec_args(dnxhr),
        CodecFamily::HEVC => {
            let b = hevc_codec_args(hevc_encoder, hevc);
            (b.0, b.1, b.2 + spec_rate_control_args(rate_control, hevc_encoder))
        },
        CodecFamily::H264 => {
            let b = h264_codec_args(h264_encoder, h264);
            (b.0, b.1, b.2 + spec_rate_control_args(rate_control, h264_encoder))
        },
        CodecFamily::AV1 => {
            let b = av1_codec_args(av1_encoder);
            (b.0, b.1, b.2 + spec_rate_control_args(rate_control, av1_encoder))
        },
        CodecFamily::VP9 => {
            let b = vp9_codec_args(vp9);
            (b.0, b.1, b.2 + spec_rate_control_args(rate_control, "libvpx-vp9"@))
        },
    }
}

/// A ProRes export uses the given ProRes encoder and passes the profile
/// as FFmpeg's `prores_ks` numbers it (Proxy 0, LT 1, Standard 2, HQ 3,
/// 4444 4, 4444 XQ 5). The pixel format follows the profile: the two 4444
/// profiles, and only they, are encoded 4:4:4 with alpha (`yuva444p10le`,
/// 12-bit `yuva444p12le` for XQ); the others 4:2:2 10-bit (`yuv422p10le`).
/// No rate-control argument is added.
pub proof fn lemma_prores_args_follow_profile(
    hevc_encoder: Seq<char>,
    h264_encoder: Seq<char>,
    av1_encoder: Seq<char>,
    prores_encoder: Seq<char>,
    prores: ProResProfile,
    dnxhr: DnxhrProfile,
    hevc: HevcProfile,
    h264: H264Profile,
    vp9: Vp9Profile,
    rate_control: RateControl,
)
    ensures
        ({
            let a = spec_ffmpeg_args(CodecFamily::ProRes, hevc_encoder, h264_encoder, av1_encoder,
                prores_encoder, prores, dnxhr, hevc, h264, vp9, rate_control);
            &&& a.0 == prores_encoder
            &&& a.2.len() == 2
            &&& a.2[0] == "-profile:v"@
            &&& a.2[1].len() == 1
            &&& a.2[1][0] as int == '0' as int + prores.spec_index()
            &&& (a.1.len() >= 7 && a.1.take(7) == "yuva444"@) <==> (prores == ProResProfile::P4444
                || prores == ProResProfile::XQ4444)
            &&& prores == ProResProfile::P4444 ==> a.1 == "yuva444p10le"@
            &&& prores == ProResProfile::XQ4444 ==> a.1 == "yuva444p12le"@
            &&& prores.spec_index() < 4 ==> a.1 == "yuv422p10le"@
        }),
{
    reveal_strlit("yuva444");
    reveal_strlit("yuva444p10le");
    reveal_strlit("yuva444p12le");
    reveal_strlit("yuv422p10le");
    reveal_strlit("0");
    reveal_strlit("1");
    reveal_strlit("2");
    reveal_strlit("3");
    reveal_strlit("4");
    reveal_strlit("5");
    let a = spec_ffmpeg_args(CodecFamily::ProRes, hevc_encoder, h264_encoder, av1_encoder,
        prores_encoder, prores, dnxhr, hevc, h264, vp9, rate_control);
    if prores == ProResProfile::P4444 {
        assert(a.1.take(7) =~= "yuva444"@);
    } else if prores == ProResProfile::XQ4444 {
        assert(a.1.take(7) =~= "yuva444"@);
    } else {
        assert(a.1[3] != "yuva444"@[3]);
    }
}

/// A DNxHR export is encoded with FFmpeg's `dnxhd` encoder, passing the
/// profile by its name; only the 4:4:4 profile is encoded 4:4:4
/// (`yuv444p10le`), the others 4:2:2 10-bit (`yuv422p10le`). A software
/// HEVC export (`libx265`) uses 4:4:4 exactly for the Main10 4:4:4 profile
/// and 4:2:0 otherwise, and names that format again with `-pix_fmt`.
pub proof fn lemma_chroma_follows_profile(
    hevc_encoder: Seq<char>,
    h264_encoder: Seq<char>,
    av1_encoder: Seq<char>,
    prores_encoder: Seq<char>,
    prores: ProResProfile,
    dnxhr: DnxhrProfile,
    hevc: HevcProfile,
    h264: H264Profile,
    vp9: Vp9Profile,
    rate_control: RateControl,
)
    ensures
        ({
            let a = spec_ffmpeg_args(CodecFamily::DNxHR, hevc_encoder, h264_encoder, av1_encoder,
                prores_encoder, prores, dnxhr, hevc, h264, vp9, rate_control);
            &&& a.0 == "dnxhd"@
            &&& a.2.len() == 2 && a.2[0] == "-profile:v"@
            &&& dnxhr == DnxhrProfile::P444 ==> a.1 == "yuv444p10le"@
            &&& dnxhr != DnxhrProfile::P444 ==> a.1 == "yuv422p10le"@
        }),
        ({
            let a = spec_ffmpeg_args(CodecFamily::HEVC, "libx265"@, h264_encoder, av1_encoder,
                prores_encoder, prores, dnxhr, hevc, h264, vp9, rate_control);
            &&& a.0 == "libx265"@
            &&& a.2.len() >= 2 && a.2[0] == "-pix_fmt"@ && a.2[1] == a.1
            &&& hevc == HevcProfile::Main10_444 ==> a.1 == "yuv444p10le"@
            &&& hevc == HevcProfile::Main10_420 ==> a.1 == "yuv420p10le"@
        }),
{
    reveal_strlit("libx265");
    reveal_strlit("hevc_nvenc");
    reveal_strlit("hevc_amf");
    reveal_strlit("hevc_qsv");
    reveal_strlit("hevc_videotoolbox");
    assert("libx265"@[0] != "hevc_nvenc"@[0]);
    assert("libx265"@[0] != "hevc_amf"@[0]);
    assert("libx265"@[0] != "hevc_qsv"@[0]);
    assert("libx265"@[0] != "hevc_videotoolbox"@[0]);
}

fn strs(items: &[&str]) -> (r: Vec<String>)
    ensures
        views(r@) == str_views(items@),
{
    let mut v: Vec<String> = Vec::new();
    push_strs(&mut v, items);
    assert(views(v@) =~= str_views(items@));
    v
}

impl CodecFamily {
    /// Build FFmpeg arguments:
    /// - Codec and pixel format are determined by the family and the
    ///   runtime-detected encoder names.
    /// - Profile is resolved independently so the user's choice is preserved.
    /// - Rate-control flags are appended for HEVC / H.264 / AV1 / VP9.
    pub fn to_ffmpeg_args(
        &self,
        hevc_encoder: &str,
        h264_encoder: &str,
        av1_encoder: &str,
        prores_encoder: &str,
        prores: ProResProfile,
        dnxhr: DnxhrProfile,
        hevc: HevcProfile,
        h264: H264Profile,
        av1: Av1Profile,
        vp9: Vp9Profile,
        rate_control: &RateControl,
    ) -> (r: (String, String, Vec<String>))
        ensures
            r.0@ == spec_ffmpeg_args(*self, hevc_encoder@, h264_encoder@, av1_encoder@,
                prores_encoder@, prores, dnxhr, hevc, h264, vp9, *rate_control).0,
            r.1@ == spec_ffmpeg_args(*self, hevc_encoder@, h264_encoder@, av1_encoder@,
                prores_encoder@, prores, dnxhr, hevc, h264, vp9, *rate_control).1,
            views(r.2@) == spec_ffmpeg_args(*self, hevc_encoder@, h264_encoder@, av1_encoder@,
                prores_encoder@, prores, dnxhr, hevc, h264, vp9, *rate_control).2,
    {
        let (codec, pix_fmt, mut extra): (String, String, Vec<String>) = match self {
            CodecFamily::ProRes => {
                let (profile_v, pix_fmt) = match prores {
                    ProResProfile::Proxy => ("0", "yuv422p10le"),
                    ProResProfile::LT => ("1", "yuv422p10le"),
                    ProResProfile::Standard => ("2", "yuv422p10le"),
                    ProResProfile::HQ => ("3", "yuv422p10le"),
                    ProResProfile::P4444 => ("4", "yuva444p10le"),
                    ProResProfile::XQ4444 => ("5", "yuva444p12le"),
                };
                (owned(prores_encoder), owned(pix_fmt), strs(&["-profile:v", profile_v]))
            },
            CodecFamily::DNxHR => {
                let (profile_str, pix_fmt) = match dnxhr {
                    DnxhrProfile::SQ => ("dnxhr_sq", "yuv422p10le"),
                    DnxhrProfile::HD => ("dnxhr_hd", "yuv422p10le"),
                    DnxhrProfile::HDX => ("dnxhr_hdx", "yuv422p10le"),
                    DnxhrProfile::HQX => ("dnxhr_hqx", "yuv422p10le"),
                    DnxhrProfile::P444 => ("dnxhr_444", "yuv444p10le"),
                };
                (owned("dnxhd"), owned(pix_fmt), strs(&["-profile:v", profile_str]))
            },
            CodecFamily::HEVC => {
                if str_eq(hevc_encoder, "hevc_nvenc") {
                    (owned("hevc_nvenc"), owned("p010le"), strs(&["-preset", "p6"]))
                } else if str_eq(hevc_encoder, "hevc_amf") {
                    (owned("hevc_amf"), owned("p010le"), strs(&["-quality", "quality"]))
                } else if str_eq(hevc_encoder, "hevc_qsv") {
                    (owned("hevc_qsv"), owned("p010le"), Vec::new())
                } else if str_eq(hevc_encoder, "hevc_videotoolbox") {
                    (owned("hevc_videotoolbox"), owned("p010le"), strs(&["-realtime", "true"]))
                } else {
                    let pix_fmt = match hevc {
                        HevcProfile::Main10_420 => "yuv420p10le",
                        HevcProfile::Main10_444 => "yuv444p10le",
                    };
                    (owned("libx265"), owned(pix_fmt), strs(&["-pix_fmt", pix_fmt]))
                }
            },
            CodecFamily::H264 => {
                let ten = match h264 {
                    H264Profile::High10bit => true,
                    H264Profile::Main8bit => false,
                };
                if str_eq(h264_encoder, "h264_nvenc") {
                    if ten {
                        (owned("h264_nvenc"), owned("p010le"),
                            strs(&["-preset", "p6", "-profile:v", "high10"]))
                    } else {
                        (owned("h264_nvenc"), owned("yuv420p"), strs(&["-preset", "p6"]))
                    }
                } else if str_eq(h264_encoder, "h264_amf") {
                    let pf = if ten { "p010le" } else { "yuv420p" };
                    (owned("h264_amf"), owned(pf), strs(&["-quality", "quality"]))
                } else if str_eq(h264_encoder, "h264_qsv") {
                    let pf = if ten { "p010le" } else { "yuv420p" };
                    (owned("h264_qsv"), owned(pf), Vec::new())
                } else if str_eq(h264_encoder, "h264_videotoolbox") {
                    let pf = if ten { "p010le" } else { "yuv420p" };
                    (owned("h264_videotoolbox"), owned(pf), strs(&["-realtime", "true"]))
                } else {
                    let pf = if ten { "yuv422p10le" } else { "yuv420p" };
                    (owned("libx264"), owned(pf), strs(&["-preset", "slow"]))
                }
            },
            CodecFamily::AV1 => {
                if str_eq(av1_encoder, "av1_nvenc") {
                    (owned("av1_nvenc"), owned("p010le"), strs(&["-preset", "p6"]))
                } else if str_eq(av1_encoder, "av1_amf") {
                    (owned("av1_amf"), owned("p010le"), strs(&["-quality", "quality"]))
                } else if str_eq(av1_encoder, "av1_qsv") {
                    (owned("av1_qsv"), owned("p010le"), Vec::new())
                } else if str_eq(av1_encoder, "libsvtav1") {
                    (owned("libsvtav1"), owned("yuv420p10le"), strs(&["-preset", "8"]))
                } else {
                    (owned("libaom-av1"), owned("yuv420p10le"), strs(&["-cpu-used", "4"]))
                }
            },
            CodecFamily::VP9 => {
                let pix_fmt = match vp9 {
                    Vp9Profile::Profile2_420_10bit => "yuv420p10le",
                    Vp9Profile::Profile3_444_10bit => "yuv444p10le",
                };
                (owned("libvpx-vp9"), owned(pix_fmt), Vec::new())
            },
        };
        match self {
            CodecFamily::HEVC => {
                append_strings(&mut extra, rate_control_args(rate_control, hevc_encoder));
            },
            CodecFamily::H264 => {
                append_strings(&mut extra, rate_control_args(rate_control, h264_encoder));
            },
            CodecFamily::AV1 => {
                append_strings(&mut extra, rate_control_args(rate_control, av1_encoder));
            },
            CodecFamily::VP9 => {
                append_strings(&mut extra, rate_control_args(rate_control, "libvpx-vp9"));
            },
            CodecFamily::ProRes | CodecFamily::DNxHR => {},
        }
        (codec, pix_fmt, extra)
    }
}

} // verus!

//! Reading the lossless JPEG scan back: the decoder, stated as spec
//! functions, and the proof that it recovers every sample `compress_lj92`
//! coded.

use vstd::prelude::*;
use vstd::arithmetic::power2::{pow2, lemma_pow2_unfold, lemma_pow2_pos, lemma_pow2_adds, lemma2_to64};
use vstd::arithmetic::div_mod::{lemma_fundamental_div_mod, lemma_fundamental_div_mod_converse, lemma_small_mod};
use crate::lj92::{
    bits_be, bits_value, bytes_bits, pack_bits, stuff, bit_len, abs_int, category, extra_bits,
    dc_code, dc_len, dc_len_closed, dc_code_closed, diff_bits, pixel_diff, predictor, row_bits,
    scan_bits, wrap16,
    lj92_stream, lj92_headers,
    lemma_bits_be_len, lemma_bits_be_concat, lemma_bits_value_of,
    lemma_bit_len_bound, lemma_bit_len_at_most, lemma_dc_table,
};

verus! {

// ---------------------------------------------------------------------------
// Bits
// ---------------------------------------------------------------------------

/// `k` zero bits.
pub open spec fn zeros(k: nat) -> Seq<bool> {
    Seq::new(k, |i: int| false)
}

/// `p` begins `s`.
pub open spec fn is_prefix(p: Seq<bool>, s: Seq<bool>) -> bool {
    p.len() <= s.len() && s.take(p.len() as int) == p
}

/// The first `k` bits of an `n`-bit value are the bits of its top part.
pub proof fn lemma_bits_be_take(v: nat, n: nat, k: nat)
    requires
        k <= n,
    ensures
        bits_be(v, n).take(k as int) == bits_be(v / pow2((n - k) as nat), k),
{
    let m = (n - k) as nat;
    lemma_pow2_pos(m);
    lemma_fundamental_div_mod(v as int, pow2(m) as int);
    let q = v / pow2(m);
    let r = v % pow2(m);
    assert(v == q * pow2(m) + r) by (nonlinear_arith)
        requires
            v == pow2(m) * (v / pow2(m)) + (v % pow2(m)),
            q == v / pow2(m),
            r == v % pow2(m),
    ;
    lemma_bits_be_concat(q, r, k, m);
    assert(k + m == n);
    lemma_bits_be_len(q, k);
    assert((bits_be(q, k) + bits_be(r, m)).take(k as int) =~= bits_be(q, k));
}

/// Values below `2^n` are told apart by their `n` bits.
pub proof fn lemma_bits_be_injective(a: nat, b: nat, n: nat)
    requires
        a < pow2(n),
        b < pow2(n),
        bits_be(a, n) == bits_be(b, n),
    ensures
        a == b,
{
    lemma_bits_value_of(a, n);
    lemma_bits_value_of(b, n);
    lemma_small_mod(a, pow2(n));
    lemma_small_mod(b, pow2(n));
}

/// Reading bits as a number and writing the number back gives the bits.
pub proof fn lemma_bits_of_value(s: Seq<bool>)
    ensures
        bits_be(bits_value(s), s.len()) == s,
        bits_value(s) < pow2(s.len()),
    decreases s.len(),
{
    if s.len() == 0 {
        assert(pow2(0) == 1) by { lemma2_to64(); }
        assert(bits_be(0, 0) =~= s);
    } else {
        let t = s.drop_last();
        lemma_bits_of_value(t);
        lemma_pow2_unfold(s.len());
        let v = bits_value(s);
        let b: nat = if s.last() { 1 } else { 0 };
        assert(v == 2 * bits_value(t) + b);
        assert(v / 2 == bits_value(t) && v % 2 == b) by {
            lemma_fundamental_div_mod_converse(v as int, 2, bits_value(t) as int, b as int);
        }
        assert(bits_be(v, s.len()) =~= bits_be(bits_value(t), t.len()).push(s.last()));
        assert(s =~= t.push(s.last()));
    }
}

pub proof fn lemma_bits_of_zero(k: nat)
    ensures
        bits_be(0, k) == zeros(k),
    decreases k,
{
    if k > 0 {
        lemma_bits_of_zero((k - 1) as nat);
        assert(bits_be(0, k) =~= zeros((k - 1) as nat).push(false));
    } else {
        assert(bits_be(0, 0) =~= zeros(0));
    }
}

// ---------------------------------------------------------------------------
// The DC codes are prefix-free
// ---------------------------------------------------------------------------

proof fn lemma_code_quotients(c1: nat, c2: nat)
    requires
        c1 < c2 <= 16,
    ensures
        dc_len_closed(c1) <= dc_len_closed(c2),
        dc_code_closed(c2) / pow2((dc_len_closed(c2) - dc_len_closed(c1)) as nat) != dc_code_closed(c1),
{
    lemma2_to64();
    if c1 == 0 && c2 == 1 {
        assert(2nat / pow2(1) != 0nat);
    } else if c1 == 0 && c2 == 2 {
        assert(3nat / pow2(1) != 0nat);
    } else if c1 == 0 && c2 == 3 {
        assert(4nat / pow2(1) != 0nat);
    } else if c1 == 0 && c2 == 4 {
        assert(5nat / pow2(1) != 0nat);
    } else if c1 == 0 && c2 == 5 {
        assert(6nat / pow2(1) != 0nat);
    } else if c1 == 0 && c2 == 6 {
        assert(14nat / pow2(2) != 0nat);
    } else if c1 == 0 && c2 == 7 {
        assert(30nat / pow2(3) != 0nat);
    } else if c1 == 0 && c2 == 8 {
        assert(62nat / pow2(4) != 0nat);
    } else if c1 == 0 && c2 == 9 {
        assert(126nat / pow2(5) != 0nat);
    } else if c1 == 0 && c2 == 10 {
        assert(254nat / pow2(6) != 0nat);
    } else if c1 == 0 && c2 == 11 {
        assert(510nat / pow2(7) != 0nat);
    } else if c1 == 0 && c2 == 12 {
        assert(1022nat / pow2(8) != 0nat);
    } else if c1 == 0 && c2 == 13 {
        assert(2046nat / pow2(9) != 0nat);
    } else if c1 == 0 && c2 == 14 {
        assert(4094nat / pow2(10) != 0nat);
    } else if c1 == 0 && c2 == 15 {
        assert(8190nat / pow2(11) != 0nat);
    } else if c1 == 0 && c2 == 16 {
        assert(16382nat / pow2(12) != 0nat);
    } else if c1 == 1 && c2 == 2 {
        assert(3nat / pow2(0) != 2nat);
    } else if c1 == 1 && c2 == 3 {
        assert(4nat / pow2(0) != 2nat);
    } else if c1 == 1 && c2 == 4 {
        assert(5nat / pow2(0) != 2nat);
    } else if c1 == 1 && c2 == 5 {
        assert(6nat / pow2(0) != 2nat);
    } else if c1 == 1 && c2 == 6 {
        assert(14nat / pow2(1) != 2nat);
    } else if c1 == 1 && c2 == 7 {
        assert(30nat / pow2(2) != 2nat);
    } else if c1 == 1 && c2 == 8 {
        assert(62nat / pow2(3) != 2nat);
    } else if c1 == 1 && c2 == 9 {
        assert(126nat / pow2(4) != 2nat);
    } else if c1 == 1 && c2 == 10 {
        assert(254nat / pow2(5) != 2nat);
    } else if c1 == 1 && c2 == 11 {
        assert(510nat / pow2(6) != 2nat);
    } else if c1 == 1 && c2 == 12 {
        assert(1022nat / pow2(7) != 2nat);
    } else if c1 == 1 && c2 == 13 {
        assert(2046nat / pow2(8) != 2nat);
    } else if c1 == 1 && c2 == 14 {
        assert(4094nat / pow2(9) != 2nat);
    } else if c1 == 1 && c2 == 15 {
        assert(8190nat / pow2(10) != 2nat);
    } else if c1 == 1 && c2 == 16 {
        assert(16382nat / pow2(11) != 2nat);
    } else if c1 == 2 && c2 == 3 {
        assert(4nat / pow2(0) != 3nat);
    } else if c1 == 2 && c2 == 4 {
        assert(5nat / pow2(0) != 3nat);
    } else if c1 == 2 && c2 == 5 {
        assert(6nat / pow2(0) != 3nat);
    } else if c1 == 2 && c2 == 6 {
        assert(14nat / pow2(1) != 3nat);
    } else if c1 == 2 && c2 == 7 {
        assert(30nat / pow2(2) != 3nat);
    } else if c1 == 2 && c2 == 8 {
        assert(62nat / pow2(3) != 3nat);
    } else if c1 == 2 && c2 == 9 {
        assert(126nat / pow2(4) != 3nat);
    } else if c1 == 2 && c2 == 10 {
        assert(254nat / pow2(5) != 3nat);
    } else if c1 == 2 && c2 == 11 {
        assert(510nat / pow2(6) != 3nat);
    } else if c1 == 2 && c2 == 12 {
        assert(1022nat / pow2(7) != 3nat);
    } else if c1 == 2 && c2 == 13 {
        assert(2046nat / pow2(8) != 3nat);
    } else if c1 == 2 && c2 == 14 {
        assert(4094nat / pow2(9) != 3nat);
    } else if c1 == 2 && c2 == 15 {
        assert(8190nat / pow2(10) != 3nat);
    } else if c1 == 2 && c2 == 16 {
        assert(16382nat / pow2(11) != 3nat);
    } else if c1 == 3 && c2 == 4 {
        assert(5nat / pow2(0) != 4nat);
    } else if c1 == 3 && c2 == 5 {
        assert(6nat / pow2(0) != 4nat);
    } else if c1 == 3 && c2 == 6 {
        assert(14nat / pow2(1) != 4nat);
    } else if c1 == 3 && c2 == 7 {
        assert(30nat / pow2(2) != 4nat);
    } else if c1 == 3 && c2 == 8 {
        assert(62nat / pow2(3) != 4nat);
    } else if c1 == 3 && c2 == 9 {
        assert(126nat / pow2(4) != 4nat);
    } else if c1 == 3 && c2 == 10 {
        assert(254nat / pow2(5) != 4nat);
    } else if c1 == 3 && c2 == 11 {
        assert(510nat / pow2(6) != 4nat);
    } else if c1 == 3 && c2 == 12 {
        assert(1022nat / pow2(7) != 4nat);
    } else if c1 == 3 && c2 == 13 {
        assert(2046nat / pow2(8) != 4nat);
    } else if c1 == 3 && c2 == 14 {
        assert(4094nat / pow2(9) != 4nat);
    } else if c1 == 3 && c2 == 15 {
        assert(8190nat / pow2(10) != 4nat);
    } else if c1 == 3 && c2 == 16 {
        assert(16382nat / pow2(11) != 4nat);
    } else if c1 == 4 && c2 == 5 {
        assert(6nat / pow2(0) != 5nat);
    } else if c1 == 4 && c2 == 6 {
        assert(14nat / pow2(1) != 5nat);
    } else if c1 == 4 && c2 == 7 {
        assert(30nat / pow2(2) != 5nat);
    } else if c1 == 4 && c2 == 8 {
        assert(62nat / pow2(3) != 5nat);
    } else if c1 == 4 && c2 == 9 {
        assert(126nat / pow2(4) != 5nat);
    } else if c1 == 4 && c2 == 10 {
        assert(254nat / pow2(5) != 5nat);
    } else if c1 == 4 && c2 == 11 {
        assert(510nat / pow2(6) != 5nat);
    } else if c1 == 4 && c2 == 12 {
        assert(1022nat / pow2(7) != 5nat);
    } else if c1 == 4 && c2 == 13 {
        assert(2046nat / pow2(8) != 5nat);
    } else if c1 == 4 && c2 == 14 {
        assert(4094nat / pow2(9) != 5nat);
    } else if c1 == 4 && c2 == 15 {
        assert(8190nat / pow2(10) != 5nat);
    } else if c1 == 4 && c2 == 16 {
        assert(16382nat / pow2(11) != 5nat);
    } else if c1 == 5 && c2 == 6 {
        assert(14nat / pow2(1) != 6nat);
    } else if c1 == 5 && c2 == 7 {
        assert(30nat / pow2(2) != 6nat);
    } else if c1 == 5 && c2 == 8 {
        assert(62nat / pow2(3) != 6nat);
    } else if c1 == 5 && c2 == 9 {
        assert(126nat / pow2(4) != 6nat);
    } else if c1 == 5 && c2 == 10 {
        assert(254nat / pow2(5) != 6nat);
    } else if c1 == 5 && c2 == 11 {
        assert(510nat / pow2(6) != 6nat);
    } else if c1 == 5 && c2 == 12 {
        assert(1022nat / pow2(7) != 6nat);
    } else if c1 == 5 && c2 == 13 {
        assert(2046nat / pow2(8) != 6nat);
    } else if c1 == 5 && c2 == 14 {
        assert(4094nat / pow2(9) != 6nat);
    } else if c1 == 5 && c2 == 15 {
        assert(8190nat / pow2(10) != 6nat);
    } else if c1 == 5 && c2 == 16 {
        assert(16382nat / pow2(11) != 6nat);
    } else if c1 == 6 && c2 == 7 {
        assert(30nat / pow2(1) != 14nat);
    } else if c1 == 6 && c2 == 8 {
        assert(62nat / pow2(2) != 14nat);
    } else if c1 == 6 && c2 == 9 {
        assert(126nat / pow2(3) != 14nat);
    } else if c1 == 6 && c2 == 10 {
        assert(254nat / pow2(4) != 14nat);
    } else if c1 == 6 && c2 == 11 {
        assert(510nat / pow2(5) != 14nat);
    } else if c1 == 6 && c2 == 12 {
        assert(1022nat / pow2(6) != 14nat);
    } else if c1 == 6 && c2 == 13 {
        assert(2046nat / pow2(7) != 14nat);
    } else if c1 == 6 && c2 == 14 {
        assert(4094nat / pow2(8) != 14nat);
    } else if c1 == 6 && c2 == 15 {
        assert(8190nat / pow2(9) != 14nat);
    } else if c1 == 6 && c2 == 16 {
        assert(16382nat / pow2(10) != 14nat);
    } else if c1 == 7 && c2 == 8 {
        assert(62nat / pow2(1) != 30nat);
    } else if c1 == 7 && c2 == 9 {
        assert(126nat / pow2(2) != 30nat);
    } else if c1 == 7 && c2 == 10 {
        assert(254nat / pow2(3) != 30nat);
    } else if c1 == 7 && c2 == 11 {
        assert(510nat / pow2(4) != 30nat);
    } else if c1 == 7 && c2 == 12 {
        assert(1022nat / pow2(5) != 30nat);
    } else if c1 == 7 && c2 == 13 {
        assert(2046nat / pow2(6) != 30nat);
    } else if c1 == 7 && c2 == 14 {
        assert(4094nat / pow2(7) != 30nat);
    } else if c1 == 7 && c2 == 15 {
        assert(8190nat / pow2(8) != 30nat);
    } else if c1 == 7 && c2 == 16 {
        assert(16382nat / pow2(9) != 30nat);
    } else if c1 == 8 && c2 == 9 {
        assert(126nat / pow2(1) != 62nat);
    } else if c1 == 8 && c2 == 10 {
        assert(254nat / pow2(2) != 62nat);
    } else if c1 == 8 && c2 == 11 {
        assert(510nat / pow2(3) != 62nat);
    } else if c1 == 8 && c2 == 12 {
        assert(1022nat / pow2(4) != 62nat);
    } else if c1 == 8 && c2 == 13 {
        assert(2046nat / pow2(5) != 62nat);
    } else if c1 == 8 && c2 == 14 {
        assert(4094nat / pow2(6) != 62nat);
    } else if c1 == 8 && c2 == 15 {
        assert(8190nat / pow2(7) != 62nat);
    } else if c1 == 8 && c2 == 16 {
        assert(16382nat / pow2(8) != 62nat);
    } else if c1 == 9 && c2 == 10 {
        assert(254nat / pow2(1) != 126nat);
    } else if c1 == 9 && c2 == 11 {
        assert(510nat / pow2(2) != 126nat);
    } else if c1 == 9 && c2 == 12 {
        assert(1022nat / pow2(3) != 126nat);
    } else if c1 == 9 && c2 == 13 {
        assert(2046nat / pow2(4) != 126nat);
    } else if c1 == 9 && c2 == 14 {
        assert(4094nat / pow2(5) != 126nat);
    } else if c1 == 9 && c2 == 15 {
        assert(8190nat / pow2(6) != 126nat);
    } else if c1 == 9 && c2 == 16 {
        assert(16382nat / pow2(7) != 126nat);
    } else if c1 == 10 && c2 == 11 {
        assert(510nat / pow2(1) != 254nat);
    } else if c1 == 10 && c2 == 12 {
        assert(1022nat / pow2(2) != 254nat);
    } else if c1 == 10 && c2 == 13 {
        assert(2046nat / pow2(3) != 254nat);
    } else if c1 == 10 && c2 == 14 {
        assert(4094nat / pow2(4) != 254nat);
    } else if c1 == 10 && c2 == 15 {
        assert(8190nat / pow2(5) != 254nat);
    } else if c1 == 10 && c2 == 16 {
        assert(16382nat / pow2(6) != 254nat);
    } else if c1 == 11 && c2 == 12 {
        assert(1022nat / pow2(1) != 510nat);
    } else if c1 == 11 && c2 == 13 {
        assert(2046nat / pow2(2) != 510nat);
    } else if c1 == 11 && c2 == 14 {
        assert(4094nat / pow2(3) != 510nat);
    } else if c1 == 11 && c2 == 15 {
        assert(8190nat / pow2(4) != 510nat);
    } else if c1 == 11 && c2 == 16 {
        assert(16382nat / pow2(5) != 510nat);
    } else if c1 == 12 && c2 == 13 {
        assert(2046nat / pow2(1) != 1022nat);
    } else if c1 == 12 && c2 == 14 {
        assert(4094nat / pow2(2) != 1022nat);
    } else if c1 == 12 && c2 == 15 {
        assert(8190nat / pow2(3) != 1022nat);
    } else if c1 == 12 && c2 == 16 {
        assert(16382nat / pow2(4) != 1022nat);
    } else if c1 == 13 && c2 == 14 {
        assert(4094nat / pow2(1) != 2046nat);
    } else if c1 == 13 && c2 == 15 {
        assert(8190nat / pow2(2) != 2046nat);
    } else if c1 == 13 && c2 == 16 {
        assert(16382nat / pow2(3) != 2046nat);
    } else if c1 == 14 && c2 == 15 {
        assert(8190nat / pow2(1) != 4094nat);
    } else if c1 == 14 && c2 == 16 {
        assert(16382nat / pow2(2) != 4094nat);
    } else if c1 == 15 && c2 == 16 {
        assert(16382nat / pow2(1) != 8190nat);
    }
}

/// The code of a category.
pub open spec fn code_bits(c: nat) -> Seq<bool> {
    bits_be(dc_code(c), dc_len(c))
}

/// No code of the DC table begins a longer or later one.
pub proof fn lemma_codes_prefix_free(c1: nat, c2: nat, t: Seq<bool>)
    requires
        c1 < c2 <= 16,
    ensures
        !is_prefix(code_bits(c1), code_bits(c2) + t),
{
    lemma_dc_table(c1);
    lemma_dc_table(c2);
    lemma_code_quotients(c1, c2);
    let l1 = dc_len(c1);
    let l2 = dc_len(c2);
    lemma_bits_be_len(dc_code(c1), l1);
    lemma_bits_be_len(dc_code(c2), l2);
    let s = code_bits(c2) + t;
    if is_prefix(code_bits(c1), s) {
        assert(s.take(l1 as int) =~= code_bits(c2).take(l1 as int));
        lemma_bits_be_take(dc_code(c2), l2, l1);
        let q = dc_code(c2) / pow2((l2 - l1) as nat);
        lemma_pow2_pos((l2 - l1) as nat);
        lemma_pow2_adds(l1, (l2 - l1) as nat);
        assert(q < pow2(l1)) by {
            lemma_fundamental_div_mod(dc_code(c2) as int, pow2((l2 - l1) as nat) as int);
            let p = pow2((l2 - l1) as nat);
            let r = dc_code(c2) % p;
            assert(q < pow2(l1)) by (nonlinear_arith)
                requires
                    dc_code(c2) == p * q + r,
                    0 <= r,
                    dc_code(c2) < pow2(l1) * p,
                    p > 0,
            ;
        }
        lemma_bits_be_injective(q, dc_code(c1), l1);
    }
}

/// The category whose code begins `bits`, searched from `c` upwards; 17 if
/// none does.
pub open spec fn match_category(bits: Seq<bool>, c: nat) -> nat
    decreases 17 - c,
{
    if c > 16 {
        17
    } else if is_prefix(code_bits(c), bits) {
        c
    } else {
        match_category(bits, c + 1)
    }
}

proof fn lemma_match_category_from(c: nat, t: Seq<bool>, from: nat)
    requires
        from <= c <= 16,
    ensures
        match_category(code_bits(c) + t, from) == c,
    decreases c - from,
{
    let s = code_bits(c) + t;
    if from == c {
        lemma_dc_table(c);
        lemma_bits_be_len(dc_code(c), dc_len(c));
        assert(s.take(code_bits(c).len() as int) =~= code_bits(c));
    } else {
        lemma_codes_prefix_free(from, c, t);
        lemma_match_category_from(c, t, from + 1);
    }
}

/// A stream that begins with the code of category `c` decodes as `c`.
pub proof fn lemma_match_category(c: nat, t: Seq<bool>)
    requires
        c <= 16,
    ensures
        match_category(code_bits(c) + t, 0) == c,
{
    lemma_match_category_from(c, t, 0);
}

// ---------------------------------------------------------------------------
// One difference
// ---------------------------------------------------------------------------

/// The difference a category and its extra bits stand for: the extra bits
/// themselves when their top bit is set, else the negative difference
/// whose one's complement they are.
pub open spec fn diff_of(c: nat, extra: nat) -> int {
    if c == 0 {
        0
    } else if extra >= pow2((c - 1) as nat) {
        extra as int
    } else {
        extra - pow2(c) + 1
    }
}

/// The difference coded at the start of `bits`, and the number of bits its
/// code and extra bits take; category 16 stands for 32768 and has no extra
/// bits.
pub open spec fn decode_diff(bits: Seq<bool>) -> (int, nat) {
    let c = match_category(bits, 0);
    let l = dc_len(c);
    if c == 16 {
        (32768, l)
    } else {
        let extra = bits_value(bits.subrange(l as int, (l + c) as int));
        (diff_of(c, extra), l + c)
    }
}

/// The difference a decoder reads for a coded one: -32768 reads as 32768,
/// equal modulo 2^16.
pub open spec fn read_diff(d: int) -> int {
    if d == -32768 {
        32768
    } else {
        d
    }
}

/// A number of `c > 0` significant bits lies in `[2^(c-1), 2^c)`.
pub proof fn lemma_bit_len_range(n: nat)
    requires
        n > 0,
    ensures
        bit_len(n) > 0,
        pow2((bit_len(n) - 1) as nat) <= n < pow2(bit_len(n)),
    decreases n,
{
    lemma_bit_len_bound(n);
    if n / 2 == 0 {
        assert(bit_len(0) == 0);
        assert(pow2(0) == 1) by { lemma2_to64(); }
    } else {
        lemma_bit_len_range(n / 2);
        lemma_pow2_unfold((bit_len(n) - 1) as nat);
    }
}

/// The difference is recovered from its category and extra bits.
pub proof fn lemma_diff_of_extra(d: int)
    ensures
        diff_of(category(d), extra_bits(d)) == d,
        extra_bits(d) < pow2(category(d)),
{
    let a = abs_int(d);
    let c = category(d);
    if d == 0 {
        assert(pow2(0) == 1) by { lemma2_to64(); }
    } else {
        lemma_bit_len_range(a);
        lemma_pow2_unfold(c);
    }
}

/// A difference in `[-32768, 32768)` decodes from its bits, whatever
/// follows them.
pub proof fn lemma_decode_diff(d: int, t: Seq<bool>)
    requires
        -32768 <= d < 32768,
    ensures
        decode_diff(diff_bits(d) + t) == (read_diff(d), diff_bits(d).len()),
{
    lemma2_to64();
    if d == -32768 {
        lemma_dc_table(16);
        lemma_match_category(16, t);
        lemma_bits_be_len(dc_code(16), dc_len(16));
    } else {
        let c = category(d);
        assert(abs_int(d) < pow2(15));
        lemma_bit_len_at_most(abs_int(d), 15);
        lemma_dc_table(c);
        let e = extra_bits(d);
        let head = code_bits(c);
        let tail = bits_be(e, c) + t;
        let s = diff_bits(d) + t;
        assert(s =~= head + tail);
        lemma_match_category(c, tail);
        let l = dc_len(c);
        lemma_bits_be_len(dc_code(c), l);
        lemma_bits_be_len(e, c);
        assert(s.subrange(l as int, (l + c) as int) =~= bits_be(e, c));
        lemma_bits_value_of(e, c);
        lemma_diff_of_extra(d);
        lemma_small_mod(e, pow2(c));
    }
}

/// A sample predicted by `p` comes back from its wrapped difference,
/// added to `p` modulo 2^16.
proof fn lemma_wrap_back(x: int, p: int)
    requires
        0 <= x < 65536,
        0 <= p <= 65536,
    ensures
        -32768 <= wrap16(x - p) < 32768,
        (p + read_diff(wrap16(x - p))) % 65536 == x,
{
    let e = x - p;
    let w = wrap16(e);
    let v = p + read_diff(w);
    if w == -32768 {
        if e == -32768 {
            assert(v == x + 65536);
        } else {
            assert(e == 32768);
            assert(v == x);
        }
    } else if e < -32768 {
        assert(v == x + 65536);
    } else if e >= 32768 {
        assert(v == x - 65536);
    } else {
        assert(v == x);
    }
    assert(v == x || v == x + 65536 || v == x - 65536);
    if v == x + 65536 {
        lemma_fundamental_div_mod_converse(v, 65536, 1, x);
    } else if v == x - 65536 {
        lemma_fundamental_div_mod_converse(v, 65536, -1, x);
    } else {
        lemma_small_mod(x as nat, 65536);
    }
}

// ---------------------------------------------------------------------------
// Rows and scans
// ---------------------------------------------------------------------------

/// Decodes `n` samples, the first predicted by `prev` and each next one by
/// the sample before it, each the prediction plus the difference modulo
/// 2^16; also gives the number of bits read.
pub open spec fn decode_row(bits: Seq<bool>, n: nat, prev: int) -> (Seq<int>, nat)
    decreases n,
{
    if n == 0 {
        (Seq::empty(), 0)
    } else {
        let (d, used) = decode_diff(bits);
        let v = (prev + d) % 65536;
        let (rest, used2) = decode_row(bits.skip(used as int), (n - 1) as nat, v);
        (seq![v] + rest, used + used2)
    }
}

/// Decodes `h` rows of `w` samples, the first sample of the first row
/// predicted by `top` and the first of each later row by the sample above
/// it.
pub open spec fn decode_rows(bits: Seq<bool>, w: nat, h: nat, top: int) -> Seq<int>
    decreases h,
{
    if h == 0 {
        Seq::empty()
    } else {
        let (r, used) = decode_row(bits, w, top);
        r + decode_rows(
            bits.skip(used as int),
            w,
            (h - 1) as nat,
            if r.len() > 0 {
                r[0]
            } else {
                top
            },
        )
    }
}

/// The bits of samples `a` to `n - 1` of the row starting at `row`.
pub open spec fn row_bits_from(bayer: Seq<u16>, w: nat, row: int, a: nat, n: nat) -> Seq<bool>
    decreases n - a,
{
    if a >= n {
        Seq::empty()
    } else {
        diff_bits(pixel_diff(bayer, w, row, a as int)) + row_bits_from(bayer, w, row, a + 1, n)
    }
}

/// The bits of rows `a` to `h - 1`.
pub open spec fn scan_bits_from(bayer: Seq<u16>, w: nat, a: nat, h: nat) -> Seq<bool>
    decreases h - a,
{
    if a >= h {
        Seq::empty()
    } else {
        row_bits_from(bayer, w, (a * w) as int, 0, w) + scan_bits_from(bayer, w, a + 1, h)
    }
}

proof fn lemma_row_bits_from_last(bayer: Seq<u16>, w: nat, row: int, a: nat, n: nat)
    requires
        a < n,
    ensures
        row_bits_from(bayer, w, row, a, n) == row_bits_from(bayer, w, row, a, (n - 1) as nat)
            + diff_bits(pixel_diff(bayer, w, row, n - 1)),
    decreases n - a,
{
    if a + 1 < n {
        lemma_row_bits_from_last(bayer, w, row, a + 1, n);
        assert(row_bits_from(bayer, w, row, a, n) =~= row_bits_from(bayer, w, row, a, (n - 1) as nat)
            + diff_bits(pixel_diff(bayer, w, row, n - 1)));
    } else {
        assert(row_bits_from(bayer, w, row, a + 1, n) =~= Seq::<bool>::empty());
        assert(row_bits_from(bayer, w, row, a, (n - 1) as nat) =~= Seq::<bool>::empty());
        assert(row_bits_from(bayer, w, row, a, n) =~= row_bits_from(bayer, w, row, a, (n - 1) as nat)
            + diff_bits(pixel_diff(bayer, w, row, n - 1)));
    }
}

/// The encoder's row bits, read from the front.
proof fn lemma_row_bits_front(bayer: Seq<u16>, w: nat, row: int, n: nat)
    ensures
        row_bits(bayer, w, row, n) == row_bits_from(bayer, w, row, 0, n),
    decreases n,
{
    if n > 0 {
        lemma_row_bits_front(bayer, w, row, (n - 1) as nat);
        lemma_row_bits_from_last(bayer, w, row, 0, n);
    } else {
        assert(row_bits(bayer, w, row, 0) =~= row_bits_from(bayer, w, row, 0, 0));
    }
}

proof fn lemma_scan_bits_from_last(bayer: Seq<u16>, w: nat, a: nat, h: nat)
    requires
        a < h,
    ensures
        scan_bits_from(bayer, w, a, h) == scan_bits_from(bayer, w, a, (h - 1) as nat) + row_bits_from(
            bayer,
            w,
            (h - 1) * w,
            0,
            w,
        ),
    decreases h - a,
{
    if a + 1 < h {
        lemma_scan_bits_from_last(bayer, w, a + 1, h);
        assert(scan_bits_from(bayer, w, a, h) =~= scan_bits_from(bayer, w, a, (h - 1) as nat)
            + row_bits_from(bayer, w, (h - 1) * w, 0, w));
    } else {
        assert(scan_bits_from(bayer, w, a + 1, h) =~= Seq::<bool>::empty());
        assert(scan_bits_from(bayer, w, a, (h - 1) as nat) =~= Seq::<bool>::empty());
        assert(scan_bits_from(bayer, w, a, h) =~= scan_bits_from(bayer, w, a, (h - 1) as nat)
            + row_bits_from(bayer, w, (h - 1) * w, 0, w));
    }
}

/// The encoder's scan bits, read from the front.
proof fn lemma_scan_bits_front(bayer: Seq<u16>, w: nat, h: nat)
    ensures
        scan_bits(bayer, w, h) == scan_bits_from(bayer, w, 0, h),
    decreases h,
{
    if h > 0 {
        lemma_scan_bits_front(bayer, w, (h - 1) as nat);
        lemma_scan_bits_from_last(bayer, w, 0, h);
        lemma_row_bits_front(bayer, w, (h - 1) * w, w);
    } else {
        assert(scan_bits(bayer, w, 0) =~= scan_bits_from(bayer, w, 0, 0));
    }
}

/// The samples `from` to `to - 1`, as numbers.
pub open spec fn samples(bayer: Seq<u16>, from: int, to: int) -> Seq<int> {
    bayer.subrange(from, to).map_values(|v: u16| v as int)
}

/// Decoding the bits of samples `a..n` of a row, predicted as the encoder
/// predicted them, gives those samples back.
proof fn lemma_decode_row(bayer: Seq<u16>, w: nat, row: int, a: nat, n: nat, t: Seq<bool>)
    requires
        a <= n,
        0 <= row,
        row + n <= bayer.len(),
    ensures
        decode_row(row_bits_from(bayer, w, row, a, n) + t, (n - a) as nat, predictor(bayer, w, row, a as int))
            == (samples(bayer, row + a, row + n), row_bits_from(bayer, w, row, a, n).len()),
    decreases n - a,
{
    let prev = predictor(bayer, w, row, a as int);
    if a == n {
        assert(row_bits_from(bayer, w, row, a, n) + t =~= t);
        assert(samples(bayer, row + a, row + n) =~= Seq::<int>::empty());
    } else {
        let d = pixel_diff(bayer, w, row, a as int);
        let db = diff_bits(d);
        let rest = row_bits_from(bayer, w, row, a + 1, n);
        let bits = row_bits_from(bayer, w, row, a, n) + t;
        assert(bits =~= db + (rest + t));
        lemma_wrap_back(bayer[row + a] as int, prev);
        lemma_decode_diff(d, rest + t);
        assert(bits.skip(db.len() as int) =~= rest + t);
        lemma_decode_row(bayer, w, row, a + 1, n, t);
        assert((prev + read_diff(d)) % 65536 == bayer[row + a]);
        assert(predictor(bayer, w, row, (a + 1) as int) == bayer[row + a] as int);
        assert(samples(bayer, row + a, row + n) =~= seq![bayer[row + a] as int] + samples(
            bayer,
            row + a + 1,
            row + n,
        ));
    }
}

/// Decoding the bits of rows `a..h` gives the samples of those rows back.
proof fn lemma_decode_rows(bayer: Seq<u16>, w: nat, a: nat, h: nat, t: Seq<bool>)
    requires
        a <= h,
        h * w <= bayer.len(),
    ensures
        decode_rows(scan_bits_from(bayer, w, a, h) + t, w, (h - a) as nat, predictor(
            bayer,
            w,
            (a * w) as int,
            0,
        )) == samples(bayer, (a * w) as int, (h * w) as int),
    decreases h - a,
{
    let aw: int = (a * w) as int;
    let hw: int = (h * w) as int;
    if a == h {
        assert(scan_bits_from(bayer, w, a, h) + t =~= t);
        assert(samples(bayer, aw, hw) =~= Seq::<int>::empty());
    } else {
        assert(a * w + w == (a + 1) * w) by (nonlinear_arith);
        assert((a + 1) * w <= h * w) by (nonlinear_arith)
            requires
                a < h,
        ;
        let rb = row_bits_from(bayer, w, aw, 0, w);
        let rest = scan_bits_from(bayer, w, a + 1, h);
        let bits = scan_bits_from(bayer, w, a, h) + t;
        assert(bits =~= rb + (rest + t));
        lemma_decode_row(bayer, w, aw, 0, w, rest + t);
        assert(bits.skip(rb.len() as int) =~= rest + t);
        lemma_decode_rows(bayer, w, a + 1, h, t);
        let r = samples(bayer, aw, aw + w);
        if w > 0 {
            assert(r[0] == bayer[aw] as int);
            assert((a + 1) * w > 0) by (nonlinear_arith)
                requires
                    w > 0,
            ;
            assert(predictor(bayer, w, ((a + 1) * w) as int, 0) == bayer[aw] as int);
        } else {
            assert(r.len() == 0);
            assert((a + 1) * w == 0 && a * w == 0) by (nonlinear_arith)
                requires
                    w == 0,
            ;
        }
        assert(samples(bayer, aw, hw) =~= samples(bayer, aw, aw + w) + samples(
            bayer,
            ((a + 1) * w) as int,
            hw,
        ));
    }
}

// ---------------------------------------------------------------------------
// Bytes
// ---------------------------------------------------------------------------

/// Zero bits that fill the last byte of an `n`-bit string.
pub open spec fn pad_len(n: nat) -> nat {
    ((8 - n % 8) % 8) as nat
}

/// Unpacking packed bits gives them back, followed by the fill bits.
pub proof fn lemma_bytes_bits_pack(s: Seq<bool>)
    ensures
        bytes_bits(pack_bits(s)) == s + zeros(pad_len(s.len())),
    decreases s.len(),
{
    lemma2_to64();
    if s.len() == 0 {
        assert(bytes_bits(pack_bits(s)) =~= Seq::<bool>::empty());
        assert(s + zeros(pad_len(s.len())) =~= Seq::<bool>::empty());
    } else if s.len() <= 8 {
        let n = s.len();
        let k = (8 - n) as nat;
        let v = bits_value(s);
        lemma_bits_of_value(s);
        lemma_pow2_pos(k);
        lemma_pow2_adds(n, k);
        assert(n + k == 8);
        let x = v * pow2(k);
        assert(x < 256) by (nonlinear_arith)
            requires
                v < pow2(n),
                pow2(n) * pow2(k) == 256,
                x == v * pow2(k),
                pow2(k) > 0,
        ;
        lemma_bits_be_concat(v, 0, n, k);
        assert(x + 0 == x);
        lemma_bits_of_zero(k);
        let b = seq![x as u8];
        assert(pack_bits(s) == b);
        assert(b.skip(1) =~= Seq::<u8>::empty());
        assert(bytes_bits(b) =~= bits_be(x, 8) + bytes_bits(Seq::<u8>::empty()));
        assert(bytes_bits(Seq::<u8>::empty()) =~= Seq::<bool>::empty());
        assert(pad_len(n) == k);
        assert(bytes_bits(b) =~= s + zeros(k));
    } else {
        let head = s.take(8);
        let tail = s.skip(8);
        lemma_bits_of_value(head);
        let b0 = bits_value(head) as u8;
        assert(b0 as nat == bits_value(head));
        let p = pack_bits(s);
        assert(p == seq![b0] + pack_bits(tail));
        assert(p.skip(1) =~= pack_bits(tail));
        assert(p[0] == b0);
        lemma_bytes_bits_pack(tail);
        assert(pad_len(tail.len()) == pad_len(s.len()));
        assert(bytes_bits(p) == bits_be(b0 as nat, 8) + bytes_bits(p.skip(1)));
        assert(s =~= head + tail);
        assert(bytes_bits(p) =~= s + zeros(pad_len(s.len())));
    }
}

/// Undoes byte stuffing: a zero byte after `0xFF` is dropped.
pub open spec fn unstuff(s: Seq<u8>) -> Seq<u8>
    decreases s.len(),
{
    if s.len() == 0 {
        Seq::empty()
    } else if s.len() >= 2 && s[0] == 0xFFu8 && s[1] == 0x00u8 {
        seq![0xFFu8] + unstuff(s.skip(2))
    } else {
        seq![s[0]] + unstuff(s.skip(1))
    }
}

/// Stuffing works byte by byte.
pub proof fn lemma_stuff_append(a: Seq<u8>, b: Seq<u8>)
    ensures
        stuff(a + b) == stuff(a) + stuff(b),
    decreases b.len(),
{
    if b.len() == 0 {
        assert(a + b =~= a);
        assert(stuff(b) =~= Seq::<u8>::empty());
        assert(stuff(a) + stuff(b) =~= stuff(a));
    } else {
        assert((a + b).drop_last() =~= a + b.drop_last());
        assert((a + b).last() == b.last());
        lemma_stuff_append(a, b.drop_last());
        if b.last() == 0xFFu8 {
            assert(stuff(a + b) =~= stuff(a) + stuff(b));
        } else {
            assert(stuff(a + b) =~= stuff(a) + stuff(b));
        }
    }
}

/// Unstuffing undoes stuffing.
pub proof fn lemma_unstuff_stuff(s: Seq<u8>)
    ensures
        unstuff(stuff(s)) == s,
    decreases s.len(),
{
    if s.len() == 0 {
        assert(stuff(s) =~= Seq::<u8>::empty());
    } else {
        let x = s[0];
        let rest = s.skip(1);
        assert(s =~= seq![x] + rest);
        lemma_stuff_append(seq![x], rest);
        let one = seq![x];
        assert(one.drop_last() =~= Seq::<u8>::empty());
        assert(stuff(one.drop_last()) =~= Seq::<u8>::empty());
        lemma_unstuff_stuff(rest);
        let t = stuff(s);
        if x == 0xFFu8 {
            assert(stuff(one) =~= seq![0xFFu8, 0x00u8]);
            assert(t =~= seq![0xFFu8, 0x00u8] + stuff(rest));
            assert(t.skip(2) =~= stuff(rest));
            assert(unstuff(t) =~= seq![0xFFu8] + rest);
        } else {
            assert(stuff(one) =~= seq![x]);
            assert(t =~= seq![x] + stuff(rest));
            assert(t.skip(1) =~= stuff(rest));
            assert(unstuff(t) =~= seq![x] + rest);
        }
    }
}

// ---------------------------------------------------------------------------
// The stream
// ---------------------------------------------------------------------------

/// Byte length of the markers and headers before the entropy-coded scan.
pub open spec fn lj92_header_len() -> nat {
    63
}

pub proof fn lemma_lj92_headers_len(width: nat, height: nat)
    ensures
        lj92_headers(width, height).len() == lj92_header_len(),
{
}

/// The entropy-coded bytes of a stream: what lies between the headers and
/// the end-of-image marker.
pub open spec fn lj92_scan_bytes(jpeg: Seq<u8>) -> Seq<u8> {
    jpeg.subrange(lj92_header_len() as int, jpeg.len() - 2)
}

/// The samples a lossless JPEG decoder of ITU-T T.81 (predictor 1,
/// 16-bit precision, no point transform, one component, the DC table of
/// this module) reads from a `width` x `height` stream: the first sample is
/// predicted by 2^15, the first of each later row by the sample above, the
/// others by the sample to the left, and differences are added modulo 2^16.
pub open spec fn lj92_samples(jpeg: Seq<u8>, width: nat, height: nat) -> Seq<int> {
    decode_rows(bytes_bits(unstuff(lj92_scan_bytes(jpeg))), width, height, 32768)
}

/// LJ92 is lossless: decoding the stream `compress_lj92` writes for a
/// `width` x `height` plane gives back its first `width * height` samples.
pub proof fn lemma_lj92_lossless(bayer: Seq<u16>, width: nat, height: nat)
    requires
        width * height <= bayer.len(),
    ensures
        lj92_samples(lj92_stream(bayer, width, height), width, height) == samples(
            bayer,
            0,
            (width * height) as int,
        ),
{
    let bits = scan_bits(bayer, width, height);
    let packed = pack_bits(bits);
    let jpeg = lj92_stream(bayer, width, height);
    lemma_lj92_headers_len(width, height);
    assert(lj92_scan_bytes(jpeg) =~= stuff(packed));
    lemma_unstuff_stuff(packed);
    lemma_bytes_bits_pack(bits);
    lemma_scan_bits_front(bayer, width, height);
    assert(height * width == width * height) by (nonlinear_arith);
    lemma_decode_rows(bayer, width, 0, height, zeros(pad_len(bits.len())));
    assert(0 * width == 0);
}

} // verus!

//! Lossless JPEG (ITU T.81 process 14, predictor 1) for one 16-bit CFA plane.
//!
//! The entropy-coded segment is modelled as a sequence of bits: each sample
//! contributes the Huffman code of its difference category followed by the
//! category's extra bits; the bits are packed into bytes most significant bit
//! first, the last byte padded with zeros, and every `0xFF` byte is followed by
//! a stuffed `0x00`.

use vstd::prelude::*;
use vstd::arithmetic::power2::{pow2, lemma_pow2_unfold, lemma_pow2_pos, lemma_pow2_adds, lemma2_to64};
use vstd::arithmetic::div_mod::{lemma_fundamental_div_mod, lemma_fundamental_div_mod_converse, lemma_mod_breakdown};
use vstd::bits::{lemma_u32_shl_is_mul, lemma_u32_shr_is_div, lemma_u32_low_bits_mask_is_mod, low_bits_mask};

verus! {

// ---------------------------------------------------------------------------
// Bit strings
// ---------------------------------------------------------------------------

/// The `n` low bits of `v`, most significant first.
pub open spec fn bits_be(v: nat, n: nat) -> Seq<bool>
    decreases n,
{
    if n == 0 {
        Seq::empty()
    } else {
        bits_be(v / 2, (n - 1) as nat).push(v % 2 == 1)
    }
}

/// The bits of a byte string, each byte most significant bit first.
pub open spec fn bytes_bits(b: Seq<u8>) -> Seq<bool>
    decreases b.len(),
{
    if b.len() == 0 {
        Seq::empty()
    } else {
        bits_be(b[0] as nat, 8) + bytes_bits(b.skip(1))
    }
}

/// The number a bit string denotes, read most significant bit first.
pub open spec fn bits_value(s: Seq<bool>) -> nat
    decreases s.len(),
{
    if s.len() == 0 {
        0
    } else {
        2 * bits_value(s.drop_last()) + if s.last() { 1nat } else { 0nat }
    }
}

/// A bit string packed into bytes, most significant bit first, the last byte
/// filled up with zero bits.
pub open spec fn pack_bits(s: Seq<bool>) -> Seq<u8>
    decreases s.len(),
{
    if s.len() == 0 {
        Seq::empty()
    } else if s.len() <= 8 {
        seq![(bits_value(s) * pow2((8 - s.len()) as nat)) as u8]
    } else {
        seq![bits_value(s.take(8)) as u8] + pack_bits(s.skip(8))
    }
}

/// JPEG byte stuffing: a zero byte after every `0xFF`.
pub open spec fn stuff(s: Seq<u8>) -> Seq<u8>
    decreases s.len(),
{
    if s.len() == 0 {
        Seq::empty()
    } else if s.last() == 0xFFu8 {
        stuff(s.drop_last()) + seq![0xFFu8, 0x00u8]
    } else {
        stuff(s.drop_last()).push(s.last())
    }
}

pub proof fn lemma_bits_be_len(v: nat, n: nat)
    ensures
        bits_be(v, n).len() == n,
    decreases n,
{
    if n > 0 {
        lemma_bits_be_len(v / 2, (n - 1) as nat);
    }
}

/// Writing `a` in `n` bits and then `v < 2^c` in `c` bits gives the bits of
/// `a * 2^c + v` in `n + c` bits.
pub proof fn lemma_bits_be_concat(a: nat, v: nat, n: nat, c: nat)
    requires
        v < pow2(c),
    ensures
        bits_be(a * pow2(c) + v, n + c) == bits_be(a, n) + bits_be(v, c),
    decreases c,
{
    if c == 0 {
        assert(pow2(0) == 1) by { lemma2_to64(); }
        assert(a * pow2(c) + v == a) by (nonlinear_arith)
            requires
                pow2(c) == 1,
                v < pow2(c),
        ;
        assert(bits_be(a, n) + bits_be(v, c) =~= bits_be(a, n));
    } else {
        let p = pow2((c - 1) as nat);
        lemma_pow2_unfold(c);
        lemma_pow2_pos((c - 1) as nat);
        let m = a * p;
        assert(a * pow2(c) == 2 * m) by (nonlinear_arith)
            requires
                pow2(c) == 2 * p,
                m == a * p,
        ;
        let x = a * pow2(c) + v;
        lemma_fundamental_div_mod(v as int, 2);
        lemma_fundamental_div_mod_converse(x as int, 2, (m + v / 2) as int, (v % 2) as int);
        assert(v / 2 < p);
        lemma_bits_be_concat(a, v / 2, n, (c - 1) as nat);
        assert((n + c - 1) as nat == n + (c - 1) as nat);
        assert(bits_be(x, n + c) == bits_be(x / 2, (n + c - 1) as nat).push(x % 2 == 1));
        assert(bits_be(a, n) + bits_be(v, c) =~= (bits_be(a, n) + bits_be(v / 2, (c - 1) as nat)).push(
            v % 2 == 1,
        ));
    }
}

/// Only the `n` low bits of a value matter.
pub proof fn lemma_bits_be_mod(x: nat, n: nat)
    ensures
        bits_be(x, n) == bits_be(x % pow2(n), n),
{
    lemma_pow2_pos(n);
    lemma_fundamental_div_mod(x as int, pow2(n) as int);
    let a = x / pow2(n);
    let v = x % pow2(n);
    assert(x == a * pow2(n) + v) by (nonlinear_arith)
        requires
            x == pow2(n) * (x / pow2(n)) + (x % pow2(n)),
            a == x / pow2(n),
            v == x % pow2(n),
    ;
    lemma_bits_be_concat(a, v, 0, n);
    assert(bits_be(a, 0) + bits_be(v, n) =~= bits_be(v, n));
    assert(0 + n == n);
}

pub proof fn lemma_bits_value_of(v: nat, n: nat)
    ensures
        bits_value(bits_be(v, n)) == v % pow2(n),
    decreases n,
{
    lemma_pow2_pos(n);
    if n == 0 {
        assert(pow2(0) == 1) by { lemma2_to64(); }
    } else {
        let p = pow2((n - 1) as nat);
        lemma_pow2_unfold(n);
        lemma_pow2_pos((n - 1) as nat);
        lemma_bits_value_of(v / 2, (n - 1) as nat);
        let s = bits_be(v, n);
        assert(s.drop_last() =~= bits_be(v / 2, (n - 1) as nat));
        lemma_mod_breakdown(v as int, 2, p as int);
    }
}

pub proof fn lemma_bytes_bits_len(b: Seq<u8>)
    ensures
        bytes_bits(b).len() == 8 * b.len(),
    decreases b.len(),
{
    if b.len() > 0 {
        lemma_bits_be_len(b[0] as nat, 8);
        lemma_bytes_bits_len(b.skip(1));
    }
}

pub proof fn lemma_bytes_bits_push(b: Seq<u8>, x: u8)
    ensures
        bytes_bits(b.push(x)) == bytes_bits(b) + bits_be(x as nat, 8),
    decreases b.len(),
{
    if b.len() == 0 {
        assert(b.push(x).skip(1) =~= Seq::<u8>::empty());
        assert(bytes_bits(Seq::<u8>::empty()) =~= Seq::<bool>::empty());
        assert(b.push(x)[0] == x);
        assert(bytes_bits(b.push(x)) =~= bits_be(x as nat, 8));
        assert(bytes_bits(b) + bits_be(x as nat, 8) =~= bits_be(x as nat, 8));
    } else {
        assert(b.push(x).skip(1) =~= b.skip(1).push(x));
        lemma_bytes_bits_push(b.skip(1), x);
        assert(b.push(x)[0] == b[0]);
        assert(bytes_bits(b.push(x)) =~= bits_be(b[0] as nat, 8) + (bytes_bits(b.skip(1)) + bits_be(
            x as nat,
            8,
        )));
    }
}

/// Whole bytes in front of a bit string pack back to themselves.
pub proof fn lemma_pack_after_bytes(b: Seq<u8>, t: Seq<bool>)
    ensures
        pack_bits(bytes_bits(b) + t) == b + pack_bits(t),
    decreases b.len(),
{
    if b.len() == 0 {
        assert(bytes_bits(b) + t =~= t);
        assert(b + pack_bits(t) =~= pack_bits(t));
    } else {
        let s = bytes_bits(b) + t;
        let head = bits_be(b[0] as nat, 8);
        let rest = bytes_bits(b.skip(1)) + t;
        lemma_bits_be_len(b[0] as nat, 8);
        lemma_bytes_bits_len(b.skip(1));
        assert(s =~= head + rest);
        lemma_bits_value_of(b[0] as nat, 8);
        assert(pow2(8) == 256 && pow2(0) == 1) by { lemma2_to64(); }
        assert(bits_value(head) == b[0]);
        lemma_pack_after_bytes(b.skip(1), t);
        if s.len() <= 8 {
            assert(rest.len() == 0);
            assert(s =~= head);
            assert(b.skip(1).len() == 0);
            assert(t.len() == 0);
            assert(pack_bits(t) =~= Seq::<u8>::empty());
            assert(b =~= seq![b[0]]);
            assert(pack_bits(s) == seq![(bits_value(s) * pow2(0)) as u8]);
            assert(b + pack_bits(t) =~= b);
        } else {
            assert(s.take(8) =~= head);
            assert(s.skip(8) =~= rest);
            assert(b + pack_bits(t) =~= seq![b[0]] + (b.skip(1) + pack_bits(t)));
        }
    }
}

// ---------------------------------------------------------------------------
// Bit writer
// ---------------------------------------------------------------------------

/// Accumulates bits most significant first and emits whole bytes.
struct BitWriter {
    buf: Vec<u8>,
    acc: u32,
    nbits: u32,
}

impl BitWriter {
    spec fn wf(&self) -> bool {
        self.nbits < 8 && self.acc < pow2(self.nbits as nat)
    }

    /// Every bit written so far.
    spec fn stream(&self) -> Seq<bool> {
        bytes_bits(self.buf@) + bits_be(self.acc as nat, self.nbits as nat)
    }

    fn new() -> (w: Self)
        ensures
            w.wf(),
            w.stream() == Seq::<bool>::empty(),
    {
        let w = BitWriter { buf: Vec::new(), acc: 0, nbits: 0 };
        proof {
            assert(pow2(0) == 1) by { lemma2_to64(); }
            assert(w.stream() =~= Seq::<bool>::empty());
        }
        w
    }

    fn write_bits(&mut self, value: u32, count: u32)
        requires
            old(self).wf(),
            count <= 24,
            value < pow2(count as nat),
        ensures
            final(self).wf(),
            final(self).stream() == old(self).stream() + bits_be(value as nat, count as nat),
    {
        let ghost target = self.stream() + bits_be(value as nat, count as nat);
        let ghost old_acc = self.acc;
        let ghost old_n = self.nbits;
        proof {
            lemma2_to64();
            lemma_pow2_adds(self.nbits as nat, count as nat);
            lemma_pow2_pos(count as nat);
            assert(self.acc * pow2(count as nat) < pow2(self.nbits as nat) * pow2(count as nat))
                by (nonlinear_arith)
                requires
                    self.acc < pow2(self.nbits as nat),
                    pow2(count as nat) > 0,
            ;
            assert(pow2((self.nbits + count) as nat) <= pow2(31)) by {
                if self.nbits + count < 31 {
                    vstd::arithmetic::power2::lemma_pow2_strictly_increases(
                        (self.nbits + count) as nat,
                        31,
                    );
                }
            }
            lemma_u32_shl_is_mul(self.acc, count);
            lemma_u32_shl_is_mul(1, count);
        }
        let shifted = self.acc << count;
        let a = self.acc;
        assert((shifted | value) == shifted + value) by (bit_vector)
            requires
                shifted == a << count,
                value < (1u32 << count),
                count <= 24,
                a < 128,
        ;
        self.acc = shifted | value;
        self.nbits = self.nbits + count;
        proof {
            assert(old_acc * pow2(count as nat) + value < pow2((old_n + count) as nat))
                by (nonlinear_arith)
                requires
                    old_acc + 1 <= pow2(old_n as nat),
                    value < pow2(count as nat),
                    pow2(old_n as nat) * pow2(count as nat) == pow2((old_n + count) as nat),
            ;
            lemma_bits_be_concat(old_acc as nat, value as nat, old_n as nat, count as nat);
            assert(self.stream() =~= target);
        }
        while self.nbits >= 8
            invariant
                self.nbits <= 31,
                self.acc < pow2(31),
                self.stream() == target,
            decreases self.nbits,
        {
            let shift = self.nbits - 8;
            let acc = self.acc;
            proof {
                lemma_u32_shr_is_div(acc, shift);
                lemma_pow2_pos(shift as nat);
            }
            let byte = (acc >> shift) as u8;
            proof {
                let hi = acc >> shift;
                assert(hi as u8 == hi % 256) by (bit_vector);
                let q = acc as nat / pow2(shift as nat);
                let r = acc as nat % pow2(shift as nat);
                lemma_fundamental_div_mod(acc as int, pow2(shift as nat) as int);
                assert(acc == q * pow2(shift as nat) + r) by (nonlinear_arith)
                    requires
                        acc == pow2(shift as nat) * (acc as nat / pow2(shift as nat)) + (acc as nat
                            % pow2(shift as nat)),
                        q == acc as nat / pow2(shift as nat),
                        r == acc as nat % pow2(shift as nat),
                ;
                lemma_bits_be_concat(q, r, 8, shift as nat);
                assert(8 + shift as nat == self.nbits as nat);
                lemma_bits_be_mod(q, 8);
                lemma2_to64();
                lemma_bits_be_mod(acc as nat, shift as nat);
                lemma_bytes_bits_push(self.buf@, byte);
            }
            self.buf.push(byte);
            self.nbits = shift;
            proof {
                assert(self.stream() =~= target);
            }
        }
        let n = self.nbits;
        proof {
            lemma_u32_shl_is_mul(1, n);
            lemma2_to64();
            lemma_pow2_pos(n as nat);
            lemma_u32_low_bits_mask_is_mod(self.acc, n as nat);
            lemma_bits_be_mod(self.acc as nat, n as nat);
        }
        let mask = (1u32 << n) - 1;
        assert(mask == low_bits_mask(n as nat) as u32);
        self.acc = self.acc & mask;
        proof {
            assert(self.stream() =~= target);
        }
    }

    /// Pads the pending bits with zeros to a whole byte.
    fn flush(&mut self)
        requires
            old(self).wf(),
        ensures
            final(self).buf@ == pack_bits(old(self).stream()),
    {
        proof {
            lemma_pack_after_bytes(self.buf@, bits_be(self.acc as nat, self.nbits as nat));
            lemma_bits_be_len(self.acc as nat, self.nbits as nat);
        }
        if self.nbits > 0 {
            let n = self.nbits;
            let acc = self.acc;
            let sh = 8 - n;
            proof {
                lemma2_to64();
                lemma_pow2_adds(n as nat, (8 - n) as nat);
                assert(acc * pow2((8 - n) as nat) < 256) by (nonlinear_arith)
                    requires
                        acc < pow2(n as nat),
                        pow2(n as nat) * pow2((8 - n) as nat) == 256,
                ;
                lemma_u32_shl_is_mul(acc, sh);
                lemma_bits_value_of(acc as nat, n as nat);
                vstd::arithmetic::div_mod::lemma_small_mod(acc as nat, pow2(n as nat));
            }
            let byte = (acc << sh) as u8;
            self.buf.push(byte);
            self.nbits = 0;
            self.acc = 0;
        } else {
            proof {
                assert(pack_bits(bits_be(self.acc as nat, 0)) =~= Seq::<u8>::empty());
                assert(self.buf@ + Seq::<u8>::empty() =~= self.buf@);
            }
        }
    }

    /// Stuffs a zero byte after every `0xFF` of the emitted bytes.
    fn byte_stuff(&mut self)
        ensures
            final(self).buf@ == stuff(old(self).buf@),
            final(self).acc == old(self).acc,
            final(self).nbits == old(self).nbits,
    {
        let mut out: Vec<u8> = Vec::new();
        let mut i: usize = 0;
        while i < self.buf.len()
            invariant
                i <= self.buf.len(),
                out@ == stuff(self.buf@.take(i as int)),
            decreases self.buf.len() - i,
        {
            let b = self.buf[i];
            proof {
                let t = self.buf@.take(i as int + 1);
                assert(t.drop_last() =~= self.buf@.take(i as int));
                assert(t.last() == b);
            }
            if b == 0xFF {
                out.push(0xFF);
                out.push(0x00);
                proof {
                    assert(out@ =~= stuff(self.buf@.take(i as int)) + seq![0xFFu8, 0x00u8]);
                }
            } else {
                out.push(b);
            }
            i = i + 1;
        }
        proof {
            assert(self.buf@.take(i as int) =~= self.buf@);
        }
        self.buf = out;
    }

    /// The finished entropy-coded segment: pad, then stuff.
    fn into_bytes(self) -> (r: Vec<u8>)
        requires
            self.wf(),
        ensures
            r@ == stuff(pack_bits(self.stream())),
    {
        let mut w = self;
        w.flush();
        w.byte_stuff();
        w.buf
    }
}

// ---------------------------------------------------------------------------
// Canonical Huffman codes (T.81 Annex C)
// ---------------------------------------------------------------------------

/// Number of codes shorter than `i + 1` bits: the sum of the first `i` counts.
pub open spec fn codes_below(bits: Seq<u8>, i: nat) -> nat
    decreases i,
{
    if i == 0 {
        0
    } else {
        codes_below(bits, (i - 1) as nat) + bits[i - 1] as nat
    }
}

/// The first code of length `i + 1` bits.
pub open spec fn first_code(bits: Seq<u8>, i: nat) -> nat
    decreases i,
{
    if i == 0 {
        0
    } else {
        2 * (first_code(bits, (i - 1) as nat) + bits[i - 1] as nat)
    }
}

/// Length index (length minus one) of the `k`th symbol, searched from `i`.
pub open spec fn level_from(bits: Seq<u8>, k: nat, i: nat) -> nat
    decreases 16 - i,
{
    if i >= 16 {
        16
    } else if k < codes_below(bits, i + 1) {
        i
    } else {
        level_from(bits, k, i + 1)
    }
}

/// Code length of the `k`th symbol of the value list.
pub open spec fn canon_len(bits: Seq<u8>, k: nat) -> nat {
    level_from(bits, k, 0) + 1
}

/// Code of the `k`th symbol of the value list.
pub open spec fn canon_code(bits: Seq<u8>, k: nat) -> nat {
    let i = level_from(bits, k, 0);
    (first_code(bits, i) + k - codes_below(bits, i)) as nat
}

proof fn lemma_codes_below_mono(bits: Seq<u8>, a: nat, b: nat)
    requires
        a <= b,
    ensures
        codes_below(bits, a) <= codes_below(bits, b),
    decreases b - a,
{
    if a < b {
        lemma_codes_below_mono(bits, a, (b - 1) as nat);
    }
}

proof fn lemma_first_code_mono(bits: Seq<u8>, a: nat, b: nat)
    requires
        a <= b,
    ensures
        first_code(bits, a) <= first_code(bits, b),
    decreases b - a,
{
    if a < b {
        lemma_first_code_mono(bits, a, (b - 1) as nat);
    }
}

proof fn lemma_level(bits: Seq<u8>, k: nat, i: nat, j: nat)
    requires
        j <= i < 16,
        codes_below(bits, i) <= k < codes_below(bits, i + 1),
    ensures
        level_from(bits, k, j) == i,
    decreases i - j,
{
    if j < i {
        lemma_codes_below_mono(bits, j + 1, i);
        lemma_level(bits, k, i, j + 1);
    }
}

/// Canonical Huffman codes from the count of codes of each length (`bits`)
/// and the symbols in order of increasing code length (`huffval`); both
/// vectors are indexed by symbol.
fn build_huffman_table(bits: &[u8; 16], huffval: &[u8]) -> (r: (Vec<u32>, Vec<u8>))
    requires
        codes_below(bits@, 16) <= huffval@.len(),
        forall|k: int| 0 <= k < codes_below(bits@, 16) ==> (huffval@[k] as int) < huffval@.len(),
        forall|k1: int, k2: int|
            0 <= k1 < k2 < codes_below(bits@, 16) ==> huffval@[k1] != huffval@[k2],
        first_code(bits@, 16) <= u32::MAX,
    ensures
        r.0@.len() == huffval@.len(),
        r.1@.len() == huffval@.len(),
        forall|k: int|
            #![trigger huffval@[k]]
            0 <= k < codes_below(bits@, 16) ==> r.0@[huffval@[k] as int] == canon_code(
                bits@,
                k as nat,
            ) && r.1@[huffval@[k] as int] == canon_len(bits@, k as nat),
        forall|s: int|
            0 <= s < huffval@.len() && (forall|k: int|
                0 <= k < codes_below(bits@, 16) ==> huffval@[k] != s) ==> r.0@[s] == 0 && r.1@[s]
                == 0,
{
    let num_sym = huffval.len();
    let mut codes = vec![0u32; num_sym];
    let mut sizes = vec![0u8; num_sym];
    proof {
        assert(forall|s: int| 0 <= s < num_sym ==> codes@[s] == 0 && sizes@[s] == 0);
    }
    let mut code: u32 = 0;
    let mut si: usize = 0;
    for i in 0..16
        invariant
            codes_below(bits@, 16) <= huffval@.len(),
            forall|k: int| 0 <= k < codes_below(bits@, 16) ==> (huffval@[k] as int) < huffval@.len(),
            forall|k1: int, k2: int|
                0 <= k1 < k2 < codes_below(bits@, 16) ==> huffval@[k1] != huffval@[k2],
            first_code(bits@, 16) <= u32::MAX,
            num_sym == huffval@.len(),
            codes@.len() == num_sym,
            sizes@.len() == num_sym,
            si == codes_below(bits@, i as nat),
            code == first_code(bits@, i as nat),
            forall|k: int|
                #![trigger huffval@[k]]
                0 <= k < si ==> codes@[huffval@[k] as int] == canon_code(bits@, k as nat)
                    && sizes@[huffval@[k] as int] == canon_len(bits@, k as nat),
            forall|s: int|
                0 <= s < num_sym && (forall|k: int| 0 <= k < si ==> huffval@[k] != s) ==> codes@[s]
                    == 0 && sizes@[s] == 0,
    {
        let count = bits[i] as usize;
        proof {
            lemma_codes_below_mono(bits@, (i + 1) as nat, 16);
            lemma_first_code_mono(bits@, (i + 1) as nat, 16);
        }
        for j in 0..count
            invariant
                codes_below(bits@, 16) <= huffval@.len(),
                forall|k: int|
                    0 <= k < codes_below(bits@, 16) ==> (huffval@[k] as int) < huffval@.len(),
                forall|k1: int, k2: int|
                    0 <= k1 < k2 < codes_below(bits@, 16) ==> huffval@[k1] != huffval@[k2],
                i < 16,
                count == bits@[i as int],
                codes_below(bits@, (i + 1) as nat) <= codes_below(bits@, 16),
                first_code(bits@, (i + 1) as nat) <= u32::MAX,
                num_sym == huffval@.len(),
                codes@.len() == num_sym,
                sizes@.len() == num_sym,
                si == codes_below(bits@, i as nat) + j,
                code == first_code(bits@, i as nat) + j,
                forall|k: int|
                    #![trigger huffval@[k]]
                    0 <= k < si ==> codes@[huffval@[k] as int] == canon_code(bits@, k as nat)
                        && sizes@[huffval@[k] as int] == canon_len(bits@, k as nat),
                forall|s: int|
                    0 <= s < num_sym && (forall|k: int| 0 <= k < si ==> huffval@[k] != s)
                        ==> codes@[s] == 0 && sizes@[s] == 0,
        {
            let sym = huffval[si] as usize;
            proof {
                lemma_level(bits@, si as nat, i as nat, 0);
            }
            let ghost old_codes = codes@;
            let ghost old_sizes = sizes@;
            let ghost old_si = si;
            codes.set(sym, code);
            sizes.set(sym, (i + 1) as u8);
            code = code + 1;
            si = si + 1;
            proof {
                assert forall|k: int| #![trigger huffval@[k]] 0 <= k < si implies codes@[huffval@[
                    k
                ] as int] == canon_code(bits@, k as nat) && sizes@[huffval@[k] as int]
                    == canon_len(bits@, k as nat) by {
                    if k < old_si {
                        assert(huffval@[k] != huffval@[old_si as int]);
                    }
                }
                assert forall|s: int|
                    0 <= s < num_sym && (forall|k: int| 0 <= k < si ==> huffval@[k] != s) implies codes@[s]
                    == 0 && sizes@[s] == 0 by {
                    assert(huffval@[old_si as int] != s);
                    assert(forall|k: int| 0 <= k < old_si ==> huffval@[k] != s);
                }
            }
        }
        proof {
            lemma_first_code_mono(bits@, (i + 1) as nat, 16);
            assert(code == first_code(bits@, i as nat) + bits@[i as int]);
            assert(first_code(bits@, (i + 1) as nat) == 2 * code);
            lemma2_to64();
            lemma_u32_shl_is_mul(code, 1);
        }
        code = code << 1;
    }
    (codes, sizes)
}

// ---------------------------------------------------------------------------
// Difference coding
// ---------------------------------------------------------------------------

/// Number of significant bits of `n`.
pub open spec fn bit_len(n: nat) -> nat
    decreases n,
{
    if n == 0 {
        0
    } else {
        1 + bit_len(n / 2)
    }
}

pub open spec fn abs_int(d: int) -> nat {
    if d < 0 {
        (-d) as nat
    } else {
        d as nat
    }
}

/// The difference category (SSSS) of a prediction difference.
pub open spec fn category(d: int) -> nat {
    bit_len(abs_int(d))
}

/// The extra bits that follow the category code: the difference itself when
/// positive, its one's complement in `category(d)` bits otherwise.
pub open spec fn extra_bits(d: int) -> nat {
    if d > 0 {
        d as nat
    } else {
        (d + pow2(category(d)) - 1) as nat
    }
}

pub proof fn lemma_bit_len_bound(n: nat)
    ensures
        n < pow2(bit_len(n)),
    decreases n,
{
    if n == 0 {
        assert(pow2(0) == 1) by { lemma2_to64(); }
    } else {
        lemma_bit_len_bound(n / 2);
        lemma_pow2_unfold(bit_len(n));
    }
}

pub proof fn lemma_bit_len_at_most(n: nat, k: nat)
    requires
        n < pow2(k),
    ensures
        bit_len(n) <= k,
    decreases n,
{
    if n > 0 {
        if k == 0 {
            assert(pow2(0) == 1) by { lemma2_to64(); }
        } else {
            lemma_pow2_unfold(k);
            lemma_bit_len_at_most(n / 2, (k - 1) as nat);
        }
    }
}

/// Category and extra bits of one difference.
fn encode_jpeg_diff(diff: i32) -> (r: (u32, u32))
    requires
        diff != i32::MIN,
    ensures
        r.0 == category(diff as int),
        r.1 == extra_bits(diff as int),
        r.0 <= 31,
        r.1 < pow2(r.0 as nat),
{
    if diff == 0 {
        proof {
            assert(pow2(0) == 1) by { lemma2_to64(); }
        }
        return (0, 0);
    }
    let abs_diff: u32 = if diff < 0 { (-(diff as i64)) as u32 } else { diff as u32 };
    proof {
        lemma2_to64();
        lemma_bit_len_at_most(abs_diff as nat, 31);
    }
    let mut a = abs_diff;
    let mut cat: u32 = 0;
    while a > 0
        invariant
            bit_len(abs_diff as nat) == cat + bit_len(a as nat),
            bit_len(abs_diff as nat) <= 31,
        decreases a,
    {
        a = a / 2;
        cat = cat + 1;
    }
    proof {
        lemma_bit_len_bound(abs_diff as nat);
        vstd::bits::lemma_u32_pow2_no_overflow(cat as nat);
        lemma_u32_shl_is_mul(1, cat);
    }
    let mask = (1u32 << cat) - 1;
    let extra = if diff > 0 { diff as u32 } else { (diff + mask as i32) as u32 };
    (cat, extra)
}

/// Writes one difference, brought into `[-32768, 32768)`: the Huffman code
/// of its category, then its extra bits; -32768 is coded as category 16
/// with no extra bits, as T.81 codes the difference 32768.
fn write_diff(bw: &mut BitWriter, diff: i32, codes: &[u32], sizes: &[u8])
    requires
        old(bw).wf(),
        -32768 <= diff < 32768,
        holds_dc_table(codes@, sizes@),
    ensures
        final(bw).wf(),
        final(bw).stream() == old(bw).stream() + diff_bits(diff as int),
{
    proof {
        lemma2_to64();
    }
    if diff == -32768 {
        bw.write_bits(codes[16], sizes[16] as u32);
    } else {
        proof {
            assert(abs_int(diff as int) < pow2(15));
            lemma_bit_len_at_most(abs_int(diff as int), 15);
        }
        let (cat, extra) = encode_jpeg_diff(diff);
        let sym = cat as usize;
        bw.write_bits(codes[sym], sizes[sym] as u32);
        if cat > 0 {
            bw.write_bits(extra, cat);
        } else {
            proof {
                assert(bits_be(extra as nat, 0) =~= Seq::<bool>::empty());
                assert(bw.stream() + Seq::<bool>::empty() =~= bw.stream());
            }
        }
    }
}

// ---------------------------------------------------------------------------
// The DC table and the scan
// ---------------------------------------------------------------------------

/// Number of codes of each length, 1 to 16 bits: the luminance DC table of
/// T.81 Annex K.3, continued with one code per length for the categories 12
/// to 16 that 16-bit samples need.
pub open spec fn dc_bits_seq() -> Seq<u8> {
    seq![0u8, 1, 5, 1, 1, 1, 1, 1, 1, 1, 1, 1, 1, 1, 0, 0]
}

/// The categories 0 to 16 in order of code length.
pub open spec fn dc_huffval_seq() -> Seq<u8> {
    Seq::new(17, |i: int| i as u8)
}

/// Huffman code of category `c`.
pub open spec fn dc_code(c: nat) -> nat {
    canon_code(dc_bits_seq(), c)
}

/// Length of the Huffman code of category `c`.
pub open spec fn dc_len(c: nat) -> nat {
    canon_len(dc_bits_seq(), c)
}

/// Counts and first codes of the DC table, length by length.
proof fn lemma_dc_counts()
    ensures
        codes_below(dc_bits_seq(), 0) == 0,
        codes_below(dc_bits_seq(), 1) == 0,
        codes_below(dc_bits_seq(), 2) == 1,
        codes_below(dc_bits_seq(), 3) == 6,
        codes_below(dc_bits_seq(), 4) == 7,
        codes_below(dc_bits_seq(), 5) == 8,
        codes_below(dc_bits_seq(), 6) == 9,
        codes_below(dc_bits_seq(), 7) == 10,
        codes_below(dc_bits_seq(), 8) == 11,
        codes_below(dc_bits_seq(), 9) == 12,
        codes_below(dc_bits_seq(), 10) == 13,
        codes_below(dc_bits_seq(), 11) == 14,
        codes_below(dc_bits_seq(), 12) == 15,
        codes_below(dc_bits_seq(), 13) == 16,
        codes_below(dc_bits_seq(), 14) == 17,
        codes_below(dc_bits_seq(), 15) == 17,
        codes_below(dc_bits_seq(), 16) == 17,
        first_code(dc_bits_seq(), 0) == 0,
        first_code(dc_bits_seq(), 1) == 0,
        first_code(dc_bits_seq(), 2) == 2,
        first_code(dc_bits_seq(), 3) == 14,
        first_code(dc_bits_seq(), 4) == 30,
        first_code(dc_bits_seq(), 5) == 62,
        first_code(dc_bits_seq(), 6) == 126,
        first_code(dc_bits_seq(), 7) == 254,
        first_code(dc_bits_seq(), 8) == 510,
        first_code(dc_bits_seq(), 9) == 1022,
        first_code(dc_bits_seq(), 10) == 2046,
        first_code(dc_bits_seq(), 11) == 4094,
        first_code(dc_bits_seq(), 12) == 8190,
        first_code(dc_bits_seq(), 13) == 16382,
        first_code(dc_bits_seq(), 14) == 32766,
        first_code(dc_bits_seq(), 15) == 65532,
        first_code(dc_bits_seq(), 16) == 131064,
{
    let b = dc_bits_seq();
    assert(codes_below(b, 0) == 0);
    assert(first_code(b, 0) == 0);
    assert(b[0] == 0);
    assert(b[1] == 1);
    assert(b[2] == 5);
    assert(b[3] == 1);
    assert(b[4] == 1);
    assert(b[5] == 1);
    assert(b[6] == 1);
    assert(b[7] == 1);
    assert(b[8] == 1);
    assert(b[9] == 1);
    assert(b[10] == 1);
    assert(b[11] == 1);
    assert(b[12] == 1);
    assert(b[13] == 1);
    assert(b[14] == 0);
    assert(b[15] == 0);
    assert(codes_below(b, 1) == 0);
    assert(codes_below(b, 2) == 1);
    assert(codes_below(b, 3) == 6);
    assert(codes_below(b, 4) == 7);
    assert(codes_below(b, 5) == 8);
    assert(codes_below(b, 6) == 9);
    assert(codes_below(b, 7) == 10);
    assert(codes_below(b, 8) == 11);
    assert(codes_below(b, 9) == 12);
    assert(codes_below(b, 10) == 13);
    assert(codes_below(b, 11) == 14);
    assert(codes_below(b, 12) == 15);
    assert(codes_below(b, 13) == 16);
    assert(codes_below(b, 14) == 17);
    assert(codes_below(b, 15) == 17);
    assert(codes_below(b, 16) == 17);
    assert(first_code(b, 1) == 0);
    assert(first_code(b, 2) == 2);
    assert(first_code(b, 3) == 14);
    assert(first_code(b, 4) == 30);
    assert(first_code(b, 5) == 62);
    assert(first_code(b, 6) == 126);
    assert(first_code(b, 7) == 254);
    assert(first_code(b, 8) == 510);
    assert(first_code(b, 9) == 1022);
    assert(first_code(b, 10) == 2046);
    assert(first_code(b, 11) == 4094);
    assert(first_code(b, 12) == 8190);
    assert(first_code(b, 13) == 16382);
    assert(first_code(b, 14) == 32766);
    assert(first_code(b, 15) == 65532);
    assert(first_code(b, 16) == 131064);
}

/// Code lengths of the DC table: 2 bits for category 0, 3 bits for 1 to 5,
/// then one more bit per category.
pub open spec fn dc_len_closed(c: nat) -> nat {
    if c == 0 {
        2
    } else if c <= 5 {
        3
    } else {
        (c - 2) as nat
    }
}

/// Codes of the DC table: `00`, then `010` to `110`, then a run of ones
/// ended by a zero.
pub open spec fn dc_code_closed(c: nat) -> nat {
    if c == 0 {
        0
    } else if c <= 5 {
        c + 1
    } else {
        (pow2((c - 2) as nat) - 2) as nat
    }
}

/// Every category up to 16 has a code of at most 16 bits that fits its
/// length; the codes are those of the closed forms above.
pub proof fn lemma_dc_table(c: nat)
    requires
        c <= 16,
    ensures
        dc_len(c) <= 16,
        dc_code(c) < pow2(dc_len(c)),
        dc_len(c) == dc_len_closed(c),
        dc_code(c) == dc_code_closed(c),
{
    lemma2_to64();
    lemma_dc_counts();
    if c == 0 {
        lemma_level(dc_bits_seq(), 0, 1, 0);
    } else if c == 1 {
        lemma_level(dc_bits_seq(), 1, 2, 0);
    } else if c == 2 {
        lemma_level(dc_bits_seq(), 2, 2, 0);
    } else if c == 3 {
        lemma_level(dc_bits_seq(), 3, 2, 0);
    } else if c == 4 {
        lemma_level(dc_bits_seq(), 4, 2, 0);
    } else if c == 5 {
        lemma_level(dc_bits_seq(), 5, 2, 0);
    } else if c == 6 {
        lemma_level(dc_bits_seq(), 6, 3, 0);
    } else if c == 7 {
        lemma_level(dc_bits_seq(), 7, 4, 0);
    } else if c == 8 {
        lemma_level(dc_bits_seq(), 8, 5, 0);
    } else if c == 9 {
        lemma_level(dc_bits_seq(), 9, 6, 0);
    } else if c == 10 {
        lemma_level(dc_bits_seq(), 10, 7, 0);
    } else if c == 11 {
        lemma_level(dc_bits_seq(), 11, 8, 0);
    } else if c == 12 {
        lemma_level(dc_bits_seq(), 12, 9, 0);
    } else if c == 13 {
        lemma_level(dc_bits_seq(), 13, 10, 0);
    } else if c == 14 {
        lemma_level(dc_bits_seq(), 14, 11, 0);
    } else if c == 15 {
        lemma_level(dc_bits_seq(), 15, 12, 0);
    } else if c == 16 {
        lemma_level(dc_bits_seq(), 16, 13, 0);
    }
}

fn dc_bits_table() -> (r: [u8; 16])
    ensures
        r@ == dc_bits_seq(),
{
    let r = [0u8, 1, 5, 1, 1, 1, 1, 1, 1, 1, 1, 1, 1, 1, 0, 0];
    assert(r@ =~= dc_bits_seq());
    r
}

fn dc_huffval_table() -> (r: Vec<u8>)
    ensures
        r@ == dc_huffval_seq(),
{
    let mut r: Vec<u8> = Vec::new();
    for i in 0..17u8
        invariant
            r@ == Seq::new(i as nat, |j: int| j as u8),
    {
        r.push(i);
        assert(r@ =~= Seq::new((i + 1) as nat, |j: int| j as u8));
    }
    r
}

/// A difference brought into `[-32768, 32768)` modulo 2^16, as T.81 codes
/// differences of 16-bit samples.
pub open spec fn wrap16(e: int) -> int {
    if e < -32768 {
        e + 65536
    } else if e >= 32768 {
        e - 65536
    } else {
        e
    }
}

/// The bits of one difference in `[-32768, 32768)`: the code of its
/// category, then its extra bits; -32768 is the code of category 16 alone.
pub open spec fn diff_bits(d: int) -> Seq<bool> {
    if d == -32768 {
        bits_be(dc_code(16), dc_len(16))
    } else {
        bits_be(dc_code(category(d)), dc_len(category(d))) + bits_be(extra_bits(d), category(d))
    }
}

/// The prediction of sample `x` of the row starting at `row`, rows being
/// `w` samples long (predictor 1 of T.81): the sample to the left; at the
/// start of a row the sample above; 2^15 for the first sample of all.
pub open spec fn predictor(bayer: Seq<u16>, w: nat, row: int, x: int) -> int {
    if x == 0 {
        if row == 0 {
            32768
        } else {
            bayer[row - w] as int
        }
    } else {
        bayer[row + x - 1] as int
    }
}

/// Prediction difference of sample `x` of the row starting at `row`,
/// modulo 2^16.
pub open spec fn pixel_diff(bayer: Seq<u16>, w: nat, row: int, x: int) -> int {
    wrap16(bayer[row + x] as int - predictor(bayer, w, row, x))
}

/// The bits of the first `n` samples of the row starting at `row`.
pub open spec fn row_bits(bayer: Seq<u16>, w: nat, row: int, n: nat) -> Seq<bool>
    decreases n,
{
    if n == 0 {
        Seq::empty()
    } else {
        row_bits(bayer, w, row, (n - 1) as nat) + diff_bits(pixel_diff(bayer, w, row, n - 1))
    }
}

/// The bits of the first `rows` rows.
pub open spec fn scan_bits(bayer: Seq<u16>, width: nat, rows: nat) -> Seq<bool>
    decreases rows,
{
    if rows == 0 {
        Seq::empty()
    } else {
        scan_bits(bayer, width, (rows - 1) as nat) + row_bits(
            bayer,
            width,
            (rows - 1) * width,
            width,
        )
    }
}

/// A 16-bit value big-endian.
pub open spec fn be16(v: nat) -> Seq<u8> {
    seq![((v / 256) % 256) as u8, (v % 256) as u8]
}

/// SOI, the lossless frame header, the Huffman table and the scan header.
pub open spec fn lj92_headers(width: nat, height: nat) -> Seq<u8> {
    seq![0xFFu8, 0xD8, 0xFF, 0xC3, 0x00, 0x0B, 0x10] + be16(height % 65536) + be16(width % 65536)
        + seq![0x01u8, 0x01, 0x11, 0x00, 0xFF, 0xC4, 0x00, 36, 0x00] + dc_bits_seq()
        + dc_huffval_seq() + seq![0xFFu8, 0xDA, 0x00, 0x08, 0x01, 0x01, 0x00, 0x01, 0x00, 0x00]
}

/// The complete lossless JPEG stream of a `width` x `height` plane.
pub open spec fn lj92_stream(bayer: Seq<u16>, width: nat, height: nat) -> Seq<u8> {
    lj92_headers(width, height) + stuff(pack_bits(scan_bits(bayer, width, height))) + seq![
        0xFFu8,
        0xD9,
    ]
}

fn append_bytes(out: &mut Vec<u8>, s: &[u8])
    ensures
        final(out)@ == old(out)@ + s@,
{
    let ghost start = out@;
    let mut i: usize = 0;
    while i < s.len()
        invariant
            i <= s@.len(),
            out@ == start + s@.take(i as int),
        decreases s@.len() - i,
    {
        out.push(s[i]);
        i = i + 1;
        proof {
            assert(out@ =~= start + s@.take(i as int));
        }
    }
    proof {
        assert(s@.take(i as int) =~= s@);
    }
}

fn append_be16(out: &mut Vec<u8>, v: u16)
    ensures
        final(out)@ == old(out)@ + be16(v as nat),
{
    out.push((v / 256) as u8);
    out.push((v % 256) as u8);
    assert(out@ =~= old(out)@ + be16(v as nat));
}

/// `codes` and `sizes` hold the DC table, indexed by category.
spec fn holds_dc_table(codes: Seq<u32>, sizes: Seq<u8>) -> bool {
    &&& codes.len() == 17
    &&& sizes.len() == 17
    &&& forall|c: int|
        0 <= c <= 16 ==> #[trigger] codes[c] == dc_code(c as nat) && sizes[c] == dc_len(c as nat)
            && dc_len(c as nat) <= 16 && dc_code(c as nat) < pow2(dc_len(c as nat))
}

proof fn lemma_dc_holds(codes: Seq<u32>, sizes: Seq<u8>)
    requires
        codes.len() == 17,
        sizes.len() == 17,
        forall|k: int|
            #![trigger dc_huffval_seq()[k]]
            0 <= k < codes_below(dc_bits_seq(), 16) ==> codes[dc_huffval_seq()[k] as int]
                == canon_code(dc_bits_seq(), k as nat) && sizes[dc_huffval_seq()[k] as int]
                == canon_len(dc_bits_seq(), k as nat),
    ensures
        holds_dc_table(codes, sizes),
{
    lemma_dc_counts();
    assert forall|c: int| 0 <= c <= 16 implies #[trigger] codes[c] == dc_code(c as nat) && sizes[c]
        == dc_len(c as nat) && dc_len(c as nat) <= 16 && dc_code(c as nat) < pow2(
        dc_len(c as nat),
    ) by {
        assert(dc_huffval_seq()[c] == c);
        lemma_dc_table(c as nat);
    }
}

/// The entropy-coded segment of the scan.
fn encode_scan(bayer: &[u16], width: usize, height: usize, codes: &Vec<u32>, sizes: &Vec<u8>) -> (r:
    Vec<u8>)
    requires
        width * height <= bayer@.len(),
        holds_dc_table(codes@, sizes@),
    ensures
        r@ == stuff(pack_bits(scan_bits(bayer@, width as nat, height as nat))),
{
    let _n = bayer.len();
    let mut bw = BitWriter::new();
    for y in 0..height
        invariant
            width * height <= bayer@.len(),
            bayer@.len() <= usize::MAX,
            holds_dc_table(codes@, sizes@),
            bw.wf(),
            bw.stream() == scan_bits(bayer@, width as nat, y as nat),
    {
        assert(y * width + width <= width * height) by (nonlinear_arith)
            requires
                y < height,
        ;
        let row = y * width;
        assert(y > 0 && width > 0 ==> row >= width && row > 0) by (nonlinear_arith)
            requires
                row == y * width,
        ;
        for x in 0..width
            invariant
                row + width <= bayer@.len(),
                row == y * width,
                y > 0 && width > 0 ==> row >= width && row > 0,
                bayer@.len() <= usize::MAX,
                holds_dc_table(codes@, sizes@),
                bw.wf(),
                bw.stream() == scan_bits(bayer@, width as nat, y as nat) + row_bits(
                    bayer@,
                    width as nat,
                    row as int,
                    x as nat,
                ),
        {
            let predictor: u32 = if x == 0 {
                if y == 0 {
                    32768
                } else {
                    bayer[row - width] as u32
                }
            } else {
                bayer[row + x - 1] as u32
            };
            let e: i32 = bayer[row + x] as i32 - predictor as i32;
            let diff: i32 = if e < -32768 {
                e + 65536
            } else if e >= 32768 {
                e - 65536
            } else {
                e
            };
            proof {
                assert(predictor as int == crate::lj92::predictor(bayer@, width as nat, row as int, x as int));
                assert(diff as int == pixel_diff(bayer@, width as nat, row as int, x as int));
            }
            write_diff(&mut bw, diff, codes.as_slice(), sizes.as_slice());
            proof {
                assert(bw.stream() =~= scan_bits(bayer@, width as nat, y as nat) + row_bits(
                    bayer@,
                    width as nat,
                    row as int,
                    (x + 1) as nat,
                ));
            }
        }
        proof {
            assert(bw.stream() =~= scan_bits(bayer@, width as nat, (y + 1) as nat));
        }
    }
    bw.into_bytes()
}

/// SOI, the lossless (SOF3) frame header, the DHT segment and the scan
/// header.
fn lj92_header_bytes(width: usize, height: usize, bits: &[u8; 16], huffval: &Vec<u8>) -> (r: Vec<
    u8,
>)
    requires
        bits@ == dc_bits_seq(),
        huffval@ == dc_huffval_seq(),
    ensures
        r@ == lj92_headers(width as nat, height as nat),
{
    let mut jpeg: Vec<u8> = Vec::new();
    append_bytes(&mut jpeg, &[0xFF, 0xD8, 0xFF, 0xC3, 0x00, 0x0B, 0x10]);
    let ghost p1 = jpeg@;
    append_be16(&mut jpeg, height as u16);
    append_be16(&mut jpeg, width as u16);
    let ghost p2 = jpeg@;
    // one component, 1x1 sampling, quantization table 0; then the DHT
    // segment for DC table 0
    let dht_len: u16 = 2 + 1 + 16 + 17;
    append_bytes(&mut jpeg, &[0x01, 0x01, 0x11, 0x00, 0xFF, 0xC4]);
    append_be16(&mut jpeg, dht_len);
    jpeg.push(0x00);
    let ghost p3 = jpeg@;
    append_bytes(&mut jpeg, bits);
    append_bytes(&mut jpeg, huffval.as_slice());
    let ghost p4 = jpeg@;
    // SOS: one component, DC table 0, predictor 1
    append_bytes(&mut jpeg, &[0xFF, 0xDA, 0x00, 0x08, 0x01, 0x01, 0x00, 0x01, 0x00, 0x00]);
    proof {
        assert(height as u16 == height % 65536) by (bit_vector);
        assert(width as u16 == width % 65536) by (bit_vector);
        assert(p1 =~= seq![0xFFu8, 0xD8, 0xFF, 0xC3, 0x00, 0x0B, 0x10]);
        assert(p2 =~= p1 + be16(height as nat % 65536) + be16(width as nat % 65536));
        assert(p3 =~= p2 + seq![0x01u8, 0x01, 0x11, 0x00, 0xFF, 0xC4, 0x00, 36, 0x00]);
        assert(p4 =~= p3 + dc_bits_seq() + dc_huffval_seq());
        assert(jpeg@ =~= lj92_headers(width as nat, height as nat));
    }
    jpeg
}

/// Compress 16-bit Bayer CFA data using LJ92 (lossless JPEG of ITU-T T.81,
/// predictor 1, 16-bit precision): the samples are read row by row, `width`
/// to a row, and coded as one component; frame dimensions are written as
/// 16-bit fields.
pub fn compress_lj92(bayer: &[u16], width: usize, height: usize) -> (r: Vec<u8>)
    requires
        width * height <= bayer@.len(),
    ensures
        r@ == lj92_stream(bayer@, width as nat, height as nat),
{
    let bits = dc_bits_table();
    let huffval = dc_huffval_table();
    proof {
        lemma_dc_counts();
    }
    let (codes, sizes) = build_huffman_table(&bits, huffval.as_slice());
    proof {
        lemma_dc_holds(codes@, sizes@);
    }
    let entropy = encode_scan(bayer, width, height, &codes, &sizes);
    let mut jpeg = lj92_header_bytes(width, height, &bits, &huffval);
    append_bytes(&mut jpeg, entropy.as_slice());
    // EOI
    jpeg.push(0xFF);
    jpeg.push(0xD9);
    proof {
        assert(jpeg@ =~= lj92_stream(bayer@, width as nat, height as nat));
    }
    jpeg
}

} // verus!

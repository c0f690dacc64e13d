//! Little-endian readers over byte slices.

use vstd::prelude::*;
use vstd::slice::slice_subrange;

verus! {

/// The number that `s` denotes when read as a little-endian base-256
/// numeral: the first byte is the least significant.
pub open spec fn le_value(s: Seq<u8>) -> nat
    decreases s.len(),
{
    if s.len() == 0 {
        0
    } else {
        s[0] as nat + 256 * le_value(s.drop_first())
    }
}

/// A little-endian numeral of `n` bytes is below `256^n`; the three widths
/// read here are spelled out.
pub proof fn lemma_le_value_bound(s: Seq<u8>)
    ensures
        s.len() == 2 ==> le_value(s) <= u16::MAX,
        s.len() == 4 ==> le_value(s) <= u32::MAX,
        s.len() == 8 ==> le_value(s) <= u64::MAX,
{
    if s.len() == 2 {
        lemma_le_value_2(s);
    }
    if s.len() == 4 {
        lemma_le_value_4(s);
    }
    if s.len() == 8 {
        lemma_le_value_8(s);
    }
}

proof fn lemma_le_value_2(s: Seq<u8>)
    requires
        s.len() == 2,
    ensures
        le_value(s) == s[0] + 0x100 * s[1],
{
    reveal_with_fuel(le_value, 3);
    let t = s.drop_first();
    assert(t[0] == s[1]);
}

proof fn lemma_le_value_4(s: Seq<u8>)
    requires
        s.len() == 4,
    ensures
        le_value(s) == s[0] + 0x100 * s[1] + 0x1_0000 * s[2] + 0x100_0000 * s[3],
{
    let t = s.drop_first().drop_first();
    lemma_le_value_2(t);
    reveal_with_fuel(le_value, 3);
    assert(s.drop_first()[0] == s[1]);
    assert(t[0] == s[2] && t[1] == s[3]);
}

proof fn lemma_le_value_8(s: Seq<u8>)
    requires
        s.len() == 8,
    ensures
        le_value(s) == s[0] + 0x100 * s[1] + 0x1_0000 * s[2] + 0x100_0000 * s[3] + 0x1_0000_0000
            * s[4] + 0x100_0000_0000 * s[5] + 0x1_0000_0000_0000 * s[6] + 0x100_0000_0000_0000
            * s[7],
{
    let a = s.subrange(0, 4);
    let b = s.subrange(4, 8);
    lemma_le_value_4(a);
    lemma_le_value_4(b);
    lemma_le_value_concat(a, b);
    assert(a + b =~= s);
    assert(pow256(4) == 0x1_0000_0000) by {
        reveal_with_fuel(pow256, 5);
    }
    assert(a.len() == 4 && b.len() == 4);
    assert(a[0] == s[0] && a[1] == s[1] && a[2] == s[2] && a[3] == s[3]);
    assert(b[0] == s[4] && b[1] == s[5] && b[2] == s[6] && b[3] == s[7]);
    assert(le_value(s) == le_value(a) + 0x1_0000_0000 * le_value(b));
}

/// Reading a concatenation: the second part is shifted past the first.
pub proof fn lemma_le_value_concat(a: Seq<u8>, b: Seq<u8>)
    ensures
        le_value(a + b) == le_value(a) + pow256(a.len()) * le_value(b),
    decreases a.len(),
{
    if a.len() == 0 {
        assert(a + b =~= b);
    } else {
        let rest = a.drop_first();
        lemma_le_value_concat(rest, b);
        assert((a + b).drop_first() =~= rest + b);
        assert((a + b)[0] == a[0]);
        let p: nat = pow256(rest.len());
        let v: nat = le_value(b);
        assert(pow256(a.len()) == 256 * p);
        assert((256 * p) * v == 256 * (p * v)) by (nonlinear_arith);
    }
}

/// `256^n`.
pub open spec fn pow256(n: nat) -> nat
    decreases n,
{
    if n == 0 {
        1
    } else {
        256 * pow256((n - 1) as nat)
    }
}

/// Reads the first two bytes of `bs` as a little-endian `u16`.
pub fn read_u16_le(bs: &[u8]) -> (r: u16)
    requires
        bs@.len() >= 2,
    ensures
        r as nat == le_value(bs@.take(2)),
{
    let b0: u16 = bs[0] as u16;
    let b1: u16 = bs[1] as u16;
    proof {
        lemma_le_value_2(bs@.take(2));
        assert(b0 | (b1 << 8) == b0 + 0x100 * b1) by (bit_vector)
            requires
                b0 < 0x100,
                b1 < 0x100,
        ;
    }
    b0 | (b1 << 8)
}

/// Reads the first four bytes of `bs` as a little-endian `u32`.
pub fn read_u32_le(bs: &[u8]) -> (r: u32)
    requires
        bs@.len() >= 4,
    ensures
        r as nat == le_value(bs@.take(4)),
{
    let b0: u32 = bs[0] as u32;
    let b1: u32 = bs[1] as u32;
    let b2: u32 = bs[2] as u32;
    let b3: u32 = bs[3] as u32;
    proof {
        lemma_le_value_4(bs@.take(4));
        assert(b0 | (b1 << 8) | (b2 << 16) | (b3 << 24) == b0 + 0x100 * b1 + 0x1_0000 * b2
            + 0x100_0000 * b3) by (bit_vector)
            requires
                b0 < 0x100,
                b1 < 0x100,
                b2 < 0x100,
                b3 < 0x100,
        ;
    }
    b0 | (b1 << 8) | (b2 << 16) | (b3 << 24)
}

/// Reads the first eight bytes of `bs` as a little-endian `u64`.
pub fn read_u64_le(bs: &[u8]) -> (r: u64)
    requires
        bs@.len() >= 8,
    ensures
        r as nat == le_value(bs@.take(8)),
{
    let lo: u64 = read_u32_le(bs) as u64;
    let hi: u64 = read_u32_le(slice_subrange(bs, 4, 8)) as u64;
    proof {
        let s = bs@.take(8);
        assert(bs@.take(4) =~= s.subrange(0, 4));
        assert(bs@.subrange(4, 8).take(4) =~= s.subrange(4, 8));
        assert(s.subrange(0, 4) + s.subrange(4, 8) =~= s);
        lemma_le_value_concat(s.subrange(0, 4), s.subrange(4, 8));
        reveal_with_fuel(pow256, 5);
        assert(lo | (hi << 32) == lo + 0x1_0000_0000 * hi) by (bit_vector)
            requires
                lo < 0x1_0000_0000,
                hi < 0x1_0000_0000,
        ;
    }
    lo | (hi << 32)
}

/// The number that `s` denotes when read as a big-endian base-256 numeral:
/// the last byte is the least significant.
pub open spec fn be_value(s: Seq<u8>) -> nat
    decreases s.len(),
{
    if s.len() == 0 {
        0
    } else {
        256 * be_value(s.drop_last()) + s.last() as nat
    }
}

/// A big-endian numeral of two bytes, written out.
pub proof fn lemma_be_value_2(s: Seq<u8>)
    requires
        s.len() == 2,
    ensures
        be_value(s) == 0x100 * s[0] + s[1],
{
    reveal_with_fuel(be_value, 3);
    assert(s.drop_last()[0] == s[0]);
}

/// A big-endian numeral of four bytes, written out.
pub proof fn lemma_be_value_4(s: Seq<u8>)
    requires
        s.len() == 4,
    ensures
        be_value(s) == 0x100_0000 * s[0] + 0x1_0000 * s[1] + 0x100 * s[2] + s[3],
{
    let t = s.drop_last().drop_last();
    lemma_be_value_2(t);
    reveal_with_fuel(be_value, 3);
    assert(s.drop_last().last() == s[2]);
    assert(t[0] == s[0] && t[1] == s[1]);
}

/// A big-endian numeral of six bytes, written out.
pub proof fn lemma_be_value_6(s: Seq<u8>)
    requires
        s.len() == 6,
    ensures
        be_value(s) == 0x100_0000_0000 * s[0] + 0x1_0000_0000 * s[1] + 0x100_0000 * s[2] + 0x1_0000
            * s[3] + 0x100 * s[4] + s[5],
{
    let t = s.drop_last().drop_last();
    lemma_be_value_4(t);
    reveal_with_fuel(be_value, 3);
    assert(s.drop_last().last() == s[4]);
    assert(t[0] == s[0] && t[1] == s[1] && t[2] == s[2] && t[3] == s[3]);
}

/// A big-endian numeral of a given length denotes its number in one way
/// only: two byte strings of the same length with the same number are the
/// same.
pub proof fn lemma_be_value_determines_bytes(s: Seq<u8>, t: Seq<u8>)
    requires
        s.len() == t.len(),
        be_value(s) == be_value(t),
    ensures
        s == t,
    decreases s.len(),
{
    if s.len() > 0 {
        let high_s = be_value(s.drop_last());
        let high_t = be_value(t.drop_last());
        assert(256 * high_s + s.last() == 256 * high_t + t.last());
        assert(high_s == high_t && s.last() == t.last()) by {
            if high_s < high_t {
                assert(256 * high_s + 256 <= 256 * high_t);
            }
            if high_t < high_s {
                assert(256 * high_t + 256 <= 256 * high_s);
            }
        }
        lemma_be_value_determines_bytes(s.drop_last(), t.drop_last());
        assert(s =~= s.drop_last().push(s.last()));
        assert(t =~= t.drop_last().push(t.last()));
    } else {
        assert(s =~= t);
    }
}

} // verus!

//! Small integer facts the rest of the library builds on: the index of the
//! most significant bit of a positive integer, and the little-endian byte
//! layout of a 32-bit word.

use vstd::prelude::*;

verus! {

use vstd::arithmetic::power2::{pow2, lemma2_to64, lemma_pow2_adds, lemma_pow2_strictly_increases};
use vstd::arithmetic::div_mod::{lemma_fundamental_div_mod_converse, lemma_div_denominator};

/// Index of the most significant set bit of `n` (0 for `n == 1`).
pub open spec fn msb(n: nat) -> nat
    recommends
        n >= 1,
    decreases n,
{
    if n < 2 {
        0
    } else {
        1 + msb(n / 2)
    }
}

/// The most significant bit index brackets `n` between two powers of two.
pub proof fn lemma_msb_brackets(n: nat)
    requires
        n >= 1,
    ensures
        pow2(msb(n)) <= n < pow2(msb(n) + 1),
    decreases n,
{
    lemma2_to64();
    if n >= 2 {
        lemma_msb_brackets(n / 2);
        lemma_pow2_adds(1, msb(n / 2));
        lemma_pow2_adds(1, msb(n / 2) + 1);
    }
}

/// Between `pow2(e)` (inclusive) and `pow2(e + 1)` (exclusive), the most
/// significant bit index is exactly `e`.
pub proof fn lemma_msb_unique(n: nat, e: nat)
    requires
        n >= 1,
        pow2(e) <= n < pow2(e + 1),
    ensures
        msb(n) == e,
{
    lemma_msb_brackets(n);
    if msb(n) < e {
        lemma_pow2_strictly_increases(msb(n) + 1, e + 1);
        if msb(n) + 1 < e {
            lemma_pow2_strictly_increases(msb(n) + 1, e);
        }
        assert(pow2(msb(n) + 1) <= pow2(e));
    }
    if msb(n) > e {
        if e + 1 < msb(n) {
            lemma_pow2_strictly_increases(e + 1, msb(n));
        }
        assert(pow2(e + 1) <= pow2(msb(n)));
    }
}

/// The four bytes of `n`, least significant first.
pub open spec fn le4_bytes(n: nat) -> Seq<u8> {
    seq![
        (n % 256) as u8,
        ((n / 256) % 256) as u8,
        ((n / 65536) % 256) as u8,
        ((n / 16777216) % 256) as u8,
    ]
}

/// The value that four little-endian bytes stand for.
pub open spec fn le4_value(b: Seq<u8>) -> nat
    recommends
        b.len() == 4,
{
    (b[0] + b[1] * 256 + b[2] * 65536 + b[3] * 16777216) as nat
}

/// Reading the four little-endian bytes of a 32-bit value back gives the value.
pub proof fn lemma_le4_round_trip(n: nat)
    requires
        n < 4294967296,
    ensures
        le4_value(le4_bytes(n)) == n,
{
    lemma_div_denominator(n as int, 256, 256);
    lemma_div_denominator(n as int, 65536, 256);
    assert(n / 16777216 < 256) by {
        lemma_div_denominator(n as int, 16777216, 256);
    }
    assert((n / 16777216) % 256 == n / 16777216) by {
        vstd::arithmetic::div_mod::lemma_small_mod(n / 16777216, 256);
    }
    assert(n % 256 + ((n / 256) % 256) * 256 + ((n / 65536) % 256) * 65536 + (n / 16777216)
        * 16777216 == n) by {
        vstd::arithmetic::div_mod::lemma_fundamental_div_mod(n as int, 256);
        vstd::arithmetic::div_mod::lemma_fundamental_div_mod(n as int / 256, 256);
        vstd::arithmetic::div_mod::lemma_fundamental_div_mod(n as int / 65536, 256);
    }
}

/// Four bytes are in turn the little-endian image of the value they stand
/// for: the byte layout is a bijection.
pub proof fn lemma_le4_inverse(b: Seq<u8>)
    requires
        b.len() == 4,
    ensures
        le4_value(b) < 4294967296,
        le4_bytes(le4_value(b)) == b,
{
    let v = le4_value(b) as int;
    lemma_fundamental_div_mod_converse(
        v,
        256,
        b[1] + 256 * b[2] + 65536 * b[3],
        b[0] as int,
    );
    lemma_fundamental_div_mod_converse(
        b[1] + 256 * b[2] + 65536 * b[3],
        256,
        b[2] + 256 * b[3],
        b[1] as int,
    );
    lemma_fundamental_div_mod_converse(b[2] + 256 * b[3], 256, b[3] as int, b[2] as int);
    vstd::arithmetic::div_mod::lemma_small_mod(b[3] as nat, 256);
    lemma_div_denominator(v, 256, 256);
    lemma_div_denominator(v, 65536, 256);
    assert(le4_bytes(le4_value(b)) =~= b);
}

/// The four little-endian bytes of `n`.
pub fn u32_to_le_bytes(n: u32) -> (r: Vec<u8>)
    ensures
        r@ == le4_bytes(n as nat),
{
    let mut out: Vec<u8> = Vec::new();
    out.push((n % 256) as u8);
    out.push(((n / 256) % 256) as u8);
    out.push(((n / 65536) % 256) as u8);
    out.push(((n / 16777216) % 256) as u8);
    proof {
        assert(out@ =~= le4_bytes(n as nat));
    }
    out
}

/// The 32-bit value that four little-endian bytes stand for.
pub fn u32_from_le_bytes(b0: u8, b1: u8, b2: u8, b3: u8) -> (r: u32)
    ensures
        r as nat == le4_value(seq![b0, b1, b2, b3]),
{
    b0 as u32 + b1 as u32 * 256 + b2 as u32 * 65536 + b3 as u32 * 16777216
}

} // verus!

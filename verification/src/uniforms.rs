//! The resolution uniform: a fixed-layout record of the window dimensions as
//! two 32-bit IEEE-754 floats, laid out little-endian with no padding, ready
//! to be uploaded to a GPU-visible buffer byte for byte.
//!
//! Dimensions up to 16384 are exactly representable in single precision, so
//! the bit pattern of each float is computed here in plain integer
//! arithmetic: exponent `msb(n) + 127`, mantissa the bits of `n` below the
//! leading one, shifted up to 23 bits.

use vstd::prelude::*;

verus! {

use vstd::arithmetic::power2::{pow2, lemma2_to64, lemma_pow2_adds, lemma_pow2_strictly_increases};
use vstd::arithmetic::div_mod::{
    lemma_fundamental_div_mod,
    lemma_fundamental_div_mod_converse,
};
use crate::bits::{msb, lemma_msb_brackets, lemma_msb_unique, le4_bytes, lemma_le4_round_trip,
    u32_to_le_bytes, u32_from_le_bytes};

/// Window dimensions for which the uniform layout is stated.
pub open spec fn valid_dim(n: u32) -> bool {
    1 <= n <= 16384
}

/// IEEE-754 single-precision bit pattern of the integer `n`, exact for
/// `1 <= n <= 16384`: biased exponent `msb(n) + 127`, mantissa the bits of
/// `n` below the leading one, left-aligned to 23 bits.
pub open spec fn f32_bits_of_dim(n: nat) -> nat
    recommends
        1 <= n <= 16384,
{
    ((msb(n) + 127) * pow2(23) + n * pow2((23 - msb(n)) as nat) - pow2(23)) as nat
}

/// How the bit pattern splits at the mantissa boundary: the top bits are the
/// biased exponent, the low 23 bits are the mantissa, and the mantissa field
/// (with its hidden leading one restored) is `n` shifted left.
pub proof fn lemma_f32_bits_decompose(n: nat)
    requires
        1 <= n <= 16384,
    ensures
        msb(n) <= 14,
        pow2(23) <= n * pow2((23 - msb(n)) as nat) < pow2(24),
        f32_bits_of_dim(n) / pow2(23) == msb(n) + 127,
        f32_bits_of_dim(n) % pow2(23) == n * pow2((23 - msb(n)) as nat) - pow2(23),
        f32_bits_of_dim(n) < 4294967296,
{
    lemma2_to64();
    lemma_msb_brackets(n);
    let e = msb(n);
    if e > 14 {
        lemma_pow2_strictly_increases(14, e);
        assert(false);
    }
    let q = pow2((23 - e) as nat);
    lemma_pow2_adds(e, (23 - e) as nat);
    lemma_pow2_adds(e + 1, (23 - e) as nat);
    assert(n * q >= pow2(e) * q) by (nonlinear_arith)
        requires
            n >= pow2(e),
            q >= 0,
    ;
    assert(n * q < pow2(e + 1) * q) by (nonlinear_arith)
        requires
            n < pow2(e + 1),
            q >= 1,
    ;
    lemma_fundamental_div_mod_converse(
        f32_bits_of_dim(n) as int,
        pow2(23) as int,
        (e + 127) as int,
        n * q - pow2(23),
    );
}

/// Distinct dimensions have distinct bit patterns.
pub proof fn lemma_f32_bits_injective(n1: nat, n2: nat)
    requires
        1 <= n1 <= 16384,
        1 <= n2 <= 16384,
        f32_bits_of_dim(n1) == f32_bits_of_dim(n2),
    ensures
        n1 == n2,
{
    lemma_f32_bits_decompose(n1);
    lemma_f32_bits_decompose(n2);
    let e = msb(n1);
    assert(msb(n2) == e);
    let q = pow2((23 - e) as nat);
    vstd::arithmetic::power2::lemma_pow2_pos((23 - e) as nat);
    assert(n1 * q == n2 * q);
    assert(n1 == n2) by (nonlinear_arith)
        requires
            n1 * q == n2 * q,
            q >= 1,
    ;
}

/// 2 to the power `k`, computed by doubling.
pub fn pow2_u32(k: u32) -> (r: u32)
    requires
        k <= 23,
    ensures
        r as nat == pow2(k as nat),
        r >= 1,
{
    proof {
        lemma2_to64();
    }
    let mut q: u32 = 1;
    let mut i: u32 = 0;
    while i < k
        invariant
            i <= k,
            k <= 23,
            q as nat == pow2(i as nat),
            q <= 8388608,
        decreases k - i,
    {
        proof {
            lemma2_to64();
            lemma_pow2_adds(1, i as nat);
            if i + 1 < 23 {
                lemma_pow2_strictly_increases((i + 1) as nat, 23);
            }
        }
        q = 2 * q;
        i = i + 1;
    }
    proof {
        vstd::arithmetic::power2::lemma_pow2_pos(k as nat);
    }
    q
}

/// The exact single-precision bit pattern of a window dimension.
pub fn f32_bits_from_dim(n: u32) -> (r: u32)
    requires
        valid_dim(n),
    ensures
        r as nat == f32_bits_of_dim(n as nat),
{
    proof {
        lemma2_to64();
    }
    let mut e: u32 = 0;
    let mut p: u32 = 1;
    while n >= 2 * p
        invariant
            valid_dim(n),
            p as nat == pow2(e as nat),
            p <= n,
            p <= 16384,
            e <= 14,
        decreases n - p,
    {
        proof {
            lemma2_to64();
            lemma_pow2_adds(1, e as nat);
            if e + 1 > 14 {
                lemma_pow2_strictly_increases(14, (e + 1) as nat);
                assert(false);
            }
        }
        p = 2 * p;
        e = e + 1;
    }
    proof {
        lemma_pow2_adds(1, e as nat);
        lemma2_to64();
        lemma_msb_unique(n as nat, e as nat);
        lemma_f32_bits_decompose(n as nat);
    }
    let q = pow2_u32(23 - e);
    let mant_full = n * q;
    (e + 127) * 8388608 + mant_full - 8388608
}

/// The dimension whose exact single-precision bit pattern is `bits`, if any.
///
/// Whenever `bits` is the pattern of a dimension in range, that dimension
/// (and nothing else) comes back; `None` comes back exactly when no
/// dimension in range has this pattern.
pub fn dim_from_f32_bits(bits: u32) -> (r: Option<u32>)
    ensures
        forall|n: u32|
            valid_dim(n) && bits as nat == f32_bits_of_dim(n as nat) ==> r == Some(n),
        r is Some ==> valid_dim(r->0) && bits as nat == f32_bits_of_dim(r->0 as nat),
{
    proof {
        lemma2_to64();
    }
    let e_biased = bits / 8388608;
    if e_biased < 127 || e_biased > 141 {
        proof {
            assert forall|n: u32|
                valid_dim(n) && bits as nat == f32_bits_of_dim(n as nat) implies false by {
                lemma_f32_bits_decompose(n as nat);
            };
        }
        return None;
    }
    let e = e_biased - 127;
    let m = bits % 8388608;
    let q = pow2_u32(23 - e);
    let total = 8388608 + m;
    proof {
        lemma_fundamental_div_mod(bits as int, 8388608);
        assert forall|n: u32|
            valid_dim(n) && bits as nat == f32_bits_of_dim(n as nat) implies msb(n as nat) == e
            && total as nat == (n as nat) * (q as nat) by {
            lemma_f32_bits_decompose(n as nat);
        };
    }
    if total % q != 0 {
        proof {
            assert forall|n: u32|
                valid_dim(n) && bits as nat == f32_bits_of_dim(n as nat) implies false by {
                vstd::arithmetic::div_mod::lemma_mod_multiples_basic(n as int, q as int);
            };
        }
        return None;
    }
    let n = total / q;
    proof {
        lemma_fundamental_div_mod(total as int, q as int);
        assert(total as int % (q as int) == 0);
        assert(n as int == total as int / (q as int));
        assert(total as int == (q as int) * (n as int) + 0);
        assert(total as nat == (n as nat) * (q as nat));
        assert forall|w: u32|
            valid_dim(w) && bits as nat == f32_bits_of_dim(w as nat) implies w == n by {
            assert((w as nat) * (q as nat) == (n as nat) * (q as nat));
            assert(w == n) by (nonlinear_arith)
                requires
                    (w as nat) * (q as nat) == (n as nat) * (q as nat),
                    q >= 1,
            ;
        };
    }
    if n < 1 || n > 16384 {
        return None;
    }
    proof {
        // `total` lies in [2^23, 2^24), so `n == total / q` lies in
        // [2^(e), 2^(e+1)) and `e` is its most significant bit index.
        lemma_pow2_adds(e as nat, (23 - e) as nat);
        lemma_pow2_adds((e as nat) + 1, (23 - e) as nat);
        assert(pow2(e as nat) <= n as nat && (n as nat) < pow2((e as nat) + 1))
            by (nonlinear_arith)
            requires
                (total as nat) == (n as nat) * (q as nat),
                pow2(e as nat) * (q as nat) <= total as nat,
                (total as nat) < pow2((e as nat) + 1) * (q as nat),
                q >= 1,
        ;
        lemma_msb_unique(n as nat, e as nat);
        lemma_f32_bits_decompose(n as nat);
    }
    Some(n)
}

/// The eight uniform bytes of a resolution: the two float bit patterns in
/// sequence, each little-endian, with no padding.
pub open spec fn uniform_bytes(w: nat, h: nat) -> Seq<u8>
    recommends
        1 <= w <= 16384,
        1 <= h <= 16384,
{
    le4_bytes(f32_bits_of_dim(w)) + le4_bytes(f32_bits_of_dim(h))
}

/// The resolution uniform: the window dimensions as two single-precision
/// bit patterns, width first.
pub struct Uniforms {
    pub width_bits: u32,
    pub height_bits: u32,
}

impl Uniforms {
    /// The record holds exactly the resolution `(w, h)`.
    pub open spec fn encodes(self, w: u32, h: u32) -> bool {
        &&& valid_dim(w)
        &&& valid_dim(h)
        &&& self.width_bits as nat == f32_bits_of_dim(w as nat)
        &&& self.height_bits as nat == f32_bits_of_dim(h as nat)
    }

    /// Build the uniform record for a resolution.
    pub fn new(width: u32, height: u32) -> (r: Uniforms)
        requires
            valid_dim(width),
            valid_dim(height),
        ensures
            r.encodes(width, height),
    {
        Uniforms {
            width_bits: f32_bits_from_dim(width),
            height_bits: f32_bits_from_dim(height),
        }
    }

    /// The bytes uploaded to the uniform buffer: eight bytes, tightly packed.
    pub fn to_bytes(&self) -> (r: Vec<u8>)
        ensures
            r@.len() == 8,
            r@ == le4_bytes(self.width_bits as nat) + le4_bytes(self.height_bits as nat),
            forall|w: u32, h: u32|
                self.encodes(w, h) ==> r@ == uniform_bytes(w as nat, h as nat),
    {
        let mut out = u32_to_le_bytes(self.width_bits);
        let mut tail = u32_to_le_bytes(self.height_bits);
        out.append(&mut tail);
        out
    }
}

/// Read a resolution back out of uniform bytes. Exactly the encodings of
/// in-range resolutions decode, and each to the resolution it was built
/// from.
pub fn decode_resolution(bytes: &Vec<u8>) -> (r: Option<(u32, u32)>)
    ensures
        forall|w: u32, h: u32|
            valid_dim(w) && valid_dim(h) && bytes@ == uniform_bytes(w as nat, h as nat)
                ==> r == Some((w, h)),
        r is Some ==> valid_dim((r->0).0) && valid_dim((r->0).1) && bytes@ == uniform_bytes(
            (r->0).0 as nat,
            (r->0).1 as nat,
        ),
{
    if bytes.len() != 8 {
        return None;
    }
    let wb = u32_from_le_bytes(bytes[0], bytes[1], bytes[2], bytes[3]);
    let hb = u32_from_le_bytes(bytes[4], bytes[5], bytes[6], bytes[7]);
    proof {
        assert forall|w: u32, h: u32|
            valid_dim(w) && valid_dim(h) && bytes@ == uniform_bytes(w as nat, h as nat)
                implies wb as nat == f32_bits_of_dim(w as nat) && hb as nat == f32_bits_of_dim(
                h as nat,
            ) by {
            lemma_f32_bits_decompose(w as nat);
            lemma_f32_bits_decompose(h as nat);
            assert(seq![bytes@[0], bytes@[1], bytes@[2], bytes@[3]] =~= le4_bytes(
                f32_bits_of_dim(w as nat),
            ));
            assert(seq![bytes@[4], bytes@[5], bytes@[6], bytes@[7]] =~= le4_bytes(
                f32_bits_of_dim(h as nat),
            ));
            lemma_le4_round_trip(f32_bits_of_dim(w as nat));
            lemma_le4_round_trip(f32_bits_of_dim(h as nat));
        };
    }
    let w = match dim_from_f32_bits(wb) {
        Some(w) => w,
        None => {
            return None;
        },
    };
    let h = match dim_from_f32_bits(hb) {
        Some(h) => h,
        None => {
            return None;
        },
    };
    proof {
        crate::bits::lemma_le4_inverse(bytes@.subrange(0, 4));
        crate::bits::lemma_le4_inverse(bytes@.subrange(4, 8));
        assert(seq![bytes@[0], bytes@[1], bytes@[2], bytes@[3]] =~= bytes@.subrange(0, 4));
        assert(seq![bytes@[4], bytes@[5], bytes@[6], bytes@[7]] =~= bytes@.subrange(4, 8));
        assert(bytes@ =~= le4_bytes(wb as nat) + le4_bytes(hb as nat));
    }
    Some((w, h))
}

/// The uniform layout is unambiguous: every resolution in range has one
/// eight-byte image, and no two resolutions share it.
pub proof fn lemma_uniform_bytes_injective(w1: u32, h1: u32, w2: u32, h2: u32)
    requires
        valid_dim(w1),
        valid_dim(h1),
        valid_dim(w2),
        valid_dim(h2),
        uniform_bytes(w1 as nat, h1 as nat) == uniform_bytes(w2 as nat, h2 as nat),
    ensures
        w1 == w2,
        h1 == h2,
{
    lemma_f32_bits_decompose(w1 as nat);
    lemma_f32_bits_decompose(h1 as nat);
    lemma_f32_bits_decompose(w2 as nat);
    lemma_f32_bits_decompose(h2 as nat);
    let b1 = uniform_bytes(w1 as nat, h1 as nat);
    let b2 = uniform_bytes(w2 as nat, h2 as nat);
    assert(le4_bytes(f32_bits_of_dim(w1 as nat)) =~= seq![b1[0], b1[1], b1[2], b1[3]]);
    assert(le4_bytes(f32_bits_of_dim(w2 as nat)) =~= seq![b2[0], b2[1], b2[2], b2[3]]);
    assert(le4_bytes(f32_bits_of_dim(h1 as nat)) =~= seq![b1[4], b1[5], b1[6], b1[7]]);
    assert(le4_bytes(f32_bits_of_dim(h2 as nat)) =~= seq![b2[4], b2[5], b2[6], b2[7]]);
    lemma_le4_round_trip(f32_bits_of_dim(w1 as nat));
    lemma_le4_round_trip(f32_bits_of_dim(w2 as nat));
    lemma_le4_round_trip(f32_bits_of_dim(h1 as nat));
    lemma_le4_round_trip(f32_bits_of_dim(h2 as nat));
    lemma_f32_bits_injective(w1 as nat, w2 as nat);
    lemma_f32_bits_injective(h1 as nat, h2 as nat);
}

} // verus!

//! What a native integer is as a sequence of limbs, and back.

use vstd::prelude::*;
use vstd::std_specs::bits::{axiom_u64_leading_zeros, u64_leading_zeros};

verus! {

/// The number of leading zero bits of `v`, of its 128.
pub open spec fn leading_zeros_u128(v: u128) -> int {
    if (v >> 64) != 0 {
        u64_leading_zeros((v >> 64) as u64)
    } else {
        64 + u64_leading_zeros(v as u64)
    }
}

/// The number of bits that `v` takes: its width without its leading zeros.
pub open spec fn unsigned_bits(v: u128) -> int {
    128 - leading_zeros_u128(v)
}

/// The number of bits that `v` takes below its sign: its width without the
/// leading bits that repeat the sign.
pub open spec fn signed_bits(v: i128) -> int {
    if v >= 0 {
        unsigned_bits(v as u128)
    } else {
        unsigned_bits(!(v as u128))
    }
}

/// The number of limbs for an unsigned `v`: the least that holds its bits and
/// one zero bit above them.
pub open spec fn unsigned_count(v: u128) -> int {
    unsigned_bits(v) / 64 + 1
}

/// The number of limbs for a signed `v`: one while the bits below the sign
/// fit a limb, else the least that holds them.
pub open spec fn signed_count(v: i128) -> int {
    if signed_bits(v) <= 64 {
        1
    } else {
        (signed_bits(v) + 63) / 64
    }
}

/// The limb of `v` with significance `position`: bits 0 to 63 of `v` at 0,
/// bits 64 to 127 at 1, and zero above.
pub open spec fn word_at(v: u128, position: int) -> u64 {
    if position == 0 {
        v as u64
    } else if position == 1 {
        (v >> 64) as u64
    } else {
        0u64
    }
}

/// The limbs of an unsigned `v`, least significant first.
pub open spec fn words_unsigned(v: u128) -> Seq<u64> {
    Seq::new(unsigned_count(v) as nat, |i: int| word_at(v, i))
}

/// The limbs of a signed `v` in two's complement, least significant first.
pub open spec fn words_signed(v: i128) -> Seq<u64> {
    Seq::new(signed_count(v) as nat, |i: int| word_at(v as u128, i))
}

/// The low 128 bits of the number whose limbs are `words`, least significant
/// first.
pub open spec fn low_u128(words: Seq<u64>) -> u128 {
    if words.len() >= 2 {
        (words[0] as u128) | ((words[1] as u128) << 64)
    } else {
        words[0] as u128
    }
}

/// The number whose limbs are `words`, least significant first, each limb
/// taken as unsigned.
pub open spec fn magnitude(words: Seq<u64>) -> nat
    decreases words.len(),
{
    if words.len() == 0 {
        0
    } else {
        (words[0] as nat) + 0x1_0000_0000_0000_0000 * magnitude(words.skip(1))
    }
}

/// A limb has no leading zero exactly where its top bit is set.
pub proof fn lemma_top_bit(w: u64)
    ensures
        0 <= u64_leading_zeros(w) <= 64,
        (u64_leading_zeros(w) == 0) == (w >= 0x8000_0000_0000_0000),
        (u64_leading_zeros(w) == 64) == (w == 0),
{
    axiom_u64_leading_zeros(w);
    let lz = u64_leading_zeros(w);
    if lz == 0 {
        let s: u64 = (63 - lz) as u64;
        assert((w >> s) & 1u64 != 0u64);
        assert(s == 63 && (w >> s) & 1u64 != 0u64 ==> w >= 0x8000_0000_0000_0000) by (bit_vector);
    } else {
        let s: u64 = (64 - lz) as u64;
        assert(w >> s == 0);
        assert(s <= 63 && w >> s == 0 ==> w < 0x8000_0000_0000_0000) by (bit_vector);
    }
}

/// The bits of an unsigned value against the two thresholds that decide how
/// many limbs it takes.
pub proof fn lemma_unsigned_bits(v: u128)
    ensures
        0 <= unsigned_bits(v) <= 128,
        (unsigned_bits(v) < 64) == (v < 0x8000_0000_0000_0000),
        (unsigned_bits(v) <= 64) == (v <= 0xffff_ffff_ffff_ffff),
        (unsigned_bits(v) == 128) == (v >= 0x8000_0000_0000_0000_0000_0000_0000_0000),
        (unsigned_bits(v) == 0) == (v == 0),
{
    let hi = (v >> 64) as u64;
    let lo = v as u64;
    lemma_top_bit(hi);
    lemma_top_bit(lo);
    assert(((v >> 64) != 0) == (hi != 0)) by (bit_vector)
        requires
            hi == (v >> 64) as u64,
    ;
    assert((hi != 0) == (v > 0xffff_ffff_ffff_ffff)) by (bit_vector)
        requires
            hi == (v >> 64) as u64,
    ;
    assert((hi >= 0x8000_0000_0000_0000) == (v >= 0x8000_0000_0000_0000_0000_0000_0000_0000))
        by (bit_vector)
        requires
            hi == (v >> 64) as u64,
    ;
    assert(hi == 0 ==> ((lo >= 0x8000_0000_0000_0000) == (v >= 0x8000_0000_0000_0000)) && ((lo
        == 0) == (v == 0))) by (bit_vector)
        requires
            hi == (v >> 64) as u64,
            lo == v as u64,
    ;
}

/// The bits of a signed value below its sign against the threshold that
/// decides how many limbs it takes.
pub proof fn lemma_signed_bits(v: i128)
    ensures
        0 <= signed_bits(v) <= 127,
        (signed_bits(v) < 64) == (-0x8000_0000_0000_0000 <= v < 0x8000_0000_0000_0000),
        (signed_bits(v) <= 64) == (-0x1_0000_0000_0000_0000 <= v <= 0xffff_ffff_ffff_ffff),
{
    let u = v as u128;
    let n = !u;
    lemma_unsigned_bits(u);
    lemma_unsigned_bits(n);
    assert(v >= 0 ==> u < 0x8000_0000_0000_0000_0000_0000_0000_0000 && ((u
        < 0x8000_0000_0000_0000) == (v < 0x8000_0000_0000_0000)) && ((u <= 0xffff_ffff_ffff_ffff)
        == (v <= 0xffff_ffff_ffff_ffff))) by (bit_vector)
        requires
            u == v as u128,
    ;
    assert(v < 0 ==> n < 0x8000_0000_0000_0000_0000_0000_0000_0000 && ((n
        < 0x8000_0000_0000_0000) == (v >= -0x8000_0000_0000_0000)) && ((n
        <= 0xffff_ffff_ffff_ffff) == (v >= -0x1_0000_0000_0000_0000))) by (bit_vector)
        requires
            u == v as u128,
            n == !u,
    ;
}

} // verus!

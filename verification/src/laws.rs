//! What holds of the conversions, for every value.

use vstd::prelude::*;
use crate::bits::{
    lemma_signed_bits, lemma_unsigned_bits, low_u128, magnitude, signed_count, unsigned_count,
    words_signed, words_unsigned,
};
use crate::order::WordOrder;

verus! {

/// A `u8` that is converted to limbs and back is the same `u8`.
pub proof fn lemma_round_trip_u8(v: u8)
    ensures
        words_unsigned(v as u128).len() == 1,
        words_unsigned(v as u128)[0] as u8 == v,
{
    lemma_unsigned_bits(v as u128);
}

/// A `u16` that is converted to limbs and back is the same `u16`.
pub proof fn lemma_round_trip_u16(v: u16)
    ensures
        words_unsigned(v as u128).len() == 1,
        words_unsigned(v as u128)[0] as u16 == v,
{
    lemma_unsigned_bits(v as u128);
}

/// A `u32` that is converted to limbs and back is the same `u32`.
pub proof fn lemma_round_trip_u32(v: u32)
    ensures
        words_unsigned(v as u128).len() == 1,
        words_unsigned(v as u128)[0] as u32 == v,
{
    lemma_unsigned_bits(v as u128);
}

/// A `usize` that is converted to limbs and back is the same `usize`.
pub proof fn lemma_round_trip_usize(v: usize)
    ensures
        words_unsigned(v as u128)[0] as usize == v,
{
    lemma_unsigned_bits(v as u128);
}

/// A `u64` that is converted to limbs and back is the same `u64`.
pub proof fn lemma_round_trip_u64(v: u64)
    ensures
        words_unsigned(v as u128)[0] == v,
{
    lemma_unsigned_bits(v as u128);
}

/// A `u128` that is converted to limbs and back is the same `u128`.
pub proof fn lemma_round_trip_u128(v: u128)
    ensures
        low_u128(words_unsigned(v)) == v,
{
    lemma_unsigned_bits(v);
    let lo = v as u64;
    let hi = (v >> 64) as u64;
    if unsigned_count(v) >= 2 {
        assert((lo as u128) | ((hi as u128) << 64) == v) by (bit_vector)
            requires
                lo == v as u64,
                hi == (v >> 64) as u64,
        ;
    } else {
        assert(lo as u128 == v) by (bit_vector)
            requires
                lo == v as u64,
                v < 0x8000_0000_0000_0000,
        ;
    }
}

/// An `i8` that is converted to limbs and back is the same `i8`.
pub proof fn lemma_round_trip_i8(v: i8)
    ensures
        words_signed(v as i128).len() == 1,
        words_signed(v as i128)[0] as i8 == v,
{
    lemma_signed_bits(v as i128);
    assert((((v as i128) as u128) as u64) as i8 == v) by (bit_vector);
}

/// An `i16` that is converted to limbs and back is the same `i16`.
pub proof fn lemma_round_trip_i16(v: i16)
    ensures
        words_signed(v as i128).len() == 1,
        words_signed(v as i128)[0] as i16 == v,
{
    lemma_signed_bits(v as i128);
    assert((((v as i128) as u128) as u64) as i16 == v) by (bit_vector);
}

/// An `i32` that is converted to limbs and back is the same `i32`.
pub proof fn lemma_round_trip_i32(v: i32)
    ensures
        words_signed(v as i128).len() == 1,
        words_signed(v as i128)[0] as i32 == v,
{
    lemma_signed_bits(v as i128);
    assert((((v as i128) as u128) as u64) as i32 == v) by (bit_vector);
}

/// An `i64` that is converted to limbs and back is the same `i64`.
pub proof fn lemma_round_trip_i64(v: i64)
    ensures
        words_signed(v as i128).len() == 1,
        words_signed(v as i128)[0] as i64 == v,
{
    lemma_signed_bits(v as i128);
    assert((((v as i128) as u128) as u64) as i64 == v) by (bit_vector);
}

/// An `isize` that is converted to limbs and back is the same `isize`.
pub proof fn lemma_round_trip_isize(v: isize)
    ensures
        words_signed(v as i128).len() == 1,
        words_signed(v as i128)[0] as isize == v,
{
    lemma_signed_bits(v as i128);
    assert((((v as i128) as u128) as u64) as isize == v) by (bit_vector);
}

/// An `i128` that is converted to limbs and back is the same `i128`, unless
/// it is negative and no less than -2^64: such a value is held as one limb,
/// its low 64 bits, and comes back as those bits without a sign.
pub proof fn lemma_round_trip_i128(v: i128)
    requires
        v >= 0 || v < -0x1_0000_0000_0000_0000,
    ensures
        low_u128(words_signed(v)) as i128 == v,
{
    lemma_signed_bits(v);
    let u = v as u128;
    let lo = u as u64;
    let hi = (u >> 64) as u64;
    if signed_count(v) >= 2 {
        assert(((lo as u128) | ((hi as u128) << 64)) as i128 == v) by (bit_vector)
            requires
                u == v as u128,
                lo == u as u64,
                hi == (u >> 64) as u64,
        ;
    } else {
        assert((lo as u128) as i128 == v) by (bit_vector)
            requires
                u == v as u128,
                lo == u as u64,
                0 <= v <= 0xffff_ffff_ffff_ffff,
        ;
    }
}

/// A negative `i128` that is held as one limb comes back as its low 64 bits
/// without a sign, which is another number.
pub proof fn lemma_inline_negative_i128(v: i128)
    requires
        -0x1_0000_0000_0000_0000 <= v < 0,
    ensures
        words_signed(v).len() == 1,
        low_u128(words_signed(v)) as i128 == v + 0x1_0000_0000_0000_0000,
{
    lemma_signed_bits(v);
    let u = v as u128;
    let lo = u as u64;
    assert((lo as u128) as i128 == v + 0x1_0000_0000_0000_0000) by (bit_vector)
        requires
            u == v as u128,
            lo == u as u64,
            -0x1_0000_0000_0000_0000 <= v < 0,
    ;
}

/// The limbs of an unsigned value, each weighted by its place, add up to the
/// value.
pub proof fn lemma_unsigned_value(v: u128)
    ensures
        magnitude(words_unsigned(v)) == v,
{
    lemma_unsigned_bits(v);
    let words = words_unsigned(v);
    let lo = v as u64;
    let hi = (v >> 64) as u64;
    let t1 = words.skip(1);
    let t2 = t1.skip(1);
    let t3 = t2.skip(1);
    assert(words[0] == lo);
    assert(magnitude(words) == lo + 0x1_0000_0000_0000_0000 * magnitude(t1));
    if words.len() >= 2 {
        assert(t1[0] == words[1]);
        assert(words[1] == hi);
        assert(magnitude(t1) == hi + 0x1_0000_0000_0000_0000 * magnitude(t2));
        if words.len() >= 3 {
            assert(t2[0] == words[2]);
            assert(magnitude(t2) == 0 + 0x1_0000_0000_0000_0000 * magnitude(t3));
            assert(t3.len() == 0);
            assert(magnitude(t3) == 0);
        } else {
            assert(t2.len() == 0);
            assert(magnitude(t2) == 0);
        }
        assert((lo as u128) + (hi as u128) * 0x1_0000_0000_0000_0000 == v) by (bit_vector)
            requires
                lo == v as u64,
                hi == (v >> 64) as u64,
        ;
    } else {
        assert(t1.len() == 0);
        assert(magnitude(t1) == 0);
        assert(lo as u128 == v) by (bit_vector)
            requires
                lo == v as u64,
                v < 0x8000_0000_0000_0000,
        ;
    }
}

/// An unsigned value takes the least number of limbs that hold it with a
/// zero bit above it: one limb below 2^63, two below 2^127, three from there.
pub proof fn lemma_minimal_unsigned(v: u128)
    ensures
        1 <= unsigned_count(v) <= 3,
        (unsigned_count(v) == 1) == (v < 0x8000_0000_0000_0000),
        (unsigned_count(v) == 2) == (0x8000_0000_0000_0000 <= v
            < 0x8000_0000_0000_0000_0000_0000_0000_0000),
        (unsigned_count(v) == 3) == (v >= 0x8000_0000_0000_0000_0000_0000_0000_0000),
{
    lemma_unsigned_bits(v);
}

/// A signed value takes one limb while the bits below its sign fit a limb,
/// which is from -2^64 to 2^64 - 1, and two limbs outside that range.
pub proof fn lemma_minimal_signed(v: i128)
    ensures
        1 <= signed_count(v) <= 2,
        (signed_count(v) == 1) == (-0x1_0000_0000_0000_0000 <= v <= 0xffff_ffff_ffff_ffff),
{
    lemma_signed_bits(v);
}

/// The least significant limb is the number modulo 2^64.
pub proof fn lemma_low_word_is_remainder(words: Seq<u64>)
    requires
        words.len() >= 1,
    ensures
        words[0] == magnitude(words) % 0x1_0000_0000_0000_0000,
{
    let rest = magnitude(words.skip(1));
    let w0 = words[0] as int;
    assert(magnitude(words) == w0 + 0x1_0000_0000_0000_0000 * rest);
    assert((w0 + 0x1_0000_0000_0000_0000 * rest) % 0x1_0000_0000_0000_0000 == w0)
        by (nonlinear_arith)
        requires
            0 <= w0 < 0x1_0000_0000_0000_0000,
            0 <= rest,
    ;
}

/// The two least significant limbs as one number are the number modulo
/// 2^128, and so is the one limb of an inline value.
pub proof fn lemma_low_u128_is_remainder(words: Seq<u64>)
    requires
        words.len() >= 1,
    ensures
        low_u128(words) == (magnitude(words) as int) % (0x1_0000_0000_0000_0000int * 0x1_0000_0000_0000_0000int),
{
    let w0 = words[0] as int;
    let tail = words.skip(1);
    assert(magnitude(words) == w0 + 0x1_0000_0000_0000_0000 * magnitude(tail));
    if words.len() >= 2 {
        let a: u64 = words[0];
        let w1: u64 = words[1];
        let rest = magnitude(tail.skip(1));
        assert(tail[0] == w1);
        assert(magnitude(tail) == w1 + 0x1_0000_0000_0000_0000 * rest);
        assert((a as u128) | ((w1 as u128) << 64) == (a as u128) + (w1 as u128)
            * 0x1_0000_0000_0000_0000) by (bit_vector);
        assert((w0 + 0x1_0000_0000_0000_0000 * (w1 + 0x1_0000_0000_0000_0000 * rest))
            % (0x1_0000_0000_0000_0000int * 0x1_0000_0000_0000_0000int) == w0 + w1 * 0x1_0000_0000_0000_0000)
            by (nonlinear_arith)
            requires
                0 <= w0 < 0x1_0000_0000_0000_0000,
                0 <= w1 < 0x1_0000_0000_0000_0000,
                0 <= rest,
        ;
    } else {
        assert(tail.len() == 0);
        assert(magnitude(tail) == 0);
        assert(w0 % (0x1_0000_0000_0000_0000int * 0x1_0000_0000_0000_0000int) == w0) by (nonlinear_arith)
            requires
                0 <= w0 < 0x1_0000_0000_0000_0000,
        ;
    }
}

/// A value of any number of limbs converts to a `u8` as the number modulo
/// 2^8.
pub proof fn lemma_truncates_to_u8(words: Seq<u64>)
    requires
        words.len() >= 1,
    ensures
        words[0] as u8 == magnitude(words) % 0x100,
{
    lemma_low_word_is_remainder(words);
    let m = magnitude(words) as int;
    let w = words[0];
    assert(w as u8 == w % 0x100) by (bit_vector);
    assert(m % 0x100 == (m % 0x1_0000_0000_0000_0000) % 0x100) by (nonlinear_arith)
        requires
            0 <= m,
    ;
}

/// A value of any number of limbs converts to a `u16` as the number modulo
/// 2^16.
pub proof fn lemma_truncates_to_u16(words: Seq<u64>)
    requires
        words.len() >= 1,
    ensures
        words[0] as u16 == magnitude(words) % 0x1_0000,
{
    lemma_low_word_is_remainder(words);
    let m = magnitude(words) as int;
    let w = words[0];
    assert(w as u16 == w % 0x1_0000) by (bit_vector);
    assert(m % 0x1_0000 == (m % 0x1_0000_0000_0000_0000) % 0x1_0000) by (nonlinear_arith)
        requires
            0 <= m,
    ;
}

/// A value of any number of limbs converts to a `u32` as the number modulo
/// 2^32.
pub proof fn lemma_truncates_to_u32(words: Seq<u64>)
    requires
        words.len() >= 1,
    ensures
        words[0] as u32 == magnitude(words) % 0x1_0000_0000,
{
    lemma_low_word_is_remainder(words);
    let m = magnitude(words) as int;
    let w = words[0];
    assert(w as u32 == w % 0x1_0000_0000) by (bit_vector);
    assert(m % 0x1_0000_0000 == (m % 0x1_0000_0000_0000_0000) % 0x1_0000_0000) by (nonlinear_arith)
        requires
            0 <= m,
    ;
}

/// A value of any number of limbs converts to an `i8` with the bits of the
/// number modulo 2^8.
pub proof fn lemma_truncates_to_i8(words: Seq<u64>)
    requires
        words.len() >= 1,
    ensures
        (words[0] as i8) as u8 == magnitude(words) % 0x100,
{
    lemma_truncates_to_u8(words);
    let w = words[0];
    assert((w as i8) as u8 == w as u8) by (bit_vector);
}

/// A value of any number of limbs converts to an `i16` with the bits of the
/// number modulo 2^16.
pub proof fn lemma_truncates_to_i16(words: Seq<u64>)
    requires
        words.len() >= 1,
    ensures
        (words[0] as i16) as u16 == magnitude(words) % 0x1_0000,
{
    lemma_truncates_to_u16(words);
    let w = words[0];
    assert((w as i16) as u16 == w as u16) by (bit_vector);
}

/// A value of any number of limbs converts to an `i32` with the bits of the
/// number modulo 2^32.
pub proof fn lemma_truncates_to_i32(words: Seq<u64>)
    requires
        words.len() >= 1,
    ensures
        (words[0] as i32) as u32 == magnitude(words) % 0x1_0000_0000,
{
    lemma_truncates_to_u32(words);
    let w = words[0];
    assert((w as i32) as u32 == w as u32) by (bit_vector);
}

/// A value of any number of limbs converts to an `i64` with the bits of the
/// number modulo 2^64.
pub proof fn lemma_truncates_to_i64(words: Seq<u64>)
    requires
        words.len() >= 1,
    ensures
        (words[0] as i64) as u64 == magnitude(words) % 0x1_0000_0000_0000_0000,
{
    lemma_low_word_is_remainder(words);
    let w = words[0];
    assert((w as i64) as u64 == w) by (bit_vector);
}

/// A value of any number of limbs converts to an `i128` with the bits of the
/// number modulo 2^128.
pub proof fn lemma_truncates_to_i128(words: Seq<u64>)
    requires
        words.len() >= 1,
    ensures
        (low_u128(words) as i128) as u128 == (magnitude(words) as int) % (0x1_0000_0000_0000_0000int
            * 0x1_0000_0000_0000_0000int),
{
    lemma_low_u128_is_remainder(words);
    let w = low_u128(words);
    assert((w as i128) as u128 == w) by (bit_vector);
}

/// The one limb 0 converts to every native integer as 0, and the one limb 1
/// as 1.
pub proof fn lemma_zero_and_one_convert()
    ensures
        seq![0u64][0] as u8 == 0 && seq![1u64][0] as u8 == 1,
        seq![0u64][0] as u16 == 0 && seq![1u64][0] as u16 == 1,
        seq![0u64][0] as u32 == 0 && seq![1u64][0] as u32 == 1,
        seq![0u64][0] == 0 && seq![1u64][0] == 1,
        seq![0u64][0] as usize == 0 && seq![1u64][0] as usize == 1,
        low_u128(seq![0u64]) == 0 && low_u128(seq![1u64]) == 1,
        seq![0u64][0] as i8 == 0 && seq![1u64][0] as i8 == 1,
        seq![0u64][0] as i16 == 0 && seq![1u64][0] as i16 == 1,
        seq![0u64][0] as i32 == 0 && seq![1u64][0] as i32 == 1,
        seq![0u64][0] as i64 == 0 && seq![1u64][0] as i64 == 1,
        seq![0u64][0] as isize == 0 && seq![1u64][0] as isize == 1,
        low_u128(seq![0u64]) as i128 == 0 && low_u128(seq![1u64]) as i128 == 1,
{
}

/// To read a buffer by significance in one order, and the result again in
/// the same order, gives the buffer back: the conversions, which write and
/// read in one order, give the same numbers in either.
pub proof fn lemma_order_cancels(order: WordOrder, words: Seq<u64>)
    ensures
        order.by_significance(order.by_significance(words)) == words,
{
    assert(order.by_significance(order.by_significance(words)) =~= words);
}

/// The least significant limb lies at index 0 in one order and at the last
/// index in the other.
pub proof fn lemma_order_places(words: Seq<u64>)
    requires
        words.len() >= 1,
    ensures
        WordOrder::LeastFirst.by_significance(words) == words,
        WordOrder::MostFirst.by_significance(words)[0] == words[words.len() - 1],
        WordOrder::MostFirst.by_significance(words) == words.reverse(),
{
    assert(WordOrder::LeastFirst.by_significance(words) =~= words);
    assert(WordOrder::MostFirst.by_significance(words) =~= words.reverse());
}

} // verus!

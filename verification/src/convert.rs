//! Conversion between the widest native integers and `ApInt`, with the order
//! of the limbs given by the caller.

use vstd::prelude::*;
use crate::apint::{ApInt, ApIntStorage};
use crate::bits::{
    leading_zeros_u128, lemma_signed_bits, lemma_top_bit, lemma_unsigned_bits, low_u128,
    signed_bits, unsigned_bits, word_at, words_signed, words_unsigned,
};
use crate::limb::Limb;
use crate::order::WordOrder;

verus! {

/// Returns the number of leading zero bits of `val`.
pub fn leading_zeros_wide(val: u128) -> (r: u32)
    ensures
        r == leading_zeros_u128(val),
        r <= 128,
{
    let hi: u64 = #[verifier::truncate] ((val >> 64) as u64);
    let lo: u64 = #[verifier::truncate] (val as u64);
    proof {
        lemma_top_bit(hi);
        lemma_top_bit(lo);
        assert(((val >> 64) != 0) == (hi != 0)) by (bit_vector)
            requires
                hi == (val >> 64) as u64,
        ;
    }
    if hi != 0 {
        hi.leading_zeros()
    } else {
        64 + lo.leading_zeros()
    }
}

/// Returns the number of leading bits of `val` that repeat its sign: its
/// leading zeros and its leading ones together.
pub fn sign_run(val: i128) -> (r: u32)
    ensures
        r == 128 - signed_bits(val),
        1 <= r <= 128,
{
    proof {
        lemma_signed_bits(val);
    }
    if val >= 0 {
        leading_zeros_wide(val as u128)
    } else {
        leading_zeros_wide(!(#[verifier::truncate] (val as u128)))
    }
}

/// The low limbs of `words` as one number: the lowest limb where `count` is
/// 1, the lowest two where it is 2 and there are two.
pub open spec fn low_bits(words: Seq<u64>, count: int) -> u128 {
    if count >= 2 {
        low_u128(words)
    } else {
        words[0] as u128
    }
}

impl ApInt {
    /// Writes the `upto` least significant limbs of `val` to their places in
    /// the storage. The other limbs stay as they are.
    pub fn fill_low(&mut self, val: u128, upto: usize)
        requires
            upto <= old(self).stored().len(),
        ensures
            final(self).stored().len() == old(self).stored().len(),
            final(self).order() == old(self).order(),
            final(self).is_inline() == old(self).is_inline(),
            forall|k: int|
                0 <= k < upto ==> final(self).stored()[#[trigger] old(self).order().slot_of(
                    old(self).stored().len() as int,
                    k,
                )] == word_at(val, k),
            forall|k: int|
                upto <= k < old(self).stored().len() ==> final(self).stored()[#[trigger] old(
                    self,
                ).order().slot_of(old(self).stored().len() as int, k)] == old(self).stored()[old(
                    self,
                ).order().slot_of(old(self).stored().len() as int, k)],
    {
        let len: usize = self.len();
        let order = self.word_order();
        let mut cur: u128 = val;
        let mut i: usize = 0;
        while i < upto
            invariant
                i <= upto <= len,
                len == old(self).stored().len(),
                order == old(self).order(),
                self.stored().len() == len,
                self.order() == order,
                self.is_inline() == old(self).is_inline(),
                i == 0 ==> cur == val,
                i == 1 ==> cur == val >> 64,
                i >= 2 ==> cur == 0,
                forall|k: int|
                    0 <= k < i ==> self.stored()[#[trigger] order.slot_of(len as int, k)]
                        == word_at(val, k),
                forall|k: int|
                    i <= k < len ==> self.stored()[#[trigger] order.slot_of(len as int, k)] == old(
                        self,
                    ).stored()[order.slot_of(len as int, k)],
            decreases upto - i,
        {
            // The value of the limb.
            let limb: u64 = #[verifier::truncate] ((cur & 0xffff_ffff_ffff_ffff) as u64);
            let next: u128 = cur.wrapping_shr(64);
            proof {
                assert((cur & 0xffff_ffff_ffff_ffff) as u64 == cur as u64) by (bit_vector);
                assert((val >> 64) >> 64 == 0) by (bit_vector);
                assert(0u128 >> 64 == 0) by (bit_vector);
                assert(64u32 % 128 == 64);
                assert(limb == word_at(val, i as int));
            }
            let index = order.slot(len, i);
            self.set_limb(index, Limb(limb));
            cur = next;
            i = i + 1;
        }
    }

    /// Converts the unsigned `val`, of a type wider than a limb. The value is
    /// held inline where its bits fit strictly within a limb; else it takes
    /// the least number of limbs that hold its bits and a zero bit above
    /// them, in the given order.
    pub fn from_unsigned_in(val: u128, order: WordOrder) -> (r: ApInt)
        ensures
            r@ == words_unsigned(val),
            r@.len() == unsigned_bits(val) / 64 + 1,
            r@.len() > 1 ==> r.order() == order,
    {
        proof {
            lemma_unsigned_bits(val);
        }
        // The number of bits actually required to hold the value.
        let bits_val: usize = 128 - (leading_zeros_wide(val) as usize);
        if bits_val < Limb::BITS {
            let r = ApInt::from_limb(Limb(#[verifier::truncate] (val as u64)));
            assert(r@ =~= words_unsigned(val));
            r
        } else {
            let capacity: usize = bits_val / Limb::BITS + 1;
            let mut big = ApInt::with_capacity(capacity, order);
            big.fill_low(val, capacity);
            assert(big@ =~= words_unsigned(val));
            big
        }
    }

    /// Converts the unsigned `val`, of a type as wide as a limb. The value is
    /// held inline where its top bit is clear; else it takes two limbs in the
    /// given order, the upper of them zero.
    pub fn from_word_in(val: u64, order: WordOrder) -> (r: ApInt)
        ensures
            r@ == words_unsigned(val as u128),
            r@.len() == unsigned_bits(val as u128) / 64 + 1,
            r@.len() > 1 ==> r.order() == order,
    {
        proof {
            lemma_unsigned_bits(val as u128);
            lemma_top_bit(val);
            assert(((val as u128) >> 64) == 0 && (val as u128) as u64 == val) by (bit_vector);
        }
        // The number of bits actually required to hold the value.
        let bits_val: usize = Limb::BITS - (val.leading_zeros() as usize);
        if bits_val < Limb::BITS {
            let r = ApInt::from_limb(Limb(val));
            assert(r@ =~= words_unsigned(val as u128));
            r
        } else {
            let capacity: usize = bits_val / Limb::BITS + 1;
            let mut big = ApInt::with_capacity(capacity, order);
            // The top limb is zero already: only those below it are written.
            big.fill_low(val as u128, capacity - 1);
            assert(big@ =~= words_unsigned(val as u128)) by {
                assert(big@[0] == big.stored()[order.slot_of(2, 0)]);
                assert(big@[1] == big.stored()[order.slot_of(2, 1)]);
            }
            big
        }
    }

    /// Converts the signed `val`, of a type wider than a limb, in two's
    /// complement. The value is held inline, as its low 64 bits, where the
    /// bits below its sign fit a limb; else it takes the least number of limbs
    /// that hold them, in the given order.
    pub fn from_signed_in(val: i128, order: WordOrder) -> (r: ApInt)
        ensures
            r@ == words_signed(val),
            r@.len() == (if signed_bits(val) <= 64 {
                1
            } else {
                (signed_bits(val) + 63) / 64
            }),
            r@.len() > 1 ==> r.order() == order,
    {
        proof {
            lemma_signed_bits(val);
        }
        let leading: usize = sign_run(val) as usize;
        // The number of bits actually required to hold the value below its sign.
        let bits_val: usize = 128 - leading;
        let pattern: u128 = #[verifier::truncate] (val as u128);
        if bits_val <= Limb::BITS {
            let r = ApInt::from_limb(Limb(#[verifier::truncate] (pattern as u64)));
            assert(r@ =~= words_signed(val));
            r
        } else {
            let q: usize = bits_val / Limb::BITS;
            let r: usize = bits_val % Limb::BITS;
            let capacity: usize = if r != 0 {
                q + 1
            } else {
                q
            };
            let mut big = ApInt::with_capacity(capacity, order);
            big.fill_low(pattern, capacity);
            assert(big@ =~= words_signed(val));
            big
        }
    }

    /// Converts the signed `val`, of a type no wider than a limb, in two's
    /// complement: it is always held inline, with its sign carried up to the
    /// top of the limb.
    pub fn from_small_signed(val: i64) -> (r: ApInt)
        ensures
            r@ == words_signed(val as i128),
            r@ == seq![val as u64],
            r.is_inline(),
    {
        proof {
            lemma_signed_bits(val as i128);
            assert(((val as i128) as u128) as u64 == val as u64) by (bit_vector);
        }
        let r = ApInt::from_limb(Limb(#[verifier::truncate] (val as u64)));
        assert(r@ =~= words_signed(val as i128));
        r
    }

    /// Converts the unsigned `val`, of a type narrower than a limb: it is
    /// always held inline.
    pub fn from_small_unsigned(val: u32) -> (r: ApInt)
        ensures
            r@ == words_unsigned(val as u128),
            r@ == seq![val as u64],
            r.is_inline(),
    {
        proof {
            lemma_unsigned_bits(val as u128);
        }
        let r = ApInt::from_limb(Limb(val as u64));
        assert(r@ =~= words_unsigned(val as u128));
        r
    }

    /// Assembles the `count` least significant limbs, as far as there are so
    /// many, into one number; the limbs above them are left out.
    pub fn low_words(&self, count: usize) -> (r: u128)
        requires
            1 <= count <= 2,
        ensures
            r == low_bits(self@, count as int),
    {
        match self.storage() {
            ApIntStorage::Stack(limb) => {
                assert(self@[0] == self.stored()[0]);
                limb.repr() as u128
            },
            ApIntStorage::Heap(_) => {
                // Copy only as many limbs as we have.
                let n_copy: usize = if self.len() < count {
                    self.len()
                } else {
                    count
                };
                let mut val: u128 = 0;
                let mut i: usize = 0;
                while i < n_copy
                    invariant
                        i <= n_copy <= 2,
                        n_copy <= self@.len(),
                        i == 0 ==> val == 0,
                        i == 1 ==> val == self@[0] as u128,
                        i == 2 ==> val == (self@[0] as u128) | ((self@[1] as u128) << 64),
                    decreases n_copy - i,
                {
                    let limb: u128 = self.word(i).repr() as u128;
                    let shift: u32 = (Limb::BITS * i) as u32;
                    proof {
                        assert(0u128 | (limb << 0) == limb) by (bit_vector);
                        assert(0u32 % 128 == 0 && 64u32 % 128 == 64);
                    }
                    val = val | limb.wrapping_shl(shift);
                    i = i + 1;
                }
                val
            },
        }
    }
}

} // verus!

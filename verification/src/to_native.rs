//! Conversion from `ApInt` to the native integers.
//!
//! Every conversion succeeds: limbs and bits that the target has no room for
//! are dropped.

use vstd::prelude::*;
use vstd::std_specs::convert::FromSpecImpl;
use crate::apint::ApInt;
use crate::bits::low_u128;

verus! {

impl ApInt {
    /// Returns the least significant limb as a number.
    pub fn low_word(&self) -> (r: u64)
        ensures
            r == self@[0],
    {
        let low: u128 = self.low_words(1);
        let word: u64 = #[verifier::truncate] (low as u64);
        proof {
            let w: u64 = self@[0];
            assert((w as u128) as u64 == w) by (bit_vector);
        }
        word
    }
}

impl<'a> From<&'a ApInt> for u8 {
    /// The low bits of the least significant limb, as a `u8`.
    fn from(value: &'a ApInt) -> (r: u8)
        ensures
            r == value@[0] as u8,
    {
        #[verifier::truncate] (value.low_word() as u8)
    }
}

impl<'a> FromSpecImpl<&'a ApInt> for u8 {
    open spec fn obeys_from_spec() -> bool {
        true
    }

    open spec fn from_spec(value: &'a ApInt) -> u8 {
        value@[0] as u8
    }
}

impl From<ApInt> for u8 {
    /// The low bits of the least significant limb, as a `u8`.
    #[inline]
    fn from(value: ApInt) -> (r: u8)
        ensures
            r == value@[0] as u8,
    {
        <u8>::from(&value)
    }
}

impl FromSpecImpl<ApInt> for u8 {
    open spec fn obeys_from_spec() -> bool {
        true
    }

    open spec fn from_spec(value: ApInt) -> u8 {
        value@[0] as u8
    }
}

impl<'a> From<&'a ApInt> for u16 {
    /// The low bits of the least significant limb, as a `u16`.
    fn from(value: &'a ApInt) -> (r: u16)
        ensures
            r == value@[0] as u16,
    {
        #[verifier::truncate] (value.low_word() as u16)
    }
}

impl<'a> FromSpecImpl<&'a ApInt> for u16 {
    open spec fn obeys_from_spec() -> bool {
        true
    }

    open spec fn from_spec(value: &'a ApInt) -> u16 {
        value@[0] as u16
    }
}

impl From<ApInt> for u16 {
    /// The low bits of the least significant limb, as a `u16`.
    #[inline]
    fn from(value: ApInt) -> (r: u16)
        ensures
            r == value@[0] as u16,
    {
        <u16>::from(&value)
    }
}

impl FromSpecImpl<ApInt> for u16 {
    open spec fn obeys_from_spec() -> bool {
        true
    }

    open spec fn from_spec(value: ApInt) -> u16 {
        value@[0] as u16
    }
}

impl<'a> From<&'a ApInt> for u32 {
    /// The low bits of the least significant limb, as a `u32`.
    fn from(value: &'a ApInt) -> (r: u32)
        ensures
            r == value@[0] as u32,
    {
        #[verifier::truncate] (value.low_word() as u32)
    }
}

impl<'a> FromSpecImpl<&'a ApInt> for u32 {
    open spec fn obeys_from_spec() -> bool {
        true
    }

    open spec fn from_spec(value: &'a ApInt) -> u32 {
        value@[0] as u32
    }
}

impl From<ApInt> for u32 {
    /// The low bits of the least significant limb, as a `u32`.
    #[inline]
    fn from(value: ApInt) -> (r: u32)
        ensures
            r == value@[0] as u32,
    {
        <u32>::from(&value)
    }
}

impl FromSpecImpl<ApInt> for u32 {
    open spec fn obeys_from_spec() -> bool {
        true
    }

    open spec fn from_spec(value: ApInt) -> u32 {
        value@[0] as u32
    }
}

impl<'a> From<&'a ApInt> for usize {
    /// The low bits of the least significant limb, as a `usize`.
    fn from(value: &'a ApInt) -> (r: usize)
        ensures
            r == value@[0] as usize,
    {
        #[verifier::truncate] (value.low_word() as usize)
    }
}

impl<'a> FromSpecImpl<&'a ApInt> for usize {
    open spec fn obeys_from_spec() -> bool {
        true
    }

    open spec fn from_spec(value: &'a ApInt) -> usize {
        value@[0] as usize
    }
}

impl From<ApInt> for usize {
    /// The low bits of the least significant limb, as a `usize`.
    #[inline]
    fn from(value: ApInt) -> (r: usize)
        ensures
            r == value@[0] as usize,
    {
        <usize>::from(&value)
    }
}

impl FromSpecImpl<ApInt> for usize {
    open spec fn obeys_from_spec() -> bool {
        true
    }

    open spec fn from_spec(value: ApInt) -> usize {
        value@[0] as usize
    }
}

impl<'a> From<&'a ApInt> for i8 {
    /// The low bits of the least significant limb, as an `i8`.
    fn from(value: &'a ApInt) -> (r: i8)
        ensures
            r == value@[0] as i8,
    {
        #[verifier::truncate] (value.low_word() as i8)
    }
}

impl<'a> FromSpecImpl<&'a ApInt> for i8 {
    open spec fn obeys_from_spec() -> bool {
        true
    }

    open spec fn from_spec(value: &'a ApInt) -> i8 {
        value@[0] as i8
    }
}

impl From<ApInt> for i8 {
    /// The low bits of the least significant limb, as an `i8`.
    #[inline]
    fn from(value: ApInt) -> (r: i8)
        ensures
            r == value@[0] as i8,
    {
        <i8>::from(&value)
    }
}

impl FromSpecImpl<ApInt> for i8 {
    open spec fn obeys_from_spec() -> bool {
        true
    }

    open spec fn from_spec(value: ApInt) -> i8 {
        value@[0] as i8
    }
}

impl<'a> From<&'a ApInt> for i16 {
    /// The low bits of the least significant limb, as an `i16`.
    fn from(value: &'a ApInt) -> (r: i16)
        ensures
            r == value@[0] as i16,
    {
        #[verifier::truncate] (value.low_word() as i16)
    }
}

impl<'a> FromSpecImpl<&'a ApInt> for i16 {
    open spec fn obeys_from_spec() -> bool {
        true
    }

    open spec fn from_spec(value: &'a ApInt) -> i16 {
        value@[0] as i16
    }
}

impl From<ApInt> for i16 {
    /// The low bits of the least significant limb, as an `i16`.
    #[inline]
    fn from(value: ApInt) -> (r: i16)
        ensures
            r == value@[0] as i16,
    {
        <i16>::from(&value)
    }
}

impl FromSpecImpl<ApInt> for i16 {
    open spec fn obeys_from_spec() -> bool {
        true
    }

    open spec fn from_spec(value: ApInt) -> i16 {
        value@[0] as i16
    }
}

impl<'a> From<&'a ApInt> for i32 {
    /// The low bits of the least significant limb, as an `i32`.
    fn from(value: &'a ApInt) -> (r: i32)
        ensures
            r == value@[0] as i32,
    {
        #[verifier::truncate] (value.low_word() as i32)
    }
}

impl<'a> FromSpecImpl<&'a ApInt> for i32 {
    open spec fn obeys_from_spec() -> bool {
        true
    }

    open spec fn from_spec(value: &'a ApInt) -> i32 {
        value@[0] as i32
    }
}

impl From<ApInt> for i32 {
    /// The low bits of the least significant limb, as an `i32`.
    #[inline]
    fn from(value: ApInt) -> (r: i32)
        ensures
            r == value@[0] as i32,
    {
        <i32>::from(&value)
    }
}

impl FromSpecImpl<ApInt> for i32 {
    open spec fn obeys_from_spec() -> bool {
        true
    }

    open spec fn from_spec(value: ApInt) -> i32 {
        value@[0] as i32
    }
}

impl<'a> From<&'a ApInt> for i64 {
    /// The low bits of the least significant limb, as an `i64`.
    fn from(value: &'a ApInt) -> (r: i64)
        ensures
            r == value@[0] as i64,
    {
        #[verifier::truncate] (value.low_word() as i64)
    }
}

impl<'a> FromSpecImpl<&'a ApInt> for i64 {
    open spec fn obeys_from_spec() -> bool {
        true
    }

    open spec fn from_spec(value: &'a ApInt) -> i64 {
        value@[0] as i64
    }
}

impl From<ApInt> for i64 {
    /// The low bits of the least significant limb, as an `i64`.
    #[inline]
    fn from(value: ApInt) -> (r: i64)
        ensures
            r == value@[0] as i64,
    {
        <i64>::from(&value)
    }
}

impl FromSpecImpl<ApInt> for i64 {
    open spec fn obeys_from_spec() -> bool {
        true
    }

    open spec fn from_spec(value: ApInt) -> i64 {
        value@[0] as i64
    }
}

impl<'a> From<&'a ApInt> for isize {
    /// The low bits of the least significant limb, as an `isize`.
    fn from(value: &'a ApInt) -> (r: isize)
        ensures
            r == value@[0] as isize,
    {
        #[verifier::truncate] (value.low_word() as isize)
    }
}

impl<'a> FromSpecImpl<&'a ApInt> for isize {
    open spec fn obeys_from_spec() -> bool {
        true
    }

    open spec fn from_spec(value: &'a ApInt) -> isize {
        value@[0] as isize
    }
}

impl From<ApInt> for isize {
    /// The low bits of the least significant limb, as an `isize`.
    #[inline]
    fn from(value: ApInt) -> (r: isize)
        ensures
            r == value@[0] as isize,
    {
        <isize>::from(&value)
    }
}

impl FromSpecImpl<ApInt> for isize {
    open spec fn obeys_from_spec() -> bool {
        true
    }

    open spec fn from_spec(value: ApInt) -> isize {
        value@[0] as isize
    }
}

impl<'a> From<&'a ApInt> for u64 {
    /// The least significant limb.
    fn from(value: &'a ApInt) -> (r: u64)
        ensures
            r == value@[0],
    {
        value.low_word()
    }
}

impl<'a> FromSpecImpl<&'a ApInt> for u64 {
    open spec fn obeys_from_spec() -> bool {
        true
    }

    open spec fn from_spec(value: &'a ApInt) -> u64 {
        value@[0]
    }
}

impl From<ApInt> for u64 {
    /// The least significant limb.
    #[inline]
    fn from(value: ApInt) -> (r: u64)
        ensures
            r == value@[0],
    {
        <u64>::from(&value)
    }
}

impl FromSpecImpl<ApInt> for u64 {
    open spec fn obeys_from_spec() -> bool {
        true
    }

    open spec fn from_spec(value: ApInt) -> u64 {
        value@[0]
    }
}

impl<'a> From<&'a ApInt> for u128 {
    /// The two least significant limbs as one number; the one limb of an inline value.
    fn from(value: &'a ApInt) -> (r: u128)
        ensures
            r == low_u128(value@),
    {
        value.low_words(2)
    }
}

impl<'a> FromSpecImpl<&'a ApInt> for u128 {
    open spec fn obeys_from_spec() -> bool {
        true
    }

    open spec fn from_spec(value: &'a ApInt) -> u128 {
        low_u128(value@)
    }
}

impl From<ApInt> for u128 {
    /// The two least significant limbs as one number; the one limb of an inline value.
    #[inline]
    fn from(value: ApInt) -> (r: u128)
        ensures
            r == low_u128(value@),
    {
        <u128>::from(&value)
    }
}

impl FromSpecImpl<ApInt> for u128 {
    open spec fn obeys_from_spec() -> bool {
        true
    }

    open spec fn from_spec(value: ApInt) -> u128 {
        low_u128(value@)
    }
}

impl<'a> From<&'a ApInt> for i128 {
    /// The two least significant limbs as one number in two's complement; the one limb of an inline value, taken as unsigned.
    fn from(value: &'a ApInt) -> (r: i128)
        ensures
            r == low_u128(value@) as i128,
    {
        #[verifier::truncate] (value.low_words(2) as i128)
    }
}

impl<'a> FromSpecImpl<&'a ApInt> for i128 {
    open spec fn obeys_from_spec() -> bool {
        true
    }

    open spec fn from_spec(value: &'a ApInt) -> i128 {
        low_u128(value@) as i128
    }
}

impl From<ApInt> for i128 {
    /// The two least significant limbs as one number in two's complement; the one limb of an inline value, taken as unsigned.
    #[inline]
    fn from(value: ApInt) -> (r: i128)
        ensures
            r == low_u128(value@) as i128,
    {
        <i128>::from(&value)
    }
}

impl FromSpecImpl<ApInt> for i128 {
    open spec fn obeys_from_spec() -> bool {
        true
    }

    open spec fn from_spec(value: ApInt) -> i128 {
        low_u128(value@) as i128
    }
}

} // verus!

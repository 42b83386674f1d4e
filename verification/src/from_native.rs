//! Conversion from the native integers to `ApInt`.
//!
//! The limbs of a value of several limbs lie in the order of the machine.

use vstd::prelude::*;
use vstd::std_specs::convert::FromSpecImpl;
use crate::apint::ApInt;
use crate::bits::{words_signed, words_unsigned};
use crate::order::WordOrder;

verus! {

impl From<u8> for ApInt {
    /// Converts a `u8`: it is narrower than a limb, so it is held inline.
    fn from(val: u8) -> (r: ApInt)
        ensures
            r@ == words_unsigned(val as u128),
            r@ == seq![val as u64],
    {
        ApInt::from_small_unsigned(val as u32)
    }
}

impl FromSpecImpl<u8> for ApInt {
    open spec fn obeys_from_spec() -> bool {
        false
    }

    open spec fn from_spec(val: u8) -> ApInt {
        arbitrary()
    }
}

impl From<u16> for ApInt {
    /// Converts a `u16`: it is narrower than a limb, so it is held inline.
    fn from(val: u16) -> (r: ApInt)
        ensures
            r@ == words_unsigned(val as u128),
            r@ == seq![val as u64],
    {
        ApInt::from_small_unsigned(val as u32)
    }
}

impl FromSpecImpl<u16> for ApInt {
    open spec fn obeys_from_spec() -> bool {
        false
    }

    open spec fn from_spec(val: u16) -> ApInt {
        arbitrary()
    }
}

impl From<u32> for ApInt {
    /// Converts a `u32`: it is narrower than a limb, so it is held inline.
    fn from(val: u32) -> (r: ApInt)
        ensures
            r@ == words_unsigned(val as u128),
            r@ == seq![val as u64],
    {
        ApInt::from_small_unsigned(val)
    }
}

impl FromSpecImpl<u32> for ApInt {
    open spec fn obeys_from_spec() -> bool {
        false
    }

    open spec fn from_spec(val: u32) -> ApInt {
        arbitrary()
    }
}

impl From<u64> for ApInt {
    /// Converts a `u64`: inline where its top bit is clear, else in two
    /// limbs.
    fn from(val: u64) -> (r: ApInt)
        ensures
            r@ == words_unsigned(val as u128),
    {
        ApInt::from_word_in(val, WordOrder::native())
    }
}

impl FromSpecImpl<u64> for ApInt {
    open spec fn obeys_from_spec() -> bool {
        false
    }

    open spec fn from_spec(val: u64) -> ApInt {
        arbitrary()
    }
}

impl From<usize> for ApInt {
    /// Converts a `usize`: inline where its top bit is clear, else in two
    /// limbs.
    fn from(val: usize) -> (r: ApInt)
        ensures
            r@ == words_unsigned(val as u128),
    {
        ApInt::from_word_in(val as u64, WordOrder::native())
    }
}

impl FromSpecImpl<usize> for ApInt {
    open spec fn obeys_from_spec() -> bool {
        false
    }

    open spec fn from_spec(val: usize) -> ApInt {
        arbitrary()
    }
}

impl From<u128> for ApInt {
    /// Converts a `u128`: inline where it is below 2^63, else in two or three
    /// limbs.
    fn from(val: u128) -> (r: ApInt)
        ensures
            r@ == words_unsigned(val),
    {
        ApInt::from_unsigned_in(val, WordOrder::native())
    }
}

impl FromSpecImpl<u128> for ApInt {
    open spec fn obeys_from_spec() -> bool {
        false
    }

    open spec fn from_spec(val: u128) -> ApInt {
        arbitrary()
    }
}

impl From<i8> for ApInt {
    /// Converts an `i8` in two's complement: it is held inline, with its
    /// sign carried up to the top of the limb.
    fn from(val: i8) -> (r: ApInt)
        ensures
            r@ == words_signed(val as i128),
            r@ == seq![val as u64],
    {
        ApInt::from_small_signed(val as i64)
    }
}

impl FromSpecImpl<i8> for ApInt {
    open spec fn obeys_from_spec() -> bool {
        false
    }

    open spec fn from_spec(val: i8) -> ApInt {
        arbitrary()
    }
}

impl From<i16> for ApInt {
    /// Converts an `i16` in two's complement: it is held inline, with its
    /// sign carried up to the top of the limb.
    fn from(val: i16) -> (r: ApInt)
        ensures
            r@ == words_signed(val as i128),
            r@ == seq![val as u64],
    {
        ApInt::from_small_signed(val as i64)
    }
}

impl FromSpecImpl<i16> for ApInt {
    open spec fn obeys_from_spec() -> bool {
        false
    }

    open spec fn from_spec(val: i16) -> ApInt {
        arbitrary()
    }
}

impl From<i32> for ApInt {
    /// Converts an `i32` in two's complement: it is held inline, with its
    /// sign carried up to the top of the limb.
    fn from(val: i32) -> (r: ApInt)
        ensures
            r@ == words_signed(val as i128),
            r@ == seq![val as u64],
    {
        ApInt::from_small_signed(val as i64)
    }
}

impl FromSpecImpl<i32> for ApInt {
    open spec fn obeys_from_spec() -> bool {
        false
    }

    open spec fn from_spec(val: i32) -> ApInt {
        arbitrary()
    }
}

impl From<i64> for ApInt {
    /// Converts an `i64` in two's complement: it is held inline, with its
    /// sign carried up to the top of the limb.
    fn from(val: i64) -> (r: ApInt)
        ensures
            r@ == words_signed(val as i128),
            r@ == seq![val as u64],
    {
        ApInt::from_small_signed(val)
    }
}

impl FromSpecImpl<i64> for ApInt {
    open spec fn obeys_from_spec() -> bool {
        false
    }

    open spec fn from_spec(val: i64) -> ApInt {
        arbitrary()
    }
}

impl From<isize> for ApInt {
    /// Converts an `isize` in two's complement: it is held inline, with its
    /// sign carried up to the top of the limb.
    fn from(val: isize) -> (r: ApInt)
        ensures
            r@ == words_signed(val as i128),
            r@ == seq![val as u64],
    {
        ApInt::from_small_signed(val as i64)
    }
}

impl FromSpecImpl<isize> for ApInt {
    open spec fn obeys_from_spec() -> bool {
        false
    }

    open spec fn from_spec(val: isize) -> ApInt {
        arbitrary()
    }
}

impl From<i128> for ApInt {
    /// Converts an `i128` in two's complement: inline, as its low 64 bits,
    /// where the bits below its sign fit a limb, else in two limbs.
    fn from(val: i128) -> (r: ApInt)
        ensures
            r@ == words_signed(val),
    {
        ApInt::from_signed_in(val, WordOrder::native())
    }
}

impl FromSpecImpl<i128> for ApInt {
    open spec fn obeys_from_spec() -> bool {
        false
    }

    open spec fn from_spec(val: i128) -> ApInt {
        arbitrary()
    }
}

} // verus!

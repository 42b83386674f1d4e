//! The additive and the multiplicative identity of a type.

use vstd::prelude::*;

verus! {

/// Defines the additive identity for `Self`.
///
/// # Laws
///
/// ```text
/// n + 0 = n = 0 + n       for every n of Self
/// ```
pub trait Zero: Sized {
    /// The additive identity.
    const ZERO: Self;

    /// Returns `true` if `self` is equal to the additive identity.
    fn is_zero(&self) -> (r: bool);
}

/// Defines the multiplicative identity for `Self`.
pub trait One: Sized {
    /// The multiplicative identity.
    const ONE: Self;
}

impl Zero for u8 {
    const ZERO: u8 = 0;

    fn is_zero(&self) -> (r: bool)
        ensures
            r == (*self == 0),
    {
        *self == Self::ZERO
    }
}

impl One for u8 {
    const ONE: u8 = 1;
}

impl Zero for u16 {
    const ZERO: u16 = 0;

    fn is_zero(&self) -> (r: bool)
        ensures
            r == (*self == 0),
    {
        *self == Self::ZERO
    }
}

impl One for u16 {
    const ONE: u16 = 1;
}

impl Zero for u32 {
    const ZERO: u32 = 0;

    fn is_zero(&self) -> (r: bool)
        ensures
            r == (*self == 0),
    {
        *self == Self::ZERO
    }
}

impl One for u32 {
    const ONE: u32 = 1;
}

impl Zero for u64 {
    const ZERO: u64 = 0;

    fn is_zero(&self) -> (r: bool)
        ensures
            r == (*self == 0),
    {
        *self == Self::ZERO
    }
}

impl One for u64 {
    const ONE: u64 = 1;
}

impl Zero for u128 {
    const ZERO: u128 = 0;

    fn is_zero(&self) -> (r: bool)
        ensures
            r == (*self == 0),
    {
        *self == Self::ZERO
    }
}

impl One for u128 {
    const ONE: u128 = 1;
}

impl Zero for usize {
    const ZERO: usize = 0;

    fn is_zero(&self) -> (r: bool)
        ensures
            r == (*self == 0),
    {
        *self == Self::ZERO
    }
}

impl One for usize {
    const ONE: usize = 1;
}

impl Zero for i8 {
    const ZERO: i8 = 0;

    fn is_zero(&self) -> (r: bool)
        ensures
            r == (*self == 0),
    {
        *self == Self::ZERO
    }
}

impl One for i8 {
    const ONE: i8 = 1;
}

impl Zero for i16 {
    const ZERO: i16 = 0;

    fn is_zero(&self) -> (r: bool)
        ensures
            r == (*self == 0),
    {
        *self == Self::ZERO
    }
}

impl One for i16 {
    const ONE: i16 = 1;
}

impl Zero for i32 {
    const ZERO: i32 = 0;

    fn is_zero(&self) -> (r: bool)
        ensures
            r == (*self == 0),
    {
        *self == Self::ZERO
    }
}

impl One for i32 {
    const ONE: i32 = 1;
}

impl Zero for i64 {
    const ZERO: i64 = 0;

    fn is_zero(&self) -> (r: bool)
        ensures
            r == (*self == 0),
    {
        *self == Self::ZERO
    }
}

impl One for i64 {
    const ONE: i64 = 1;
}

impl Zero for i128 {
    const ZERO: i128 = 0;

    fn is_zero(&self) -> (r: bool)
        ensures
            r == (*self == 0),
    {
        *self == Self::ZERO
    }
}

impl One for i128 {
    const ONE: i128 = 1;
}

impl Zero for isize {
    const ZERO: isize = 0;

    fn is_zero(&self) -> (r: bool)
        ensures
            r == (*self == 0),
    {
        *self == Self::ZERO
    }
}

impl One for isize {
    const ONE: isize = 1;
}

/// The additive identity of each integer type is the number 0, which added
/// to a number on either side leaves it as it is, and the multiplicative
/// identity is the number 1, which leaves it as it is in a product.
pub proof fn lemma_identities(n: int)
    ensures
        n + <u8 as Zero>::ZERO == n,
        <u8 as Zero>::ZERO + n == n,
        n + <u64 as Zero>::ZERO == n,
        n + <i64 as Zero>::ZERO == n,
        n + <i128 as Zero>::ZERO == n,
        n * <u8 as One>::ONE == n,
        n * <u64 as One>::ONE == n,
        n * <i128 as One>::ONE == n,
{
}

} // verus!

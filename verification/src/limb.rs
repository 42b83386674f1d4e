//! The limb: one machine word of an arbitrary-precision integer.

use vstd::prelude::*;

verus! {

/// The integer type that backs a limb.
pub type LimbRepr = u64;

/// A limb is the part of an `ApInt` that fits within a single machine word.
#[derive(Clone, Copy, Debug, PartialEq, Eq, Structural, PartialOrd, Ord, Hash)]
pub struct Limb(pub LimbRepr);

impl Limb {
    /// The number of bits in a single `Limb`.
    pub const BITS: usize = 64;

    /// The number of bytes in a single `Limb`.
    pub const SIZE: usize = 8;

    /// A `Limb` with value `0`.
    pub fn zero() -> (r: Limb)
        ensures
            r.0 == 0,
    {
        Limb(0)
    }

    /// A `Limb` with value `1`.
    pub fn one() -> (r: Limb)
        ensures
            r.0 == 1,
    {
        Limb(1)
    }

    /// A `Limb` with all bits set to `1`.
    pub fn ones() -> (r: Limb)
        ensures
            r.0 == u64::MAX,
    {
        Limb(u64::MAX)
    }

    /// Returns the value of the internal representation.
    #[inline]
    pub fn repr(self) -> (r: LimbRepr)
        ensures
            r == self.0,
    {
        self.0
    }

    /// Calculates `self` + `other`.
    ///
    /// Returns the wrapped sum together with a flag that is set exactly when
    /// the mathematical sum does not fit a limb.
    #[inline]
    pub fn add_overflow(self, other: Limb) -> (r: (Limb, bool))
        ensures
            r.1 == (self.0 + other.0 > u64::MAX),
            r.1 ==> r.0.0 == self.0 + other.0 - 0x1_0000_0000_0000_0000,
            !r.1 ==> r.0.0 == self.0 + other.0,
    {
        let val: u64 = self.repr().wrapping_add(other.repr());
        (Limb(val), val < self.repr())
    }

    /// Calculates `self` - `other`.
    ///
    /// Returns the wrapped difference together with a flag that is set exactly
    /// when `self` is less than `other`.
    #[inline]
    pub fn sub_overflow(self, other: Limb) -> (r: (Limb, bool))
        ensures
            r.1 == (self.0 < other.0),
            r.1 ==> r.0.0 == self.0 - other.0 + 0x1_0000_0000_0000_0000,
            !r.1 ==> r.0.0 == self.0 - other.0,
    {
        let val: u64 = self.repr().wrapping_sub(other.repr());
        (Limb(val), self.repr() < other.repr())
    }

    /// Returns the number of leading zeros in the binary representation of the
    /// limb.
    #[inline]
    pub fn leading_zeros(self) -> (r: LimbRepr)
        ensures
            r == vstd::std_specs::bits::u64_leading_zeros(self.0),
            r <= 64,
            (r == 64) == (self.0 == 0),
    {
        proof {
            vstd::std_specs::bits::axiom_u64_leading_zeros(self.0);
        }
        let count: u32 = self.repr().leading_zeros();
        count as LimbRepr
    }

    /// Returns the number of trailing zeros in the binary representation of
    /// the limb.
    #[inline]
    pub fn trailing_zeros(self) -> (r: LimbRepr)
        ensures
            r == vstd::std_specs::bits::u64_trailing_zeros(self.0),
            r <= 64,
            (r == 64) == (self.0 == 0),
    {
        proof {
            vstd::std_specs::bits::axiom_u64_trailing_zeros(self.0);
        }
        let count: u32 = self.repr().trailing_zeros();
        count as LimbRepr
    }
}

} // verus!

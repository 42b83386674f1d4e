//! The number of bits of an integer of a fixed width.

use vstd::prelude::*;

verus! {

/// Represents the number of bits in an integer. It is never zero.
#[derive(Clone, Copy, Debug, PartialEq, Eq, Hash, PartialOrd, Ord)]
pub struct BitWidth(usize);

impl BitWidth {
    #[verifier::type_invariant]
    spec fn nonzero(self) -> bool {
        self.0 != 0
    }

    /// The number of bits.
    pub closed spec fn view(&self) -> nat {
        self.0 as nat
    }

    /// Represents a bit-width of value `1`.
    pub fn w1() -> (r: BitWidth)
        ensures
            r@ == 1,
    {
        BitWidth(1)
    }

    /// Represents a bit-width of value `8`.
    pub fn w8() -> (r: BitWidth)
        ensures
            r@ == 8,
    {
        BitWidth(8)
    }

    /// Represents a bit-width of value `16`.
    pub fn w16() -> (r: BitWidth)
        ensures
            r@ == 16,
    {
        BitWidth(16)
    }

    /// Represents a bit-width of value `32`.
    pub fn w32() -> (r: BitWidth)
        ensures
            r@ == 32,
    {
        BitWidth(32)
    }

    /// Represents a bit-width of value `64`.
    pub fn w64() -> (r: BitWidth)
        ensures
            r@ == 64,
    {
        BitWidth(64)
    }

    /// Represents a bit-width of value `128`.
    pub fn w128() -> (r: BitWidth)
        ensures
            r@ == 128,
    {
        BitWidth(128)
    }

    /// Returns the number of bits, which is not zero.
    pub fn get(self) -> (r: usize)
        ensures
            r == self@,
            r != 0,
    {
        proof {
            use_type_invariant(&self);
        }
        self.0
    }
}

} // verus!

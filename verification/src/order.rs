//! The order in which the limbs of a multi-limb value lie in its buffer.

use vstd::prelude::*;

verus! {

/// The order of the limbs in a buffer.
#[derive(Clone, Copy, Debug, PartialEq, Eq, Structural, Hash)]
pub enum WordOrder {
    /// The least significant limb has index 0.
    LeastFirst,
    /// The most significant limb has index 0.
    MostFirst,
}

/// The bytes of `value` in the byte order of the machine, by
/// `u16::to_ne_bytes`. Nothing is claimed of them: they differ between
/// machines.
#[verifier::external_body]
fn native_bytes(value: u16) -> (bytes: [u8; 2]) {
    value.to_ne_bytes()
}

impl WordOrder {
    /// The buffer index of the limb with significance `position` in a buffer
    /// of `len` limbs.
    pub open spec fn slot_of(self, len: int, position: int) -> int {
        match self {
            WordOrder::LeastFirst => position,
            WordOrder::MostFirst => len - 1 - position,
        }
    }

    /// The limbs of `stored`, a buffer in this order, from the least
    /// significant to the most significant.
    pub open spec fn by_significance(self, stored: Seq<u64>) -> Seq<u64> {
        Seq::new(stored.len(), |i: int| stored[self.slot_of(stored.len() as int, i)])
    }

    /// Decides the order from the bytes that the machine gives for the
    /// number 1: least significant first where the low byte comes first.
    pub fn from_native_bytes(bytes: [u8; 2]) -> (r: WordOrder)
        ensures
            r == (if bytes[0] == 1 { WordOrder::LeastFirst } else { WordOrder::MostFirst }),
    {
        if bytes[0] == 1 {
            WordOrder::LeastFirst
        } else {
            WordOrder::MostFirst
        }
    }

    /// The order that matches the byte order of the machine. Which of the two
    /// it is depends on the machine, so nothing is stated of the result.
    pub fn native() -> (r: WordOrder) {
        WordOrder::from_native_bytes(native_bytes(1))
    }

    /// The buffer index of the limb with significance `position` in a buffer
    /// of `len` limbs.
    pub fn slot(self, len: usize, position: usize) -> (r: usize)
        requires
            position < len,
        ensures
            r == self.slot_of(len as int, position as int),
            r < len,
    {
        match self {
            WordOrder::LeastFirst => position,
            WordOrder::MostFirst => len - 1 - position,
        }
    }
}

} // verus!

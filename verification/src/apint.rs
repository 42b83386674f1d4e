//! The storage of an arbitrary-precision integer.

use vstd::prelude::*;
use crate::limb::Limb;
use crate::mem::{alloc_limbs, fits_alloc};
use crate::order::WordOrder;

verus! {

/// A single inline limb, or the buffer of a value of several limbs.
pub enum ApIntData {
    /// Inline storage for a value that fits a single limb.
    Value(Limb),
    /// The buffer of a value that takes more than one limb.
    Heap(Vec<Limb>),
}

/// A read-only look at the storage of an `ApInt`.
pub enum ApIntStorage<'a> {
    /// The value is the one limb, held inline.
    Stack(Limb),
    /// The value lies in a buffer of more than one limb.
    Heap(&'a Vec<Limb>),
}

/// An arbitrary-precision integer.
pub struct ApInt {
    /// The number of limbs used to store data.
    len: usize,
    /// The order of the limbs in the buffer.
    order: WordOrder,
    /// The data holding the bits of the integer.
    data: ApIntData,
}

impl ApIntData {
    /// The limbs held, by index.
    pub open spec fn words(self) -> Seq<u64> {
        match self {
            ApIntData::Value(limb) => seq![limb.0],
            ApIntData::Heap(buf) => Seq::new(buf@.len(), |i: int| buf@[i].0),
        }
    }

    /// Overwrites the limb at `index`.
    fn put(&mut self, index: usize, limb: Limb)
        requires
            index < old(self).words().len(),
        ensures
            final(self).words() == old(self).words().update(index as int, limb.0),
            (*final(self) is Value) == (*old(self) is Value),
            final(self).words().len() == old(self).words().len(),
    {
        match self {
            ApIntData::Value(held) => {
                *held = limb;
            },
            ApIntData::Heap(buf) => {
                buf.set(index, limb);
            },
        }
        assert(final(self).words() =~= old(self).words().update(index as int, limb.0));
    }
}

impl<'a> ApIntStorage<'a> {
    /// The limbs seen, by index.
    pub open spec fn words(self) -> Seq<u64> {
        match self {
            ApIntStorage::Stack(limb) => seq![limb.0],
            ApIntStorage::Heap(buf) => Seq::new(buf@.len(), |i: int| buf@[i].0),
        }
    }
}

impl ApInt {
    #[verifier::type_invariant]
    spec fn well_formed(self) -> bool {
        &&& self.len >= 1
        &&& self.data.words().len() == self.len
        &&& (self.data is Value) == (self.len == 1)
    }

    /// The limbs as they lie in storage, by index.
    pub closed spec fn stored(&self) -> Seq<u64> {
        self.data.words()
    }

    /// The order in which the limbs lie in storage.
    pub closed spec fn order(&self) -> WordOrder {
        self.order
    }

    /// Whether the value is held inline, without a buffer.
    pub closed spec fn is_inline(&self) -> bool {
        self.data is Value
    }

    /// The limbs from the least significant to the most significant.
    pub open spec fn view(&self) -> Seq<u64> {
        self.order().by_significance(self.stored())
    }

    /// An `ApInt` with value `0`.
    pub fn zero() -> (r: ApInt)
        ensures
            r@ == seq![0u64],
            r.stored() == seq![0u64],
            r.is_inline(),
    {
        ApInt::from_limb(Limb::zero())
    }

    /// An `ApInt` with value `1`.
    pub fn one() -> (r: ApInt)
        ensures
            r@ == seq![1u64],
            r.stored() == seq![1u64],
            r.is_inline(),
    {
        ApInt::from_limb(Limb::one())
    }

    /// Creates an `ApInt` with a single limb, held inline.
    pub fn from_limb(value: Limb) -> (r: ApInt)
        ensures
            r@ == seq![value.0],
            r.stored() == seq![value.0],
            r.is_inline(),
    {
        let r = ApInt { len: 1, order: WordOrder::LeastFirst, data: ApIntData::Value(value) };
        assert(r@ =~= seq![value.0]);
        r
    }

    /// Creates an `ApInt` with a buffer of `capacity` limbs in the given
    /// order. Every limb is zero.
    pub fn with_capacity(capacity: usize, order: WordOrder) -> (r: ApInt)
        requires
            capacity > 1,
            fits_alloc(capacity as int),
        ensures
            r.stored().len() == capacity,
            forall|i: int| 0 <= i < capacity ==> #[trigger] r.stored()[i] == 0,
            r.order() == order,
            !r.is_inline(),
    {
        let buf = alloc_limbs(capacity);
        ApInt { len: capacity, order, data: ApIntData::Heap(buf) }
    }

    /// Returns the number of limbs used to represent the integer. It is never
    /// zero, and it is one exactly where the value is held inline.
    #[inline]
    pub fn len(&self) -> (r: usize)
        ensures
            r == self@.len(),
            r == self.stored().len(),
            r >= 1,
            (r == 1) == self.is_inline(),
    {
        proof {
            use_type_invariant(self);
        }
        self.len
    }

    /// Returns the order in which the limbs lie in storage.
    pub fn word_order(&self) -> (r: WordOrder)
        ensures
            r == self.order(),
    {
        self.order
    }

    /// Returns a storage accessor for the limb data: the inline limb where
    /// there is one limb, the buffer where there are more.
    pub fn storage(&self) -> (r: ApIntStorage<'_>)
        ensures
            r.words() == self.stored(),
            (r is Stack) == self.is_inline(),
            (r is Stack) == (self@.len() == 1),
    {
        proof {
            use_type_invariant(self);
        }
        match &self.data {
            ApIntData::Value(limb) => ApIntStorage::Stack(*limb),
            ApIntData::Heap(buf) => ApIntStorage::Heap(buf),
        }
    }

    /// Returns the limb at the given index of the storage.
    pub fn limb(&self, index: usize) -> (r: Limb)
        requires
            index < self.stored().len(),
        ensures
            r.0 == self.stored()[index as int],
    {
        proof {
            use_type_invariant(self);
        }
        match &self.data {
            ApIntData::Value(limb) => *limb,
            ApIntData::Heap(buf) => buf[index],
        }
    }

    /// Returns the limb with the given significance: position 0 is the least
    /// significant limb.
    pub fn word(&self, position: usize) -> (r: Limb)
        requires
            position < self@.len(),
        ensures
            r.0 == self@[position as int],
    {
        let index = self.order.slot(self.len(), position);
        self.limb(index)
    }

    /// Overwrites the limb at the given index of the storage. The number of
    /// limbs and their order stay as they are.
    pub fn set_limb(&mut self, index: usize, limb: Limb)
        requires
            index < old(self).stored().len(),
        ensures
            final(self).stored() == old(self).stored().update(index as int, limb.0),
            final(self).order() == old(self).order(),
            final(self).is_inline() == old(self).is_inline(),
    {
        proof {
            use_type_invariant(&*self);
        }
        let mut taken = ApInt::from_limb(Limb::zero());
        core::mem::swap(self, &mut taken);
        let ApInt { len, order, data } = taken;
        let mut data = data;
        data.put(index, limb);
        *self = ApInt { len, order, data };
    }
}

} // verus!

//! Buffers of limbs for values that do not fit a single limb.

use vstd::prelude::*;
use crate::limb::Limb;

verus! {

/// The greatest number of bytes that a single buffer may take.
pub open spec fn max_alloc_size() -> int {
    isize::MAX as int
}

/// Whether a buffer of `capacity` limbs stays within the greatest size.
pub open spec fn fits_alloc(capacity: int) -> bool {
    capacity * 8 <= max_alloc_size()
}

/// Tells whether a buffer of `alloc_size` bytes may be asked for: one of more
/// than `isize::MAX` bytes may not.
#[inline]
pub fn alloc_guard(alloc_size: usize) -> (ok: bool)
    ensures
        ok == (alloc_size <= max_alloc_size()),
{
    alloc_size <= isize::MAX as usize
}

/// The size in bytes of a buffer of `capacity` limbs, where that size can be
/// asked for.
pub fn buffer_size(capacity: usize) -> (size: Option<usize>)
    ensures
        size == (if fits_alloc(capacity as int) {
            Some((capacity * 8) as usize)
        } else {
            None::<usize>
        }),
{
    match capacity.checked_mul(Limb::SIZE) {
        Some(bytes) => if alloc_guard(bytes) {
            Some(bytes)
        } else {
            None
        },
        None => None,
    }
}

/// Allocates a buffer of `capacity` limbs, each of them zero.
pub fn alloc_limbs(capacity: usize) -> (buf: Vec<Limb>)
    requires
        capacity > 1,
        fits_alloc(capacity as int),
    ensures
        buf@.len() == capacity,
        forall|i: int| 0 <= i < capacity ==> (#[trigger] buf@[i]).0 == 0,
{
    let mut buf: Vec<Limb> = Vec::with_capacity(capacity);
    let mut filled: usize = 0;
    while filled < capacity
        invariant
            filled <= capacity,
            buf@.len() == filled,
            forall|i: int| 0 <= i < filled ==> (#[trigger] buf@[i]).0 == 0,
        decreases capacity - filled,
    {
        buf.push(Limb::zero());
        filled = filled + 1;
    }
    buf
}

/// Releases a buffer of `size` limbs.
pub fn dealloc_limbs(buf: Vec<Limb>, size: usize)
    requires
        buf@.len() == size,
        size > 1,
{
    let _released = buf;
}

} // verus!

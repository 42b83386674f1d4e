//! Storage and value conversion for an arbitrary-precision integer.
//!
//! An [`ApInt`] is a sequence of 64-bit limbs. A value that fits one limb is
//! held inline; a longer one owns a buffer of exactly as many limbs as it has.

pub mod apint;
pub mod bits;
pub mod bitwidth;
pub mod convert;
pub mod from_native;
pub mod laws;
pub mod limb;
pub mod mem;
pub mod order;
pub mod to_native;
pub mod traits;

pub use crate::apint::ApInt;
pub use crate::apint::ApIntStorage;
pub use crate::bitwidth::BitWidth;
pub use crate::limb::Limb;
pub use crate::limb::LimbRepr;
pub use crate::order::WordOrder;
pub use crate::traits::One;
pub use crate::traits::Zero;

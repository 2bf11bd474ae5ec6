//! Making accessors: every copyable value gives one of each kind.

use crate::reader::BitManipulatorImpl;
use crate::writer::BitManipulatorImplMut;
use vstd::prelude::*;

verus! {

/// A value that hands out accessors to its bits.
///
/// An accessor is made where it is used and dropped right after:
/// `x.bits().get(4..8)` reads, `x.bits_mut().set(4..8, 3)` writes `x`.
pub trait BitManipulator<T> {
    /// A read-only accessor on a copy of the value.
    fn bits(&self) -> BitManipulatorImpl<T>;

    /// A mutable accessor on the value itself.
    fn bits_mut(&mut self) -> BitManipulatorImplMut<'_, T>;
}

impl<T> BitManipulator<T> for T where T: Sized + Copy {
    fn bits(&self) -> (accessor: BitManipulatorImpl<T>)
        ensures
            accessor@ == *self,
    {
        BitManipulatorImpl { value: *self }
    }

    fn bits_mut(&mut self) -> (accessor: BitManipulatorImplMut<'_, T>)
        ensures
            accessor@ == *old(self),
            *final(self) == *final(accessor.value),
    {
        BitManipulatorImplMut { value: self }
    }
}

} // verus!

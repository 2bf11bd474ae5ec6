//! The error of the accessors.

use vstd::prelude::*;

verus! {

/// Why an accessor refused an operation.
#[derive(Debug, Clone, Copy, PartialEq, Eq, Structural)]
pub enum BitError {
    /// A bit index, a bit count or an end of a range lies beyond the width
    /// of the integer, or a range ends before it starts.
    BitIndexOutOfRange,
}

} // verus!

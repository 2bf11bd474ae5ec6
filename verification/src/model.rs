//! What the operations of the accessors mean.
//!
//! Each function here takes the integer that an accessor stands for and
//! gives the result of one operation on it, by way of the integer's pattern.
//! The contracts of the accessors are stated with these functions.

use crate::integer::BitInt;
use crate::word::{
    agrees, bit_at, field, high_bits, low_bits, with_bit, with_bit_toggled, with_field,
    without_bit,
};
use std::ops::Range;
use vstd::prelude::*;

verus! {

/// Whether `index` names a bit of a `T`.
pub open spec fn valid_index<T: BitInt>(index: usize) -> bool {
    index < T::width()
}

/// Whether a `T` has `size` bits or more.
pub open spec fn valid_count<T: BitInt>(size: usize) -> bool {
    size <= T::width()
}

/// Whether `range` is a range of bits of a `T`: it does not end before it
/// starts, and it ends within the width. An empty range is a range.
pub open spec fn valid_range<T: BitInt>(range: Range<usize>) -> bool {
    range.start <= range.end && range.end <= T::width()
}

/// The number of bits in `range`.
pub open spec fn range_size(range: Range<usize>) -> nat {
    (range.end - range.start) as nat
}

/// Bit `index` of `value`.
pub open spec fn bit_of<T: BitInt>(value: T, index: usize) -> bool {
    bit_at(value.pattern(), index as nat)
}

/// The `size` lowest bits of `value`, in place, with zeros above.
pub open spec fn first_of<T: BitInt>(value: T, size: usize) -> T {
    T::from_pattern(low_bits(value.pattern(), size as nat))
}

/// The `size` highest bits of `value`, moved down to bit 0, with zeros above.
pub open spec fn last_of<T: BitInt>(value: T, size: usize) -> T {
    T::from_pattern(high_bits(value.pattern(), T::width(), size as nat))
}

/// The bits of `value` in `range`, moved down to bit 0, with zeros above.
pub open spec fn range_of<T: BitInt>(value: T, range: Range<usize>) -> T {
    T::from_pattern(field(value.pattern(), range.start as nat, range.end as nat))
}

/// Whether `bits` equals `match_bits` in every position where
/// `wildcard_bits` is clear.
pub open spec fn matches_with_wildcard<T: BitInt>(
    bits: T,
    match_bits: T,
    wildcard_bits: T,
) -> bool {
    agrees(bits.pattern(), match_bits.pattern(), wildcard_bits.pattern())
}

/// `value` with bit `index` cleared and then `bit`, shifted up by `index`,
/// or-ed in. What `bit` holds above its bit 0 lands above `index`.
pub open spec fn with_bit_of<T: BitInt>(value: T, index: usize, bit: T) -> T {
    T::from_pattern(with_bit(value.pattern(), index as nat, bit.pattern()))
}

/// `value` with bit `index` cleared.
pub open spec fn without_bit_of<T: BitInt>(value: T, index: usize) -> T {
    T::from_pattern(without_bit(value.pattern(), index as nat))
}

/// `value` with bit `index` inverted.
pub open spec fn with_bit_toggled_of<T: BitInt>(value: T, index: usize) -> T {
    T::from_pattern(with_bit_toggled(value.pattern(), index as nat))
}

/// `value` with the bits in `range` replaced by the lowest bits of `x`, as
/// many as the range holds. The bits outside the range stay, and the bits of
/// `x` that the range has no room for are dropped.
pub open spec fn with_range_of<T: BitInt>(value: T, range: Range<usize>, x: T) -> T {
    T::from_pattern(with_field(value.pattern(), range.start as nat, range.end as nat, x.pattern()))
}

/// `a + b`, wrapped around at the width of `T`.
pub open spec fn sum_of<T: BitInt>(a: T, b: T) -> T {
    T::from_pattern(a.pattern().wrapping_add(b.pattern()))
}

/// `a - b`, wrapped around at the width of `T`.
pub open spec fn difference_of<T: BitInt>(a: T, b: T) -> T {
    T::from_pattern(a.pattern().wrapping_sub(b.pattern()))
}

/// `a * b`, wrapped around at the width of `T`.
pub open spec fn product_of<T: BitInt>(a: T, b: T) -> T {
    T::from_pattern(a.pattern().wrapping_mul(b.pattern()))
}

/// The bits set in both `a` and `b`.
pub open spec fn and_of<T: BitInt>(a: T, b: T) -> T {
    T::from_pattern(a.pattern() & b.pattern())
}

/// The bits set in `a` or in `b`.
pub open spec fn or_of<T: BitInt>(a: T, b: T) -> T {
    T::from_pattern(a.pattern() | b.pattern())
}

/// The bits set in exactly one of `a` and `b`.
pub open spec fn xor_of<T: BitInt>(a: T, b: T) -> T {
    T::from_pattern(a.pattern() ^ b.pattern())
}

/// Every bit of `a` inverted.
pub open spec fn complement_of<T: BitInt>(a: T) -> T {
    T::from_pattern(!a.pattern())
}

/// `a` moved up by as many bits as the pattern of `amount` says, read as an
/// unsigned number; zero where that is `size` bits or more.
pub open spec fn shifted_left_of<T: BitInt>(a: T, amount: T, size: nat) -> T {
    if amount.pattern() < size {
        T::from_pattern(a.pattern() << amount.pattern())
    } else {
        T::from_pattern(0)
    }
}

/// `a` moved down by as many bits as the pattern of `amount` says, read as an
/// unsigned number, with zeros entering at the top; zero where that is `size`
/// bits or more.
pub open spec fn shifted_right_of<T: BitInt>(a: T, amount: T, size: nat) -> T {
    if amount.pattern() < size {
        T::from_pattern(a.pattern() >> amount.pattern())
    } else {
        T::from_pattern(0)
    }
}

} // verus!

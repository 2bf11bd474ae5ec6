//! Reading bits: the read-only accessor and the two traits of reads.

use crate::error::BitError;
use crate::integer::{lemma_pattern_fits, width_of, BitInt};
use crate::model::{
    bit_of, first_of, last_of, matches_with_wildcard, range_of, valid_count, valid_index,
    valid_range,
};
use crate::word::{agree, extract, take_high, take_low};
use std::ops::Range;
use vstd::prelude::*;

verus! {

/// A read-only accessor: it holds a copy of an integer and reads its bits.
pub struct BitManipulatorImpl<T> {
    pub value: T,
}

impl<T> View for BitManipulatorImpl<T> {
    type V = T;

    /// The integer that the accessor reads.
    open spec fn view(&self) -> T {
        self.value
    }
}

/// Reading one bit.
pub trait BitGetIndex<T: BitInt>: View<V = T> {
    /// Whether bit `index` is set. Bit 0 is the least significant bit.
    fn get_bit(&self, index: usize) -> (r: Result<bool, BitError>)
        ensures
            valid_index::<T>(index) ==> r == Ok::<bool, BitError>(bit_of(self@, index)),
            !valid_index::<T>(index) ==> r == Err::<bool, BitError>(BitError::BitIndexOutOfRange),
    ;
}

/// Reading a run of bits.
pub trait BitGetRange<T: BitInt>: View<V = T> {
    /// The `size` least significant bits, where they are, with every higher
    /// bit zero.
    fn first(&self, size: usize) -> (r: Result<T, BitError>)
        ensures
            valid_count::<T>(size) ==> r == Ok::<T, BitError>(first_of(self@, size)),
            !valid_count::<T>(size) ==> r == Err::<T, BitError>(BitError::BitIndexOutOfRange),
    ;

    /// The `size` most significant bits, moved down so that they start at
    /// bit 0, with every higher bit zero.
    fn last(&self, size: usize) -> (r: Result<T, BitError>)
        ensures
            valid_count::<T>(size) ==> r == Ok::<T, BitError>(last_of(self@, size)),
            !valid_count::<T>(size) ==> r == Err::<T, BitError>(BitError::BitIndexOutOfRange),
    ;

    /// The bits in `range`, moved down so that bit `range.start` becomes
    /// bit 0, with every higher bit zero.
    fn get(&self, range: Range<usize>) -> (r: Result<T, BitError>)
        ensures
            valid_range::<T>(range) ==> r == Ok::<T, BitError>(range_of(self@, range)),
            !valid_range::<T>(range) ==> r == Err::<T, BitError>(BitError::BitIndexOutOfRange),
    ;

    /// Whether the bits in `range` equal `match_bits` in every position
    /// where `wildcard_bits` is clear. A set bit of `wildcard_bits` marks a
    /// position that is not compared.
    fn compare(&self, range: Range<usize>, match_bits: T, wildcard_bits: T) -> (r: Result<
        bool,
        BitError,
    >)
        ensures
            valid_range::<T>(range) ==> r == Ok::<bool, BitError>(
                matches_with_wildcard(range_of(self@, range), match_bits, wildcard_bits),
            ),
            !valid_range::<T>(range) ==> r == Err::<bool, BitError>(BitError::BitIndexOutOfRange),
    ;
}

/// Reads bit `index` of `value`.
pub(crate) fn read_bit<T: BitInt>(value: T, index: usize) -> (r: Result<bool, BitError>)
    ensures
        valid_index::<T>(index) ==> r == Ok::<bool, BitError>(bit_of(value, index)),
        !valid_index::<T>(index) ==> r == Err::<bool, BitError>(BitError::BitIndexOutOfRange),
{
    if index >= width_of::<T>() {
        return Err(BitError::BitIndexOutOfRange);
    }
    Ok((value.to_bits() >> index) & 1 == 1)
}

/// Reads the `size` lowest bits of `value`.
pub(crate) fn read_first<T: BitInt>(value: T, size: usize) -> (r: Result<T, BitError>)
    ensures
        valid_count::<T>(size) ==> r == Ok::<T, BitError>(first_of(value, size)),
        !valid_count::<T>(size) ==> r == Err::<T, BitError>(BitError::BitIndexOutOfRange),
{
    if size > width_of::<T>() {
        return Err(BitError::BitIndexOutOfRange);
    }
    Ok(T::from_bits(take_low(value.to_bits(), size)))
}

/// Reads the `size` highest bits of `value`.
pub(crate) fn read_last<T: BitInt>(value: T, size: usize) -> (r: Result<T, BitError>)
    ensures
        valid_count::<T>(size) ==> r == Ok::<T, BitError>(last_of(value, size)),
        !valid_count::<T>(size) ==> r == Err::<T, BitError>(BitError::BitIndexOutOfRange),
{
    let width = width_of::<T>();
    if size > width {
        return Err(BitError::BitIndexOutOfRange);
    }
    proof {
        lemma_pattern_fits(value);
    }
    Ok(T::from_bits(take_high(value.to_bits(), width, size)))
}

/// Reads the bits of `value` in `range`.
pub(crate) fn read_range<T: BitInt>(value: T, range: &Range<usize>) -> (r: Result<T, BitError>)
    ensures
        valid_range::<T>(*range) ==> r == Ok::<T, BitError>(range_of(value, *range)),
        !valid_range::<T>(*range) ==> r == Err::<T, BitError>(BitError::BitIndexOutOfRange),
{
    if range.start > range.end || range.end > width_of::<T>() {
        return Err(BitError::BitIndexOutOfRange);
    }
    Ok(T::from_bits(extract(value.to_bits(), range.start, range.end)))
}

/// Compares the bits of `value` in `range` with `match_bits`, but for the
/// positions set in `wildcard_bits`.
pub(crate) fn compare_range<T: BitInt>(
    value: T,
    range: &Range<usize>,
    match_bits: T,
    wildcard_bits: T,
) -> (r: Result<bool, BitError>)
    ensures
        valid_range::<T>(*range) ==> r == Ok::<bool, BitError>(
            matches_with_wildcard(range_of(value, *range), match_bits, wildcard_bits),
        ),
        !valid_range::<T>(*range) ==> r == Err::<bool, BitError>(BitError::BitIndexOutOfRange),
{
    match read_range(value, range) {
        Ok(bits) => Ok(agree(bits.to_bits(), match_bits.to_bits(), wildcard_bits.to_bits())),
        Err(e) => Err(e),
    }
}

impl<T: BitInt> BitGetIndex<T> for BitManipulatorImpl<T> {
    fn get_bit(&self, index: usize) -> (r: Result<bool, BitError>) {
        read_bit(self.value, index)
    }
}

impl<T: BitInt> BitGetRange<T> for BitManipulatorImpl<T> {
    fn first(&self, size: usize) -> (r: Result<T, BitError>) {
        read_first(self.value, size)
    }

    fn last(&self, size: usize) -> (r: Result<T, BitError>) {
        read_last(self.value, size)
    }

    fn get(&self, range: Range<usize>) -> (r: Result<T, BitError>) {
        read_range(self.value, &range)
    }

    fn compare(&self, range: Range<usize>, match_bits: T, wildcard_bits: T) -> (r: Result<
        bool,
        BitError,
    >) {
        compare_range(self.value, &range, match_bits, wildcard_bits)
    }
}

} // verus!

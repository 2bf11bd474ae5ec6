//! Writing bits: the mutable accessor and the two traits of writes.

use crate::error::BitError;
use crate::integer::{lemma_pattern_fits, width_of, BitInt};
use crate::model::{
    and_of, complement_of, difference_of, or_of, product_of, range_of, range_size,
    shifted_left_of, shifted_right_of, sum_of, valid_index, valid_range, with_bit_of,
    with_bit_toggled_of, with_range_of, without_bit_of, xor_of,
};
use crate::reader::{
    compare_range, read_bit, read_first, read_last, read_range, BitGetIndex, BitGetRange,
};
use crate::word::splice;
use std::ops::Range;
use vstd::prelude::*;

verus! {

/// A mutable accessor: it holds the one reference to an integer, reads its
/// bits and writes them. Every write goes to the integer at once.
///
/// Besides what the traits promise, each write of this accessor ensures
/// `*final(final(self).value) == *final(old(self).value)`: the accessor stays
/// on the same integer, so what the integer holds once the accessor is
/// dropped is what the accessor read last.
pub struct BitManipulatorImplMut<'a, T> {
    pub value: &'a mut T,
}

impl<'a, T> View for BitManipulatorImplMut<'a, T> {
    type V = T;

    /// The integer behind the reference, as it now is.
    open spec fn view(&self) -> T {
        *self.value
    }
}

/// Writing one bit.
pub trait BitSetIndex<T: BitInt>: View<V = T> {
    /// Clears bit `index`, then or-s in `value` shifted up by `index`: with
    /// `value` 1 the bit is set, with 0 it is cleared. A `value` with other
    /// bits set also sets the bits above `index` that these land on.
    fn set_bit(&mut self, index: usize, value: T) -> (r: Result<(), BitError>)
        ensures
            valid_index::<T>(index) ==> r is Ok && final(self)@ == with_bit_of(
                old(self)@,
                index,
                value,
            ),
            !valid_index::<T>(index) ==> r == Err::<(), BitError>(BitError::BitIndexOutOfRange)
                && final(self)@ == old(self)@,
    ;

    /// Clears bit `index`.
    fn clear_bit(&mut self, index: usize) -> (r: Result<(), BitError>)
        ensures
            valid_index::<T>(index) ==> r is Ok && final(self)@ == without_bit_of(
                old(self)@,
                index,
            ),
            !valid_index::<T>(index) ==> r == Err::<(), BitError>(BitError::BitIndexOutOfRange)
                && final(self)@ == old(self)@,
    ;

    /// Inverts bit `index`.
    fn toggle_bit(&mut self, index: usize) -> (r: Result<(), BitError>)
        ensures
            valid_index::<T>(index) ==> r is Ok && final(self)@ == with_bit_toggled_of(
                old(self)@,
                index,
            ),
            !valid_index::<T>(index) ==> r == Err::<(), BitError>(BitError::BitIndexOutOfRange)
                && final(self)@ == old(self)@,
    ;
}

/// Writing a run of bits, and changing one by an operator.
///
/// Each operator reads the bits in `range` as a number of their own, applies
/// itself to that number and `value`, keeps as many low bits of the result
/// as the range holds, and writes them back. The bits outside the range
/// stay. Where `range` is no range of the integer, nothing is written.
pub trait BitSetRange<T: BitInt>: View<V = T> {
    /// Replaces the bits in `range` by the lowest bits of `value`, as many as
    /// the range holds; what `value` holds above them is dropped. An empty
    /// range changes nothing; a range over the whole width replaces the
    /// integer by `value`.
    fn set(&mut self, range: Range<usize>, value: T) -> (r: Result<(), BitError>)
        ensures
            valid_range::<T>(range) ==> r is Ok && final(self)@ == with_range_of(
                old(self)@,
                range,
                value,
            ),
            !valid_range::<T>(range) ==> r == Err::<(), BitError>(BitError::BitIndexOutOfRange)
                && final(self)@ == old(self)@,
    ;

    /// Replaces the bits in `range` by what `f` makes of them and `value`:
    /// `f` gets the bits of the range, moved down to bit 0, and `value`; the
    /// lowest bits of what it returns are written back. Where `range` is no
    /// range of the integer, `f` is not called.
    fn transform<F: Fn(T, T) -> T>(&mut self, range: Range<usize>, value: T, f: F) -> (r: Result<
        (),
        BitError,
    >)
        requires
            valid_range::<T>(range) ==> call_requires(f, (range_of(old(self)@, range), value)),
        ensures
            valid_range::<T>(range) ==> r is Ok && exists|out: T|
                call_ensures(f, (range_of(old(self)@, range), value), out) && final(self)@
                    == with_range_of(old(self)@, range, out),
            !valid_range::<T>(range) ==> r == Err::<(), BitError>(BitError::BitIndexOutOfRange)
                && final(self)@ == old(self)@,
    ;

    /// Adds `value` to the bits in `range`.
    fn add(&mut self, range: Range<usize>, value: T) -> (r: Result<(), BitError>)
        ensures
            valid_range::<T>(range) ==> r is Ok && final(self)@ == with_range_of(
                old(self)@,
                range,
                sum_of(range_of(old(self)@, range), value),
            ),
            !valid_range::<T>(range) ==> r == Err::<(), BitError>(BitError::BitIndexOutOfRange)
                && final(self)@ == old(self)@,
    ;

    /// Subtracts `value` from the bits in `range`.
    fn sub(&mut self, range: Range<usize>, value: T) -> (r: Result<(), BitError>)
        ensures
            valid_range::<T>(range) ==> r is Ok && final(self)@ == with_range_of(
                old(self)@,
                range,
                difference_of(range_of(old(self)@, range), value),
            ),
            !valid_range::<T>(range) ==> r == Err::<(), BitError>(BitError::BitIndexOutOfRange)
                && final(self)@ == old(self)@,
    ;

    /// Multiplies the bits in `range` by `value`.
    fn mul(&mut self, range: Range<usize>, value: T) -> (r: Result<(), BitError>)
        ensures
            valid_range::<T>(range) ==> r is Ok && final(self)@ == with_range_of(
                old(self)@,
                range,
                product_of(range_of(old(self)@, range), value),
            ),
            !valid_range::<T>(range) ==> r == Err::<(), BitError>(BitError::BitIndexOutOfRange)
                && final(self)@ == old(self)@,
    ;

    /// Divides the bits in `range` by `value`, which is not zero. The
    /// division is that of the type: of signed numbers for a signed integer.
    fn div(&mut self, range: Range<usize>, value: T) -> (r: Result<(), BitError>)
        requires
            value.pattern() != 0,
        ensures
            valid_range::<T>(range) ==> r is Ok && final(self)@ == with_range_of(
                old(self)@,
                range,
                range_of(old(self)@, range).quotient(value),
            ),
            !valid_range::<T>(range) ==> r == Err::<(), BitError>(BitError::BitIndexOutOfRange)
                && final(self)@ == old(self)@,
    ;

    /// Keeps of the bits in `range` those that are set in `value` too.
    fn and(&mut self, range: Range<usize>, value: T) -> (r: Result<(), BitError>)
        ensures
            valid_range::<T>(range) ==> r is Ok && final(self)@ == with_range_of(
                old(self)@,
                range,
                and_of(range_of(old(self)@, range), value),
            ),
            !valid_range::<T>(range) ==> r == Err::<(), BitError>(BitError::BitIndexOutOfRange)
                && final(self)@ == old(self)@,
    ;

    /// Sets among the bits in `range` those that are set in `value`.
    fn or(&mut self, range: Range<usize>, value: T) -> (r: Result<(), BitError>)
        ensures
            valid_range::<T>(range) ==> r is Ok && final(self)@ == with_range_of(
                old(self)@,
                range,
                or_of(range_of(old(self)@, range), value),
            ),
            !valid_range::<T>(range) ==> r == Err::<(), BitError>(BitError::BitIndexOutOfRange)
                && final(self)@ == old(self)@,
    ;

    /// Inverts the bits in `range`.
    fn not(&mut self, range: Range<usize>) -> (r: Result<(), BitError>)
        ensures
            valid_range::<T>(range) ==> r is Ok && final(self)@ == with_range_of(
                old(self)@,
                range,
                complement_of(range_of(old(self)@, range)),
            ),
            !valid_range::<T>(range) ==> r == Err::<(), BitError>(BitError::BitIndexOutOfRange)
                && final(self)@ == old(self)@,
    ;

    /// Inverts among the bits in `range` those that are set in `value`.
    fn xor(&mut self, range: Range<usize>, value: T) -> (r: Result<(), BitError>)
        ensures
            valid_range::<T>(range) ==> r is Ok && final(self)@ == with_range_of(
                old(self)@,
                range,
                xor_of(range_of(old(self)@, range), value),
            ),
            !valid_range::<T>(range) ==> r == Err::<(), BitError>(BitError::BitIndexOutOfRange)
                && final(self)@ == old(self)@,
    ;

    /// Moves the bits in `range` up by `value` positions within the range.
    /// Zeros enter at the bottom; with `value` at or above the size of the
    /// range, the range becomes zero.
    fn lsh(&mut self, range: Range<usize>, value: T) -> (r: Result<(), BitError>)
        ensures
            valid_range::<T>(range) ==> r is Ok && final(self)@ == with_range_of(
                old(self)@,
                range,
                shifted_left_of(range_of(old(self)@, range), value, range_size(range)),
            ),
            !valid_range::<T>(range) ==> r == Err::<(), BitError>(BitError::BitIndexOutOfRange)
                && final(self)@ == old(self)@,
    ;

    /// Moves the bits in `range` down by `value` positions within the range.
    /// Zeros enter at the top; with `value` at or above the size of the
    /// range, the range becomes zero.
    fn rsh(&mut self, range: Range<usize>, value: T) -> (r: Result<(), BitError>)
        ensures
            valid_range::<T>(range) ==> r is Ok && final(self)@ == with_range_of(
                old(self)@,
                range,
                shifted_right_of(range_of(old(self)@, range), value, range_size(range)),
            ),
            !valid_range::<T>(range) ==> r == Err::<(), BitError>(BitError::BitIndexOutOfRange)
                && final(self)@ == old(self)@,
    ;
}

/// `value` with bit `index` cleared and `bit`, shifted up, or-ed in.
pub(crate) fn set_bit_in<T: BitInt>(value: T, index: usize, bit: T) -> (r: Result<T, BitError>)
    ensures
        valid_index::<T>(index) ==> r == Ok::<T, BitError>(with_bit_of(value, index, bit)),
        !valid_index::<T>(index) ==> r == Err::<T, BitError>(BitError::BitIndexOutOfRange),
{
    if index >= width_of::<T>() {
        return Err(BitError::BitIndexOutOfRange);
    }
    let res: u64 = (value.to_bits() & !(1u64 << index)) | (bit.to_bits() << index);
    Ok(T::from_bits(res))
}

/// `value` with bit `index` cleared.
pub(crate) fn clear_bit_in<T: BitInt>(value: T, index: usize) -> (r: Result<T, BitError>)
    ensures
        valid_index::<T>(index) ==> r == Ok::<T, BitError>(without_bit_of(value, index)),
        !valid_index::<T>(index) ==> r == Err::<T, BitError>(BitError::BitIndexOutOfRange),
{
    if index >= width_of::<T>() {
        return Err(BitError::BitIndexOutOfRange);
    }
    Ok(T::from_bits(value.to_bits() & !(1u64 << index)))
}

/// `value` with bit `index` inverted.
pub(crate) fn toggle_bit_in<T: BitInt>(value: T, index: usize) -> (r: Result<T, BitError>)
    ensures
        valid_index::<T>(index) ==> r == Ok::<T, BitError>(with_bit_toggled_of(value, index)),
        !valid_index::<T>(index) ==> r == Err::<T, BitError>(BitError::BitIndexOutOfRange),
{
    if index >= width_of::<T>() {
        return Err(BitError::BitIndexOutOfRange);
    }
    Ok(T::from_bits(value.to_bits() ^ (1u64 << index)))
}

/// `value` with the bits in `range` replaced by the lowest bits of `x`.
pub(crate) fn splice_range<T: BitInt>(value: T, range: &Range<usize>, x: T) -> (r: Result<
    T,
    BitError,
>)
    ensures
        valid_range::<T>(*range) ==> r == Ok::<T, BitError>(with_range_of(value, *range, x)),
        !valid_range::<T>(*range) ==> r == Err::<T, BitError>(BitError::BitIndexOutOfRange),
{
    let width = width_of::<T>();
    if range.start > range.end || range.end > width {
        return Err(BitError::BitIndexOutOfRange);
    }
    proof {
        lemma_pattern_fits(value);
    }
    Ok(T::from_bits(splice(value.to_bits(), width, range.start, range.end, x.to_bits())))
}

impl<'a, T: BitInt> BitManipulatorImplMut<'a, T> {
    /// Writes the new integer through the reference, where there is one.
    fn store(&mut self, outcome: Result<T, BitError>) -> (r: Result<(), BitError>)
        ensures
            outcome matches Ok(v) ==> r is Ok && final(self)@ == v,
            outcome matches Err(e) ==> r == Err::<(), BitError>(e) && final(self)@ == old(self)@,
            *final(final(self).value) == *final(old(self).value),
    {
        match outcome {
            Ok(v) => {
                *self.value = v;
                Ok(())
            },
            Err(e) => Err(e),
        }
    }
}

impl<'a, T: BitInt> BitSetIndex<T> for BitManipulatorImplMut<'a, T> {
    fn set_bit(&mut self, index: usize, value: T) -> (r: Result<(), BitError>)
        ensures
            *final(final(self).value) == *final(old(self).value),
    {
        let outcome = set_bit_in(*self.value, index, value);
        self.store(outcome)
    }

    fn clear_bit(&mut self, index: usize) -> (r: Result<(), BitError>)
        ensures
            *final(final(self).value) == *final(old(self).value),
    {
        let outcome = clear_bit_in(*self.value, index);
        self.store(outcome)
    }

    fn toggle_bit(&mut self, index: usize) -> (r: Result<(), BitError>)
        ensures
            *final(final(self).value) == *final(old(self).value),
    {
        let outcome = toggle_bit_in(*self.value, index);
        self.store(outcome)
    }
}

impl<'a, T: BitInt> BitGetIndex<T> for BitManipulatorImplMut<'a, T> {
    fn get_bit(&self, index: usize) -> (r: Result<bool, BitError>) {
        read_bit(*self.value, index)
    }
}

impl<'a, T: BitInt> BitGetRange<T> for BitManipulatorImplMut<'a, T> {
    fn first(&self, size: usize) -> (r: Result<T, BitError>) {
        read_first(*self.value, size)
    }

    fn last(&self, size: usize) -> (r: Result<T, BitError>) {
        read_last(*self.value, size)
    }

    fn get(&self, range: Range<usize>) -> (r: Result<T, BitError>) {
        read_range(*self.value, &range)
    }

    fn compare(&self, range: Range<usize>, match_bits: T, wildcard_bits: T) -> (r: Result<
        bool,
        BitError,
    >) {
        compare_range(*self.value, &range, match_bits, wildcard_bits)
    }
}

impl<'a, T: BitInt> BitSetRange<T> for BitManipulatorImplMut<'a, T> {
    fn set(&mut self, range: Range<usize>, value: T) -> (r: Result<(), BitError>)
        ensures
            *final(final(self).value) == *final(old(self).value),
    {
        let outcome = splice_range(*self.value, &range, value);
        self.store(outcome)
    }

    fn transform<F: Fn(T, T) -> T>(&mut self, range: Range<usize>, value: T, f: F) -> (r: Result<
        (),
        BitError,
    >)
        ensures
            *final(final(self).value) == *final(old(self).value),
    {
        match read_range(*self.value, &range) {
            Ok(v) => {
                let out = f(v, value);
                self.set(range, out)
            },
            Err(e) => Err(e),
        }
    }

    fn add(&mut self, range: Range<usize>, value: T) -> (r: Result<(), BitError>)
        ensures
            *final(final(self).value) == *final(old(self).value),
    {
        let op = |a: T, b: T| -> (c: T)
            ensures
                c == sum_of(a, b),
        {
            T::from_bits(a.to_bits().wrapping_add(b.to_bits()))
        };
        self.transform(range, value, op)
    }

    fn sub(&mut self, range: Range<usize>, value: T) -> (r: Result<(), BitError>)
        ensures
            *final(final(self).value) == *final(old(self).value),
    {
        let op = |a: T, b: T| -> (c: T)
            ensures
                c == difference_of(a, b),
        {
            T::from_bits(a.to_bits().wrapping_sub(b.to_bits()))
        };
        self.transform(range, value, op)
    }

    fn mul(&mut self, range: Range<usize>, value: T) -> (r: Result<(), BitError>)
        ensures
            *final(final(self).value) == *final(old(self).value),
    {
        let op = |a: T, b: T| -> (c: T)
            ensures
                c == product_of(a, b),
        {
            T::from_bits(a.to_bits().wrapping_mul(b.to_bits()))
        };
        self.transform(range, value, op)
    }

    fn div(&mut self, range: Range<usize>, value: T) -> (r: Result<(), BitError>)
        ensures
            *final(final(self).value) == *final(old(self).value),
    {
        let op = |a: T, b: T| -> (c: T)
            requires
                b.pattern() != 0,
            ensures
                c == a.quotient(b),
        {
            a.wrapping_quotient(b)
        };
        self.transform(range, value, op)
    }

    fn and(&mut self, range: Range<usize>, value: T) -> (r: Result<(), BitError>)
        ensures
            *final(final(self).value) == *final(old(self).value),
    {
        let op = |a: T, b: T| -> (c: T)
            ensures
                c == and_of(a, b),
        {
            T::from_bits(a.to_bits() & b.to_bits())
        };
        self.transform(range, value, op)
    }

    fn or(&mut self, range: Range<usize>, value: T) -> (r: Result<(), BitError>)
        ensures
            *final(final(self).value) == *final(old(self).value),
    {
        let op = |a: T, b: T| -> (c: T)
            ensures
                c == or_of(a, b),
        {
            T::from_bits(a.to_bits() | b.to_bits())
        };
        self.transform(range, value, op)
    }

    fn not(&mut self, range: Range<usize>) -> (r: Result<(), BitError>)
        ensures
            *final(final(self).value) == *final(old(self).value),
    {
        match read_range(*self.value, &range) {
            Ok(v) => self.set(range, T::from_bits(!v.to_bits())),
            Err(e) => Err(e),
        }
    }

    fn xor(&mut self, range: Range<usize>, value: T) -> (r: Result<(), BitError>)
        ensures
            *final(final(self).value) == *final(old(self).value),
    {
        let op = |a: T, b: T| -> (c: T)
            ensures
                c == xor_of(a, b),
        {
            T::from_bits(a.to_bits() ^ b.to_bits())
        };
        self.transform(range, value, op)
    }

    fn lsh(&mut self, range: Range<usize>, value: T) -> (r: Result<(), BitError>)
        ensures
            *final(final(self).value) == *final(old(self).value),
    {
        let size: usize = if range.start <= range.end {
            range.end - range.start
        } else {
            0
        };
        proof {
            T::lemma_width();
        }
        let op = |a: T, b: T| -> (c: T)
            requires
                size <= 64,
            ensures
                c == shifted_left_of(a, b, size as nat),
        {
            let amount: u64 = b.to_bits();
            if amount < size as u64 {
                T::from_bits(a.to_bits() << amount)
            } else {
                T::from_bits(0)
            }
        };
        self.transform(range, value, op)
    }

    fn rsh(&mut self, range: Range<usize>, value: T) -> (r: Result<(), BitError>)
        ensures
            *final(final(self).value) == *final(old(self).value),
    {
        let size: usize = if range.start <= range.end {
            range.end - range.start
        } else {
            0
        };
        proof {
            T::lemma_width();
        }
        let op = |a: T, b: T| -> (c: T)
            requires
                size <= 64,
            ensures
                c == shifted_right_of(a, b, size as nat),
        {
            let amount: u64 = b.to_bits();
            if amount < size as u64 {
                T::from_bits(a.to_bits() >> amount)
            } else {
                T::from_bits(0)
            }
        };
        self.transform(range, value, op)
    }
}

} // verus!

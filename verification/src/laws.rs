//! Laws of the operations: what holds between reads and writes, for every
//! integer, every index and every range.

use crate::integer::{lemma_pattern_fits, lemma_pattern_of_fitting, BitInt};
use crate::model::{
    and_of, bit_of, complement_of, difference_of, first_of, last_of, matches_with_wildcard,
    or_of, product_of, range_of, range_size, shifted_left_of, shifted_right_of, sum_of,
    valid_count, valid_index, valid_range, with_bit_of, with_bit_toggled_of, with_range_of,
    without_bit_of, xor_of,
};
use crate::word::{
    field, lemma_agrees_within, lemma_bit_of_field, lemma_bit_of_with_bit,
    lemma_bitwise_bit_by_bit,
    lemma_bit_of_with_field, lemma_field_fits, lemma_field_of_with_field,
    lemma_field_whole_and_empty, lemma_fits_is_below_power, lemma_fits_wider,
    lemma_low_bits_is_remainder, lemma_low_mask_is_shift_minus_one,
    lemma_remainder_of_wrapped, lemma_shift_bit_by_bit, lemma_shift_keeps_fit, lemma_shift_out,
    lemma_toggle_twice, lemma_with_field_fits, lemma_with_field_whole_and_empty,
    lemma_zero_and_one, low_mask, with_bit, with_bit_toggled, with_field, without_bit,
};
use std::ops::Range;
use vstd::arithmetic::power2::pow2;
use vstd::bits::{lemma_u64_pow2_no_overflow, lemma_u64_shr_is_div};
use vstd::prelude::*;

verus! {

/// A bit that was set reads as set, and a bit that was cleared reads as
/// clear: after `set_bit(index, bit)`, `get_bit(index)` gives the lowest bit
/// of `bit`, so `true` for one and `false` for zero; after
/// `clear_bit(index)` it gives `false`.
pub proof fn lemma_set_bit_then_get_bit<T: BitInt>(value: T, index: usize, bit: T)
    requires
        valid_index::<T>(index),
    ensures
        bit_of(with_bit_of(value, index, bit), index) == bit_of(bit, 0),
        bit_of(with_bit_of(value, index, T::from_pattern(1)), index),
        !bit_of(with_bit_of(value, index, T::from_pattern(0)), index),
        !bit_of(without_bit_of(value, index), index),
{
    T::lemma_width();
    let p = value.pattern();
    lemma_zero_and_one(T::width(), 0);
    lemma_pattern_of_fitting::<T>(1);
    lemma_pattern_of_fitting::<T>(0);
    lemma_bit_of_with_bit(p, T::width(), index as nat, bit.pattern());
    lemma_bit_of_with_bit(p, T::width(), index as nat, 1);
    lemma_bit_of_with_bit(p, T::width(), index as nat, 0);
    T::lemma_round_trip(value, with_bit(p, index as nat, bit.pattern()));
    T::lemma_round_trip(value, with_bit(p, index as nat, 1));
    T::lemma_round_trip(value, with_bit(p, index as nat, 0));
    T::lemma_round_trip(value, without_bit(p, index as nat));
}

/// Inverting a bit twice restores the integer.
pub proof fn lemma_toggle_bit_twice<T: BitInt>(value: T, index: usize)
    requires
        valid_index::<T>(index),
    ensures
        with_bit_toggled_of(with_bit_toggled_of(value, index), index) == value,
{
    T::lemma_width();
    let p = value.pattern();
    lemma_pattern_fits(value);
    T::lemma_round_trip(value, with_bit_toggled(p, index as nat));
    lemma_toggle_twice(p, T::width(), index as nat);
}

/// Reading a range back after writing `x` to it gives the bits of `x` that
/// the range has room for; so where `x` fits in the range, its pattern being
/// below `2^size` for a range of `size` bits, it gives `x`.
pub proof fn lemma_set_then_get<T: BitInt>(value: T, range: Range<usize>, x: T)
    requires
        valid_range::<T>(range),
    ensures
        range_of(with_range_of(value, range, x), range) == first_of(
            x,
            (range.end - range.start) as usize,
        ),
        x.pattern() < pow2(range_size(range)) ==> range_of(with_range_of(value, range, x), range)
            == x,
{
    T::lemma_width();
    let p = value.pattern();
    let start = range.start as nat;
    let end = range.end as nat;
    let written = with_field(p, start, end, x.pattern());
    lemma_pattern_fits(value);
    lemma_with_field_fits(p, T::width(), start, end, x.pattern());
    lemma_pattern_of_fitting::<T>(written);
    lemma_field_of_with_field(p, start, end, x.pattern());
    lemma_fits_is_below_power(x.pattern(), range_size(range));
    T::lemma_round_trip(x, 0);
}

/// A write to a range changes the bits in the range and no other: a bit in
/// the range becomes the bit of `x` at the same distance from the start of
/// the range, and a bit outside the range stays what it was.
pub proof fn lemma_set_bit_by_bit<T: BitInt>(value: T, range: Range<usize>, x: T, index: usize)
    requires
        valid_range::<T>(range),
        valid_index::<T>(index),
    ensures
        range.start <= index < range.end ==> bit_of(with_range_of(value, range, x), index)
            == bit_of(x, (index - range.start) as usize),
        !(range.start <= index < range.end) ==> bit_of(with_range_of(value, range, x), index)
            == bit_of(value, index),
{
    T::lemma_width();
    let p = value.pattern();
    let start = range.start as nat;
    let end = range.end as nat;
    let written = with_field(p, start, end, x.pattern());
    lemma_pattern_fits(value);
    lemma_with_field_fits(p, T::width(), start, end, x.pattern());
    lemma_pattern_of_fitting::<T>(written);
    lemma_bit_of_with_field(p, start, end, x.pattern(), index as nat);
}

/// A read of a range gives the bits of the range, lowest first, and zeros
/// above them: bit `k` of the result is bit `range.start + k` of the integer
/// for `k` below the size of the range, and clear from there on.
pub proof fn lemma_get_bit_by_bit<T: BitInt>(value: T, range: Range<usize>, k: usize)
    requires
        valid_range::<T>(range),
        valid_index::<T>(k),
    ensures
        k < range.end - range.start ==> bit_of(range_of(value, range), k) == bit_of(
            value,
            (range.start + k) as usize,
        ),
        k >= range.end - range.start ==> !bit_of(range_of(value, range), k),
{
    T::lemma_width();
    let p = value.pattern();
    let start = range.start as nat;
    let end = range.end as nat;
    lemma_field_fits(p, start, end);
    lemma_fits_wider(field(p, start, end), (end - start) as nat, T::width());
    lemma_pattern_of_fitting::<T>(field(p, start, end));
    lemma_bit_of_field(p, start, end, k as nat);
}

/// A read of the whole width gives the integer, and a read of an empty range
/// gives zero.
pub proof fn lemma_get_whole_and_empty<T: BitInt>(value: T, range: Range<usize>)
    requires
        valid_range::<T>(range),
    ensures
        range.end - range.start == T::width() ==> range_of(value, range) == value,
        range.start == range.end ==> range_of(value, range) == T::from_pattern(0),
{
    T::lemma_width();
    let p = value.pattern();
    lemma_pattern_fits(value);
    lemma_field_whole_and_empty(p, T::width(), range.start as nat);
    T::lemma_round_trip(value, 0);
}

/// A write to an empty range changes nothing, and a write of `x` to the
/// whole width gives `x`.
pub proof fn lemma_set_whole_and_empty<T: BitInt>(value: T, range: Range<usize>, x: T)
    requires
        valid_range::<T>(range),
    ensures
        range.start == range.end ==> with_range_of(value, range, x) == value,
        range.end - range.start == T::width() ==> with_range_of(value, range, x) == x,
{
    T::lemma_width();
    lemma_pattern_fits(value);
    lemma_pattern_fits(x);
    lemma_with_field_whole_and_empty(value.pattern(), T::width(), range.start as nat, x.pattern());
    T::lemma_round_trip(value, 0);
    T::lemma_round_trip(x, 0);
}

/// `first(size)` is the integer masked to its `size` lowest bits: the mask
/// is `2^size - 1`, and the result is the pattern modulo `2^size`.
pub proof fn lemma_first_is_masked<T: BitInt>(value: T, size: usize)
    requires
        valid_count::<T>(size),
    ensures
        first_of(value, size).pattern() == value.pattern() & low_mask(size as nat),
        size < 64 ==> low_mask(size as nat) == (1u64 << size) - 1,
        first_of(value, size).pattern() == value.pattern() as int % pow2(size as nat) as int,
        size == T::width() ==> first_of(value, size) == value,
{
    T::lemma_width();
    let p = value.pattern();
    let n = size as nat;
    lemma_pattern_fits(value);
    lemma_field_fits(p, 0, n);
    lemma_shift_out(p, T::width());
    lemma_fits_wider(p & low_mask(n), n, T::width());
    lemma_pattern_of_fitting::<T>(p & low_mask(n));
    T::lemma_round_trip(value, 0);
    lemma_low_bits_is_remainder(p, n);
    if size < 64 {
        lemma_low_mask_is_shift_minus_one(n);
    }
}

/// `last(size)` is the integer shifted down by `width - size`: the pattern
/// divided by `2^(width - size)`.
pub proof fn lemma_last_is_shifted<T: BitInt>(value: T, size: usize)
    requires
        valid_count::<T>(size),
    ensures
        last_of(value, size).pattern() == value.pattern() >> ((T::width() - size) as nat),
        0 < size ==> last_of(value, size).pattern() == value.pattern() / (pow2(
            (T::width() - size) as nat,
        ) as u64),
        size == 0 ==> last_of(value, size) == T::from_pattern(0),
        size == T::width() ==> last_of(value, size) == value,
{
    T::lemma_width();
    let p = value.pattern();
    let shift = (T::width() - size) as nat;
    lemma_pattern_fits(value);
    lemma_shift_keeps_fit(p, T::width(), shift);
    lemma_pattern_of_fitting::<T>(p >> shift);
    T::lemma_round_trip(value, 0);
    lemma_shift_out(p, T::width());
    if size > 0 {
        lemma_u64_pow2_no_overflow(shift);
        lemma_u64_shr_is_div(p, shift as u64);
    }
}

/// `compare` is the comparison of the two integers themselves after the
/// wildcard positions are cleared in both: `bits & !wildcard == match & !wildcard`.
pub proof fn lemma_compare_is_masked_equality<T: BitInt>(bits: T, match_bits: T, wildcard_bits: T)
    ensures
        matches_with_wildcard(bits, match_bits, wildcard_bits) <==> and_of(
            bits,
            complement_of(wildcard_bits),
        ) == and_of(match_bits, complement_of(wildcard_bits)),
{
    T::lemma_width();
    let b = bits.pattern();
    let m = match_bits.pattern();
    let w = wildcard_bits.pattern();
    let care = complement_of(wildcard_bits).pattern();
    lemma_pattern_fits(bits);
    lemma_pattern_fits(match_bits);
    T::lemma_round_trip(bits, !w);
    lemma_agrees_within(b, m, w, T::width());
    lemma_pattern_of_fitting::<T>(b & care);
    lemma_pattern_of_fitting::<T>(m & care);
}

/// `and`, `or`, `xor` and `not` work bit by bit.
pub proof fn lemma_bitwise_operators<T: BitInt>(a: T, b: T, index: usize)
    requires
        valid_index::<T>(index),
    ensures
        bit_of(and_of(a, b), index) == (bit_of(a, index) && bit_of(b, index)),
        bit_of(or_of(a, b), index) == (bit_of(a, index) || bit_of(b, index)),
        bit_of(xor_of(a, b), index) == (bit_of(a, index) != bit_of(b, index)),
        bit_of(complement_of(a), index) == !bit_of(a, index),
{
    T::lemma_width();
    let x = a.pattern();
    let y = b.pattern();
    T::lemma_round_trip(a, x & y);
    T::lemma_round_trip(a, x | y);
    T::lemma_round_trip(a, x ^ y);
    T::lemma_round_trip(a, !x);
    lemma_bitwise_bit_by_bit(x, y, T::width(), index as nat);
}

/// `lsh` and `rsh` move bits: bit `index` of the shifted number is the bit
/// that lay `amount` positions below, for `lsh`, or above, for `rsh`, and it
/// is clear where there is no such bit. From an amount of `size` on, every
/// bit is clear.
pub proof fn lemma_shift_operators<T: BitInt>(a: T, amount: T, size: nat, index: usize)
    requires
        valid_index::<T>(index),
        size <= T::width(),
    ensures
        amount.pattern() < size ==> bit_of(shifted_left_of(a, amount, size), index) == (
        amount.pattern() <= index && bit_of(a, (index - amount.pattern()) as usize)),
        amount.pattern() < size ==> bit_of(shifted_right_of(a, amount, size), index) == (index
            + amount.pattern() < T::width() && bit_of(a, (index + amount.pattern()) as usize)),
        amount.pattern() >= size ==> !bit_of(shifted_left_of(a, amount, size), index),
        amount.pattern() >= size ==> !bit_of(shifted_right_of(a, amount, size), index),
{
    T::lemma_width();
    let x = a.pattern();
    let n = amount.pattern();
    lemma_pattern_fits(a);
    if n < size {
        T::lemma_round_trip(a, x << n);
        T::lemma_round_trip(a, x >> n);
        lemma_shift_bit_by_bit(x, n, T::width(), index as nat);
    } else {
        lemma_zero_and_one(T::width(), index as nat);
        lemma_pattern_of_fitting::<T>(0);
    }
}

/// The sum, the difference and the product are those of the two patterns
/// modulo `2^width`: the arithmetic of the type, which wraps around.
pub proof fn lemma_arithmetic_is_modular<T: BitInt>(a: T, b: T)
    ensures
        sum_of(a, b).pattern() == (a.pattern() + b.pattern()) % pow2(T::width()) as int,
        difference_of(a, b).pattern() == (a.pattern() - b.pattern()) % pow2(T::width()) as int,
        product_of(a, b).pattern() == (a.pattern() * b.pattern()) % pow2(T::width()) as int,
{
    T::lemma_width();
    let x = a.pattern();
    let y = b.pattern();
    let w = T::width();
    let sum = x.wrapping_add(y);
    let difference = x.wrapping_sub(y);
    let product = x.wrapping_mul(y);
    T::lemma_round_trip(a, sum);
    T::lemma_round_trip(a, difference);
    T::lemma_round_trip(a, product);
    lemma_low_bits_is_remainder(sum, w);
    lemma_low_bits_is_remainder(difference, w);
    lemma_low_bits_is_remainder(product, w);
    lemma_remainder_of_wrapped(x + y, w);
    lemma_remainder_of_wrapped(x - y, w);
    lemma_remainder_of_wrapped(x * y, w);
    assert(sum as int == (x + y) % 0x1_0000_0000_0000_0000);
    assert(difference as int == (x - y) % 0x1_0000_0000_0000_0000);
    assert(product as int == (x * y) % 0x1_0000_0000_0000_0000) by {
        assert(x as nat * y as nat == x * y) by (nonlinear_arith);
    }
}

} // verus!

//! Bit patterns as 64-bit words.
//!
//! Every supported integer is at most 64 bits wide, so its bits, zero-extended,
//! fit in a `u64`. This module defines what reading and replacing a bit or a
//! range of bits means on such a word, and the word-level routines that the
//! accessors share.

use vstd::arithmetic::div_mod::{lemma_mod_mod, lemma_small_mod};
use vstd::arithmetic::power2::{lemma2_to64_rest, lemma_pow2_adds, lemma_pow2_pos, pow2};
use vstd::bits::{
    lemma_u64_low_bits_mask_is_mod, lemma_u64_pow2_no_overflow, lemma_u64_shl_is_mul,
    low_bits_mask,
};
use vstd::prelude::*;

verus! {

/// The word whose `n` lowest bits are set and whose other bits are clear.
pub open spec fn low_mask(n: nat) -> u64 {
    if n >= 64 {
        u64::MAX
    } else {
        !(u64::MAX << n)
    }
}

/// Whether `word` has no bit set at position `width` or above.
pub open spec fn fits(word: u64, width: nat) -> bool {
    word & low_mask(width) == word
}

/// Bit `index` of `word`; bit 0 is the least significant one.
pub open spec fn bit_at(word: u64, index: nat) -> bool {
    (word >> index) & 1 == 1
}

/// The `n` lowest bits of `word`, in place.
pub open spec fn low_bits(word: u64, n: nat) -> u64 {
    word & low_mask(n)
}

/// The `n` highest bits of a `width`-bit `word`, moved down to bit 0.
pub open spec fn high_bits(word: u64, width: nat, n: nat) -> u64 {
    word >> ((width - n) as nat)
}

/// Bits `[start, end)` of `word`, moved down to bit 0.
pub open spec fn field(word: u64, start: nat, end: nat) -> u64 {
    (word >> start) & low_mask((end - start) as nat)
}

/// `word` with bits `[start, end)` replaced by the `end - start` lowest bits
/// of `x`. Bits of `x` above these are dropped; bits of `word` outside the
/// range stay.
pub open spec fn with_field(word: u64, start: nat, end: nat, x: u64) -> u64 {
    let mask = low_mask((end - start) as nat);
    (word & !(mask << start)) | ((x & mask) << start)
}

/// `word` with bit `index` cleared.
pub open spec fn without_bit(word: u64, index: nat) -> u64 {
    word & !(1u64 << index)
}

/// `word` with bit `index` cleared and `x`, shifted up by `index`, or-ed in.
pub open spec fn with_bit(word: u64, index: nat, x: u64) -> u64 {
    (word & !(1u64 << index)) | (x << index)
}

/// `word` with bit `index` inverted.
pub open spec fn with_bit_toggled(word: u64, index: nat) -> u64 {
    word ^ (1u64 << index)
}

/// Whether `word` and `pattern` agree on every bit that `wildcard` leaves clear.
pub open spec fn agrees(word: u64, pattern: u64, wildcard: u64) -> bool {
    word & !wildcard == pattern & !wildcard
}

/// `low_mask(n)` is `2^n - 1`, written with a shift.
pub proof fn lemma_low_mask_is_shift_minus_one(n: nat)
    requires
        n < 64,
    ensures
        1 <= (1u64 << n),
        low_mask(n) == (1u64 << n) - 1,
{
    let k = n as u64;
    assert(1 <= (1u64 << k) && !(u64::MAX << k) == (1u64 << k) - 1) by (bit_vector)
        requires
            k < 64,
    ;
}

/// A word fits in `width` bits exactly when it is at most `low_mask(width)`.
pub proof fn lemma_fits_is_bound(word: u64, width: nat)
    ensures
        fits(word, width) <==> word <= low_mask(width),
{
    let mask = low_mask(width);
    if width < 64 {
        let k = width as u64;
        assert((word & mask == word) <==> word <= mask) by (bit_vector)
            requires
                k < 64,
                mask == !(u64::MAX << k),
        ;
    } else {
        assert(word & u64::MAX == word) by (bit_vector);
    }
}

/// A word fits in `width` bits exactly when it is below `2^width`.
pub proof fn lemma_fits_is_below_power(word: u64, width: nat)
    requires
        width <= 64,
    ensures
        fits(word, width) <==> word < pow2(width),
{
    lemma_fits_is_bound(word, width);
    if width < 64 {
        lemma_low_mask_is_shift_minus_one(width);
        lemma_u64_pow2_no_overflow(width);
        lemma_u64_shl_is_mul(1, width as u64);
    } else {
        lemma2_to64_rest();
    }
}

/// The `n` lowest bits of a word are its remainder modulo `2^n`.
pub proof fn lemma_low_bits_is_remainder(word: u64, n: nat)
    requires
        n <= 64,
    ensures
        low_bits(word, n) == word as int % pow2(n) as int,
{
    if n < 64 {
        lemma_low_mask_is_shift_minus_one(n);
        lemma_u64_pow2_no_overflow(n);
        lemma_u64_shl_is_mul(1, n as u64);
        assert(low_mask(n) == low_bits_mask(n) as u64);
        lemma_u64_low_bits_mask_is_mod(word, n);
    } else {
        lemma2_to64_rest();
        assert(word & u64::MAX == word) by (bit_vector);
        lemma_small_mod(word as nat, pow2(64));
    }
}

/// A remainder modulo `2^64`, taken modulo `2^n` for `n` up to 64, is the
/// remainder modulo `2^n`.
pub proof fn lemma_remainder_of_wrapped(x: int, n: nat)
    requires
        n <= 64,
    ensures
        (x % 0x1_0000_0000_0000_0000) % pow2(n) as int == x % pow2(n) as int,
{
    lemma2_to64_rest();
    lemma_pow2_adds(n, (64 - n) as nat);
    lemma_pow2_pos(n);
    lemma_pow2_pos((64 - n) as nat);
    lemma_mod_mod(x, pow2(n) as int, pow2((64 - n) as nat) as int);
}

/// What fits in a width fits in every larger one.
pub proof fn lemma_fits_wider(word: u64, narrow: nat, wide: nat)
    requires
        fits(word, narrow),
        narrow <= wide,
    ensures
        fits(word, wide),
{
    let a = low_mask(narrow);
    let b = low_mask(wide);
    if wide < 64 {
        let j = narrow as u64;
        let k = wide as u64;
        assert(word & b == word) by (bit_vector)
            requires
                j <= k < 64,
                a == !(u64::MAX << j),
                b == !(u64::MAX << k),
                word & a == word,
        ;
    } else {
        assert(word & u64::MAX == word) by (bit_vector);
    }
}

/// A word that fits in `width` bits has nothing left once these are shifted
/// out; a shift by nothing leaves every word as it is.
pub proof fn lemma_shift_out(word: u64, width: nat)
    requires
        fits(word, width),
        width <= 64,
    ensures
        word >> width == 0,
        word >> 0 == word,
{
    let mask = low_mask(width);
    let k = width as u64;
    assert(word >> k == 0 && word >> 0u64 == word) by (bit_vector)
        requires
            k <= 64,
            mask == (if k >= 64 {
                u64::MAX
            } else {
                !(u64::MAX << k)
            }),
            word & mask == word,
    ;
}

/// Replacing a range of a word that fits in `width` bits by anything gives a
/// word that fits in `width` bits.
pub proof fn lemma_with_field_fits(word: u64, width: nat, start: nat, end: nat, x: u64)
    requires
        start <= end <= width <= 64,
        fits(word, width),
    ensures
        fits(with_field(word, start, end, x), width),
{
    let s = start as u64;
    let k = (end - start) as u64;
    let w = width as u64;
    let m = low_mask((end - start) as nat);
    let whole = low_mask(width);
    assert(((word & !(m << s)) | ((x & m) << s)) & whole == (word & !(m << s)) | ((x & m) << s))
        by (bit_vector)
        requires
            s + k <= w <= 64,
            m == (if k >= 64 {
                u64::MAX
            } else {
                !(u64::MAX << k)
            }),
            whole == (if w >= 64 {
                u64::MAX
            } else {
                !(u64::MAX << w)
            }),
            word & whole == word,
    ;
}

/// Reading a range back after it was replaced by `x` gives the bits of `x`
/// that the range has room for.
pub proof fn lemma_field_of_with_field(word: u64, start: nat, end: nat, x: u64)
    requires
        start <= end <= 64,
    ensures
        field(with_field(word, start, end, x), start, end) == low_bits(x, (end - start) as nat),
{
    let s = start as u64;
    let k = (end - start) as u64;
    let m = low_mask((end - start) as nat);
    assert((((word & !(m << s)) | ((x & m) << s)) >> s) & m == x & m) by (bit_vector)
        requires
            s + k <= 64,
            m == (if k >= 64 {
                u64::MAX
            } else {
                !(u64::MAX << k)
            }),
    ;
}

/// A range read from a word fits in as many bits as the range holds.
pub proof fn lemma_field_fits(word: u64, start: nat, end: nat)
    requires
        start <= end,
    ensures
        fits(field(word, start, end), (end - start) as nat),
{
    let m = low_mask((end - start) as nat);
    let shifted = word >> start;
    assert((shifted & m) & m == shifted & m) by (bit_vector);
}

/// Bit `k` of a range read from a word is bit `start + k` of the word, for
/// `k` below the size of the range, and clear above.
pub proof fn lemma_bit_of_field(word: u64, start: nat, end: nat, k: nat)
    requires
        start <= end <= 64,
        k < 64,
    ensures
        bit_at(field(word, start, end), k) == (k < end - start && bit_at(word, start + k)),
{
    let s = start as u64;
    let n = (end - start) as u64;
    let i = k as u64;
    let j = (start + k) as u64;
    let m = low_mask((end - start) as nat);
    assert((((word >> s) & m) >> i) & 1 == 1 <==> (i < n && (word >> j) & 1 == 1)) by (bit_vector)
        requires
            s + n <= 64,
            i < 64,
            j == s + i,
            m == (if n >= 64 {
                u64::MAX
            } else {
                !(u64::MAX << n)
            }),
    ;
}

/// After a range was replaced by `x`, a bit inside the range is the bit of
/// `x` at the same distance from the start, and a bit outside is what it was.
pub proof fn lemma_bit_of_with_field(word: u64, start: nat, end: nat, x: u64, k: nat)
    requires
        start <= end <= 64,
        k < 64,
    ensures
        start <= k < end ==> bit_at(with_field(word, start, end, x), k) == bit_at(
            x,
            (k - start) as nat,
        ),
        !(start <= k < end) ==> bit_at(with_field(word, start, end, x), k) == bit_at(word, k),
{
    let s = start as u64;
    let n = (end - start) as u64;
    let i = k as u64;
    let m = low_mask((end - start) as nat);
    let spliced = with_field(word, start, end, x);
    if start <= k < end {
        let d = (k - start) as u64;
        assert((spliced >> i) & 1 == (x >> d) & 1) by (bit_vector)
            requires
                s + n <= 64,
                s <= i < s + n,
                d == i - s,
                m == (if n >= 64 {
                    u64::MAX
                } else {
                    !(u64::MAX << n)
                }),
                spliced == (word & !(m << s)) | ((x & m) << s),
        ;
    } else {
        assert((spliced >> i) & 1 == (word >> i) & 1) by (bit_vector)
            requires
                s + n <= 64,
                i < 64,
                !(s <= i < s + n),
                m == (if n >= 64 {
                    u64::MAX
                } else {
                    !(u64::MAX << n)
                }),
                spliced == (word & !(m << s)) | ((x & m) << s),
        ;
    }
}

/// Zero and one fit in every width from one bit on; bit 0 of one is set, and
/// no bit of zero is.
pub proof fn lemma_zero_and_one(width: nat, index: nat)
    requires
        1 <= width,
        index < 64,
    ensures
        fits(0, width),
        fits(1, width),
        bit_at(1, 0),
        !bit_at(0, index),
{
    let whole = low_mask(width);
    let w = width as u64;
    let i = index as u64;
    assert(0u64 & whole == 0 && 1u64 & whole == 1 && (1u64 >> 0u64) & 1 == 1 && (0u64 >> i) & 1
        == 0) by (bit_vector)
        requires
            whole == u64::MAX || (1 <= w < 64 && whole == !(u64::MAX << w)),
    ;
}

/// Once `with_bit(word, index, x)` is cut to a width that holds `index`, its
/// bit `index` is bit 0 of `x`; and bit `index` of `without_bit(word, index)`
/// is clear.
pub proof fn lemma_bit_of_with_bit(word: u64, width: nat, index: nat, x: u64)
    requires
        index < width <= 64,
    ensures
        bit_at(low_bits(with_bit(word, index, x), width), index) == bit_at(x, 0),
        !bit_at(low_bits(without_bit(word, index), width), index),
{
    let whole = low_mask(width);
    let w = width as u64;
    let i = index as u64;
    assert((((((word & !(1u64 << i)) | (x << i)) & whole) >> i) & 1 == 1 <==> (x >> 0u64) & 1 == 1)
        && (((word & !(1u64 << i)) & whole) >> i) & 1 == 0) by (bit_vector)
        requires
            i < w <= 64,
            whole == (if w >= 64 {
                u64::MAX
            } else {
                !(u64::MAX << w)
            }),
    ;
}

/// Inverting a bit twice gives the word back, also when the word is cut to a
/// width that holds the bit in between.
pub proof fn lemma_toggle_twice(word: u64, width: nat, index: nat)
    requires
        index < width <= 64,
        fits(word, width),
    ensures
        with_bit_toggled(low_bits(with_bit_toggled(word, index), width), index) == word,
{
    let whole = low_mask(width);
    let w = width as u64;
    let i = index as u64;
    assert((((word ^ (1u64 << i)) & whole) ^ (1u64 << i)) == word) by (bit_vector)
        requires
            i < w <= 64,
            whole == (if w >= 64 {
                u64::MAX
            } else {
                !(u64::MAX << w)
            }),
            word & whole == word,
    ;
}

/// Agreement where a wildcard is clear can be tested on the words cut to a
/// width in which both fit: the complement of the wildcard may be cut too.
pub proof fn lemma_agrees_within(word: u64, pattern: u64, wildcard: u64, width: nat)
    requires
        fits(word, width),
        fits(pattern, width),
    ensures
        agrees(word, pattern, wildcard) <==> word & low_bits(!wildcard, width) == pattern
            & low_bits(!wildcard, width),
        fits(word & low_bits(!wildcard, width), width),
        fits(pattern & low_bits(!wildcard, width), width),
{
    let whole = low_mask(width);
    let care = !wildcard & whole;
    assert(((word & !wildcard == pattern & !wildcard) <==> (word & care == pattern & care)) && (word
        & care) & whole == word & care && (pattern & care) & whole == pattern & care)
        by (bit_vector)
        requires
            care == !wildcard & whole,
            word & whole == word,
            pattern & whole == pattern,
    ;
}

/// A read of all `width` bits of a word that fits in them gives the word,
/// and a read of no bits gives zero.
pub proof fn lemma_field_whole_and_empty(word: u64, width: nat, start: nat)
    requires
        fits(word, width),
        width <= 64,
    ensures
        field(word, 0, width) == word,
        field(word, start, start) == 0,
{
    let whole = low_mask(width);
    let shifted = word >> start;
    assert((word >> 0u64) & whole == word && shifted & !(u64::MAX << 0u64) == 0) by (bit_vector)
        requires
            word & whole == word,
    ;
}

/// A write of no bits leaves the word, and a write of all `width` bits of a
/// word that fits in them leaves only what was written.
pub proof fn lemma_with_field_whole_and_empty(word: u64, width: nat, start: nat, x: u64)
    requires
        fits(word, width),
        fits(x, width),
        start <= width <= 64,
    ensures
        with_field(word, start, start, x) == word,
        with_field(word, 0, width, x) == x,
{
    let whole = low_mask(width);
    let none = low_mask(0);
    let s = start as u64;
    assert((word & !(whole << 0u64)) | ((x & whole) << 0u64) == x && (word & !(none << s)) | ((x
        & none) << s) == word) by (bit_vector)
        requires
            word & whole == word,
            x & whole == x,
            none == !(u64::MAX << 0u64),
    ;
}

/// Shifting a word down keeps it within the width it fits in.
pub proof fn lemma_shift_keeps_fit(word: u64, width: nat, shift: nat)
    requires
        fits(word, width),
        shift <= 64,
    ensures
        fits(word >> shift, width),
{
    let whole = low_mask(width);
    let k = shift as u64;
    if width < 64 {
        let w = width as u64;
        assert((word >> k) & whole == word >> k) by (bit_vector)
            requires
                w < 64,
                whole == !(u64::MAX << w),
                word & whole == word,
        ;
    } else {
        let shifted = word >> shift;
        assert(shifted & u64::MAX == shifted) by (bit_vector);
    }
}

/// The bitwise operators work bit by bit, also when the result is cut to a
/// width that holds the bit.
pub proof fn lemma_bitwise_bit_by_bit(x: u64, y: u64, width: nat, index: nat)
    requires
        index < width <= 64,
    ensures
        bit_at(low_bits(x & y, width), index) == (bit_at(x, index) && bit_at(y, index)),
        bit_at(low_bits(x | y, width), index) == (bit_at(x, index) || bit_at(y, index)),
        bit_at(low_bits(x ^ y, width), index) == (bit_at(x, index) != bit_at(y, index)),
        bit_at(low_bits(!x, width), index) == !bit_at(x, index),
{
    let whole = low_mask(width);
    let w = width as u64;
    let i = index as u64;
    let bx = (x >> i) & 1 == 1;
    let by = (y >> i) & 1 == 1;
    assert(((((x & y) & whole) >> i) & 1 == 1 <==> bx && by) && ((((x | y) & whole) >> i) & 1 == 1
        <==> bx || by) && ((((x ^ y) & whole) >> i) & 1 == 1 <==> bx != by) && (((!x & whole) >> i)
        & 1 == 1 <==> !bx)) by (bit_vector)
        requires
            i < w <= 64,
            whole == (if w >= 64 {
                u64::MAX
            } else {
                !(u64::MAX << w)
            }),
            bx == ((x >> i) & 1 == 1),
            by == ((y >> i) & 1 == 1),
    ;
}

/// A shift moves every bit by the same distance: once the shifted word is
/// cut to a width that holds bit `index`, that bit is the bit of `x` which
/// lay `amount` positions below, for a shift up, or above, for a shift down.
/// Where there is no such bit, it is clear.
pub proof fn lemma_shift_bit_by_bit(x: u64, amount: u64, width: nat, index: nat)
    requires
        index < width <= 64,
        amount < 64,
        fits(x, width),
    ensures
        bit_at(low_bits(x << amount, width), index) == (amount <= index && bit_at(
            x,
            (index - amount) as nat,
        )),
        bit_at(low_bits(x >> amount, width), index) == (index + amount < width && bit_at(
            x,
            (index + amount) as nat,
        )),
{
    let whole = low_mask(width);
    let w = width as u64;
    let i = index as u64;
    if amount <= index {
        let below = (index - amount) as u64;
        assert((((x << amount) & whole) >> i) & 1 == (x >> below) & 1) by (bit_vector)
            requires
                i < w <= 64,
                amount <= i,
                below == i - amount,
                whole == (if w >= 64 {
                    u64::MAX
                } else {
                    !(u64::MAX << w)
                }),
        ;
    } else {
        assert((((x << amount) & whole) >> i) & 1 == 0) by (bit_vector)
            requires
                i < amount < 64,
        ;
    }
    let above = (index + amount) as u64;
    assert(((((x >> amount) & whole) >> i) & 1 == 1) <==> (above < w && (x >> above) & 1 == 1))
        by (bit_vector)
        requires
            i < w <= 64,
            amount < 64,
            above == i + amount,
            whole == (if w >= 64 {
                u64::MAX
            } else {
                !(u64::MAX << w)
            }),
            x & whole == x,
    ;
}

/// Two words agree where a wildcard is clear exactly when the wildcard
/// covers every bit in which they differ.
pub proof fn lemma_agrees_is_covered_difference(word: u64, pattern: u64, wildcard: u64)
    ensures
        agrees(word, pattern, wildcard) <==> wildcard & (word ^ pattern) == word ^ pattern,
{
    assert((word & !wildcard == pattern & !wildcard) <==> (wildcard & (word ^ pattern) == word
        ^ pattern)) by (bit_vector);
}

/// The word with the `n` lowest bits set: `2^n - 1`, and all 64 bits from `n = 64` on.
pub(crate) fn mask_of(n: usize) -> (mask: u64)
    ensures
        mask == low_mask(n as nat),
{
    if n >= 64 {
        u64::MAX
    } else {
        proof {
            lemma_low_mask_is_shift_minus_one(n as nat);
        }
        (1u64 << n) - 1
    }
}

/// Keeps the `n` lowest bits of `word`: the bits above them are shifted out
/// at the top and zeros are shifted back in.
pub(crate) fn take_low(word: u64, n: usize) -> (low: u64)
    requires
        n <= 64,
    ensures
        low == low_bits(word, n as nat),
{
    if n == 0 {
        assert(word & !(u64::MAX << 0u64) == 0) by (bit_vector);
        return 0;
    }
    let zero_bits: usize = 64 - n;
    let f0: u64 = word << zero_bits;
    let f1: u64 = f0 >> zero_bits;
    proof {
        let mask = low_mask(n as nat);
        let z = zero_bits as u64;
        let k = n as u64;
        assert((word << z) >> z == word & mask) by (bit_vector)
            requires
                0 < k <= 64,
                z == 64 - k,
                mask == (if k >= 64 {
                    u64::MAX
                } else {
                    !(u64::MAX << k)
                }),
        ;
    }
    f1
}

/// Moves the `n` highest bits of a `width`-bit word down to bit 0.
pub(crate) fn take_high(word: u64, width: usize, n: usize) -> (high: u64)
    requires
        n <= width <= 64,
        fits(word, width as nat),
    ensures
        high == high_bits(word, width as nat, n as nat),
{
    if n == 0 {
        proof {
            lemma_shift_out(word, width as nat);
        }
        return 0;
    }
    let shift_off: usize = width - n;
    word >> shift_off
}

/// Reads bits `[start, end)` of `word`: the range is masked in place, then
/// moved down to bit 0.
pub(crate) fn extract(word: u64, start: usize, end: usize) -> (bits: u64)
    requires
        start <= end <= 64,
    ensures
        bits == field(word, start as nat, end as nat),
{
    let size: usize = end - start;
    if size == 0 {
        assert((word >> (start as u64)) & !(u64::MAX << 0u64) == 0) by (bit_vector);
        return 0;
    }
    let low: u64 = mask_of(size);
    let mask: u64 = low << start;
    let bits: u64 = (word & mask) >> start;
    proof {
        let s = start as u64;
        assert((word & (low << s)) >> s == (word >> s) & low) by (bit_vector)
            requires
                s < 64,
        ;
    }
    bits
}

/// Writes the `end - start` lowest bits of `x` over bits `[start, end)` of a
/// `width`-bit word. The bits below the range and the bits above it are read
/// first; the three pieces are then or-ed together, each at its position.
pub(crate) fn splice(word: u64, width: usize, start: usize, end: usize, x: u64) -> (spliced: u64)
    requires
        start <= end <= width <= 64,
        fits(word, width as nat),
    ensures
        spliced == with_field(word, start as nat, end as nat, x),
{
    let size: usize = end - start;
    let payload: u64 = x & mask_of(size);
    if size == 0 {
        proof {
            let s = start as u64;
            assert((word & !(!(u64::MAX << 0u64) << s)) | ((x & !(u64::MAX << 0u64)) << s) == word)
                by (bit_vector);
        }
        return word;
    }
    if size == width {
        proof {
            let mask = low_mask(width as nat);
            assert((word & !(mask << 0u64)) | ((x & mask) << 0u64) == x & mask) by (bit_vector)
                requires
                    word & mask == word,
            ;
        }
        return payload;
    }
    let right_side: u64 = take_low(word, start);
    let left_side: u64 = take_high(word, width, width - end);
    let left_shift: u64 = if end < width {
        left_side << end
    } else {
        0
    };
    let value_shift: u64 = payload << start;
    proof {
        let s = start as u64;
        let e = end as u64;
        let w = width as u64;
        let k = size as u64;
        let m = low_mask(size as nat);
        let below = low_mask(start as nat);
        let whole = low_mask(width as nat);
        assert(left_shift | (word & below) | ((x & m) << s) == (word & !(m << s)) | ((x & m) << s))
            by (bit_vector)
            requires
                s < e <= w <= 64,
                s + k == e,
                k < w,
                m == !(u64::MAX << k),
                below == !(u64::MAX << s),
                whole == (if w >= 64 {
                    u64::MAX
                } else {
                    !(u64::MAX << w)
                }),
                word & whole == word,
                left_shift == (if e < w {
                    (word >> e) << e
                } else {
                    0
                }),
        ;
    }
    left_shift | right_side | value_shift
}

/// Compares `word` with `pattern` where `wildcard` is clear: the bits in which
/// the two differ must all be covered by `wildcard`.
pub(crate) fn agree(word: u64, pattern: u64, wildcard: u64) -> (same: bool)
    ensures
        same == agrees(word, pattern, wildcard),
{
    let a: u64 = word ^ pattern;
    proof {
        lemma_agrees_is_covered_difference(word, pattern, wildcard);
    }
    wildcard & a == a
}

} // verus!

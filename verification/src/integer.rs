//! The integers whose bits can be read and written.

use crate::word::{fits, low_mask};
use vstd::layout::size_of;
use vstd::prelude::*;

verus! {

/// A fixed-width machine integer, seen as a row of bits.
///
/// The model of a value is its *pattern*: the two's-complement bits of the
/// value, zero-extended to 64 bits. Bit 0 of the pattern is the least
/// significant bit of the value. The contracts of this crate are stated over
/// patterns, so that they read the same for every width and for signed and
/// unsigned integers alike.
///
/// The trait is implemented for `u8`, `u16`, `u32`, `u64`, `i8`, `i16`, `i32`
/// and `i64`.
pub trait BitInt: Copy {
    /// The number of bits of the type.
    spec fn width() -> nat;

    /// The bits of `self`, zero-extended to 64 bits.
    spec fn pattern(self) -> u64;

    /// The value whose bits are the `width()` lowest bits of `bits`.
    spec fn from_pattern(bits: u64) -> Self;

    /// `self / rhs` as the type computes it: rounded toward zero, and wrapped
    /// around where the quotient does not fit.
    spec fn quotient(self, rhs: Self) -> Self;

    /// The width is one of 8, 16, 32 and 64, and it is the size of the type
    /// in memory.
    proof fn lemma_width()
        ensures
            Self::width() == 8 || Self::width() == 16 || Self::width() == 32 || Self::width() == 64,
            size_of::<Self>() * 8 == Self::width(),
    ;

    /// Every value is the value of its own pattern, and the pattern of the
    /// value made from 64 bits is the lowest `width()` of them.
    proof fn lemma_round_trip(value: Self, bits: u64)
        ensures
            Self::from_pattern(value.pattern()) == value,
            Self::from_pattern(bits).pattern() == bits & low_mask(Self::width()),
    ;

    /// Reads the pattern of `self`.
    fn to_bits(self) -> (bits: u64)
        ensures
            bits == self.pattern(),
    ;

    /// Makes the value whose bits are the lowest bits of `bits`.
    fn from_bits(bits: u64) -> (value: Self)
        ensures
            value == Self::from_pattern(bits),
    ;

    /// Divides at the width of the type.
    fn wrapping_quotient(self, rhs: Self) -> (q: Self)
        requires
            rhs.pattern() != 0,
        ensures
            q == self.quotient(rhs),
    ;
}

/// The quotient of `x` by `d`, rounded toward zero: the quotient of the two
/// magnitudes, negated where `x` and `d` differ in sign.
pub open spec fn truncated_quotient(x: int, d: int) -> int {
    let magnitude = (if x < 0 {
        -x
    } else {
        x
    }) / (if d < 0 {
        -d
    } else {
        d
    });
    if (x < 0) == (d < 0) {
        magnitude
    } else {
        -magnitude
    }
}

/// The pattern of a value has no bit set at the width of its type or above.
pub proof fn lemma_pattern_fits<T: BitInt>(value: T)
    ensures
        fits(value.pattern(), T::width()),
{
    T::lemma_round_trip(value, value.pattern());
}

/// A word that fits in the width of `T` is the pattern of the value made
/// from it.
pub proof fn lemma_pattern_of_fitting<T: BitInt>(bits: u64)
    requires
        fits(bits, T::width()),
    ensures
        T::from_pattern(bits).pattern() == bits,
{
    T::lemma_round_trip(T::from_pattern(bits), bits);
}

/// Two values with the same pattern are the same value.
pub proof fn lemma_pattern_is_injective<T: BitInt>(a: T, b: T)
    requires
        a.pattern() == b.pattern(),
    ensures
        a == b,
{
    T::lemma_round_trip(a, 0);
    T::lemma_round_trip(b, 0);
}

/// The number of bits in a value of type `T`.
pub fn num_bits<T>() -> (bits: usize)
    requires
        size_of::<T>() * 8 <= usize::MAX,
    ensures
        bits == size_of::<T>() * 8,
{
    core::mem::size_of::<T>() * 8
}

/// The width of `T`, computed.
pub(crate) fn width_of<T: BitInt>() -> (width: usize)
    ensures
        width == T::width(),
        width <= 64,
{
    proof {
        T::lemma_width();
    }
    num_bits::<T>()
}

impl BitInt for u8 {
    open spec fn width() -> nat {
        8
    }

    open spec fn pattern(self) -> u64 {
        self as u64
    }

    open spec fn from_pattern(bits: u64) -> Self {
        bits as u8
    }

    open spec fn quotient(self, rhs: Self) -> Self {
        self / rhs
    }

    proof fn lemma_width() {
        broadcast use vstd::layout::layout_of_primitives;

    }

    proof fn lemma_round_trip(value: Self, bits: u64) {
        assert((value as u64) as u8 == value && (bits as u8) as u64 == bits & !(u64::MAX
            << 8u64)) by (bit_vector);
    }

    fn to_bits(self) -> (bits: u64) {
        self as u64
    }

    fn from_bits(bits: u64) -> (value: Self) {
        bits as u8
    }

    fn wrapping_quotient(self, rhs: Self) -> (q: Self) {
        self / rhs
    }
}

impl BitInt for u16 {
    open spec fn width() -> nat {
        16
    }

    open spec fn pattern(self) -> u64 {
        self as u64
    }

    open spec fn from_pattern(bits: u64) -> Self {
        bits as u16
    }

    open spec fn quotient(self, rhs: Self) -> Self {
        self / rhs
    }

    proof fn lemma_width() {
        broadcast use vstd::layout::layout_of_primitives;

    }

    proof fn lemma_round_trip(value: Self, bits: u64) {
        assert((value as u64) as u16 == value && (bits as u16) as u64 == bits & !(u64::MAX
            << 16u64)) by (bit_vector);
    }

    fn to_bits(self) -> (bits: u64) {
        self as u64
    }

    fn from_bits(bits: u64) -> (value: Self) {
        bits as u16
    }

    fn wrapping_quotient(self, rhs: Self) -> (q: Self) {
        self / rhs
    }
}

impl BitInt for u32 {
    open spec fn width() -> nat {
        32
    }

    open spec fn pattern(self) -> u64 {
        self as u64
    }

    open spec fn from_pattern(bits: u64) -> Self {
        bits as u32
    }

    open spec fn quotient(self, rhs: Self) -> Self {
        self / rhs
    }

    proof fn lemma_width() {
        broadcast use vstd::layout::layout_of_primitives;

    }

    proof fn lemma_round_trip(value: Self, bits: u64) {
        assert((value as u64) as u32 == value && (bits as u32) as u64 == bits & !(u64::MAX
            << 32u64)) by (bit_vector);
    }

    fn to_bits(self) -> (bits: u64) {
        self as u64
    }

    fn from_bits(bits: u64) -> (value: Self) {
        bits as u32
    }

    fn wrapping_quotient(self, rhs: Self) -> (q: Self) {
        self / rhs
    }
}

impl BitInt for u64 {
    open spec fn width() -> nat {
        64
    }

    open spec fn pattern(self) -> u64 {
        self as u64
    }

    open spec fn from_pattern(bits: u64) -> Self {
        bits as u64
    }

    open spec fn quotient(self, rhs: Self) -> Self {
        self / rhs
    }

    proof fn lemma_width() {
        broadcast use vstd::layout::layout_of_primitives;

    }

    proof fn lemma_round_trip(value: Self, bits: u64) {
        assert(bits & u64::MAX == bits) by (bit_vector);
    }

    fn to_bits(self) -> (bits: u64) {
        self as u64
    }

    fn from_bits(bits: u64) -> (value: Self) {
        bits as u64
    }

    fn wrapping_quotient(self, rhs: Self) -> (q: Self) {
        self / rhs
    }
}

impl BitInt for i8 {
    open spec fn width() -> nat {
        8
    }

    open spec fn pattern(self) -> u64 {
        (self as u8) as u64
    }

    open spec fn from_pattern(bits: u64) -> Self {
        (bits as u8) as i8
    }

    open spec fn quotient(self, rhs: Self) -> Self {
        let q = truncated_quotient(self as int, rhs as int);
        if i8::MIN <= q <= i8::MAX {
            q as i8
        } else {
            i8::MIN
        }
    }

    proof fn lemma_width() {
        broadcast use vstd::layout::layout_of_primitives;

    }

    proof fn lemma_round_trip(value: Self, bits: u64) {
        assert((((value as u8) as u64) as u8) as i8 == value && (((bits as u8) as i8)
            as u8) as u64 == bits & !(u64::MAX << 8u64)) by (bit_vector);
    }

    fn to_bits(self) -> (bits: u64) {
        (self as u8) as u64
    }

    fn from_bits(bits: u64) -> (value: Self) {
        (bits as u8) as i8
    }

    fn wrapping_quotient(self, rhs: Self) -> (q: Self) {
        match self.checked_div(rhs) {
            Some(q) => q,
            None => i8::MIN,
        }
    }
}

impl BitInt for i16 {
    open spec fn width() -> nat {
        16
    }

    open spec fn pattern(self) -> u64 {
        (self as u16) as u64
    }

    open spec fn from_pattern(bits: u64) -> Self {
        (bits as u16) as i16
    }

    open spec fn quotient(self, rhs: Self) -> Self {
        let q = truncated_quotient(self as int, rhs as int);
        if i16::MIN <= q <= i16::MAX {
            q as i16
        } else {
            i16::MIN
        }
    }

    proof fn lemma_width() {
        broadcast use vstd::layout::layout_of_primitives;

    }

    proof fn lemma_round_trip(value: Self, bits: u64) {
        assert((((value as u16) as u64) as u16) as i16 == value && (((bits as u16) as i16)
            as u16) as u64 == bits & !(u64::MAX << 16u64)) by (bit_vector);
    }

    fn to_bits(self) -> (bits: u64) {
        (self as u16) as u64
    }

    fn from_bits(bits: u64) -> (value: Self) {
        (bits as u16) as i16
    }

    fn wrapping_quotient(self, rhs: Self) -> (q: Self) {
        match self.checked_div(rhs) {
            Some(q) => q,
            None => i16::MIN,
        }
    }
}

impl BitInt for i32 {
    open spec fn width() -> nat {
        32
    }

    open spec fn pattern(self) -> u64 {
        (self as u32) as u64
    }

    open spec fn from_pattern(bits: u64) -> Self {
        (bits as u32) as i32
    }

    open spec fn quotient(self, rhs: Self) -> Self {
        let q = truncated_quotient(self as int, rhs as int);
        if i32::MIN <= q <= i32::MAX {
            q as i32
        } else {
            i32::MIN
        }
    }

    proof fn lemma_width() {
        broadcast use vstd::layout::layout_of_primitives;

    }

    proof fn lemma_round_trip(value: Self, bits: u64) {
        assert((((value as u32) as u64) as u32) as i32 == value && (((bits as u32) as i32)
            as u32) as u64 == bits & !(u64::MAX << 32u64)) by (bit_vector);
    }

    fn to_bits(self) -> (bits: u64) {
        (self as u32) as u64
    }

    fn from_bits(bits: u64) -> (value: Self) {
        (bits as u32) as i32
    }

    fn wrapping_quotient(self, rhs: Self) -> (q: Self) {
        match self.checked_div(rhs) {
            Some(q) => q,
            None => i32::MIN,
        }
    }
}

impl BitInt for i64 {
    open spec fn width() -> nat {
        64
    }

    open spec fn pattern(self) -> u64 {
        self as u64
    }

    open spec fn from_pattern(bits: u64) -> Self {
        bits as i64
    }

    open spec fn quotient(self, rhs: Self) -> Self {
        let q = truncated_quotient(self as int, rhs as int);
        if i64::MIN <= q <= i64::MAX {
            q as i64
        } else {
            i64::MIN
        }
    }

    proof fn lemma_width() {
        broadcast use vstd::layout::layout_of_primitives;

    }

    proof fn lemma_round_trip(value: Self, bits: u64) {
        assert(((value as u64) as i64) == value && ((bits as i64) as u64) == bits & u64::MAX)
            by (bit_vector);
    }

    fn to_bits(self) -> (bits: u64) {
        self as u64
    }

    fn from_bits(bits: u64) -> (value: Self) {
        bits as i64
    }

    fn wrapping_quotient(self, rhs: Self) -> (q: Self) {
        match self.checked_div(rhs) {
            Some(q) => q,
            None => i64::MIN,
        }
    }
}

} // verus!

use bit_manipulator::{num_bits, BitInt};

#[test]
fn num_bits_is_the_width() {
    assert_eq!(num_bits::<u8>(), 8);
    assert_eq!(num_bits::<i8>(), 8);
    assert_eq!(num_bits::<u16>(), 16);
    assert_eq!(num_bits::<i16>(), 16);
    assert_eq!(num_bits::<u32>(), 32);
    assert_eq!(num_bits::<i32>(), 32);
    assert_eq!(num_bits::<u64>(), 64);
    assert_eq!(num_bits::<i64>(), 64);
}

#[test]
fn the_pattern_of_an_unsigned_value_is_the_value() {
    assert_eq!(BitInt::to_bits(0xA5u8), 0xA5);
    assert_eq!(BitInt::to_bits(0xBEEFu16), 0xBEEF);
    assert_eq!(BitInt::to_bits(0xDEAD_BEEFu32), 0xDEAD_BEEF);
    assert_eq!(BitInt::to_bits(u64::MAX), u64::MAX);
}

#[test]
fn the_pattern_of_a_signed_value_is_zero_extended() {
    assert_eq!(BitInt::to_bits(-1i8), 0xFF);
    assert_eq!(BitInt::to_bits(i8::MIN), 0x80);
    assert_eq!(BitInt::to_bits(-2i16), 0xFFFE);
    assert_eq!(BitInt::to_bits(-1i32), 0xFFFF_FFFF);
    assert_eq!(BitInt::to_bits(i64::MIN), 0x8000_0000_0000_0000);
    assert_eq!(BitInt::to_bits(5i64), 5);
}

#[test]
fn a_value_is_made_from_the_low_bits() {
    assert_eq!(<u8 as BitInt>::from_bits(0x1234), 0x34);
    assert_eq!(<i8 as BitInt>::from_bits(0x12FF), -1);
    assert_eq!(<i8 as BitInt>::from_bits(0x80), i8::MIN);
    assert_eq!(<u16 as BitInt>::from_bits(0xFFFF_0001), 1);
    assert_eq!(<i16 as BitInt>::from_bits(0x8000), i16::MIN);
    assert_eq!(<u32 as BitInt>::from_bits(u64::MAX), u32::MAX);
    assert_eq!(<i32 as BitInt>::from_bits(u64::MAX), -1);
    assert_eq!(<u64 as BitInt>::from_bits(u64::MAX), u64::MAX);
    assert_eq!(<i64 as BitInt>::from_bits(u64::MAX), -1);
}

#[test]
fn a_value_comes_back_from_its_pattern() {
    for v in [i8::MIN, -1, 0, 1, i8::MAX] {
        assert_eq!(<i8 as BitInt>::from_bits(BitInt::to_bits(v)), v);
    }
    for v in [i64::MIN, -1, 0, 1, i64::MAX] {
        assert_eq!(<i64 as BitInt>::from_bits(BitInt::to_bits(v)), v);
    }
    for v in [0u32, 1, 0x8000_0000, u32::MAX] {
        assert_eq!(<u32 as BitInt>::from_bits(BitInt::to_bits(v)), v);
    }
}

#[test]
fn the_quotient_rounds_toward_zero_and_wraps() {
    assert_eq!(BitInt::wrapping_quotient(7u8, 2), 3);
    assert_eq!(BitInt::wrapping_quotient(255u8, 255), 1);
    assert_eq!(BitInt::wrapping_quotient(-7i8, 2), -3);
    assert_eq!(BitInt::wrapping_quotient(7i16, -2), -3);
    assert_eq!(BitInt::wrapping_quotient(-7i32, -2), 3);
    assert_eq!(BitInt::wrapping_quotient(0i64, -5), 0);
    assert_eq!(BitInt::wrapping_quotient(i8::MIN, -1), i8::MIN);
    assert_eq!(BitInt::wrapping_quotient(i16::MIN, -1), i16::MIN);
    assert_eq!(BitInt::wrapping_quotient(i32::MIN, -1), i32::MIN);
    assert_eq!(BitInt::wrapping_quotient(i64::MIN, -1), i64::MIN);
    assert_eq!(BitInt::wrapping_quotient(i64::MIN, 1), i64::MIN);
}

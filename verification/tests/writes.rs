use bit_manipulator::{BitError, BitGetIndex, BitGetRange, BitManipulator, BitSetIndex, BitSetRange};

#[test]
fn set_bit_sets_and_clears() {
    let mut x: u8 = 0;
    assert_eq!(x.bits_mut().set_bit(0, 1), Ok(()));
    assert_eq!(x, 0b0000_0001);
    assert_eq!(x.bits_mut().set_bit(7, 1), Ok(()));
    assert_eq!(x, 0b1000_0001);
    assert_eq!(x.bits_mut().set_bit(7, 1), Ok(()));
    assert_eq!(x, 0b1000_0001);
    assert_eq!(x.bits_mut().set_bit(0, 0), Ok(()));
    assert_eq!(x, 0b1000_0000);
    assert_eq!(x.bits_mut().set_bit(3, 0), Ok(()));
    assert_eq!(x, 0b1000_0000);
}

#[test]
fn set_bit_ors_the_whole_operand_in() {
    let mut x: u8 = 0;
    x.bits_mut().set_bit(2, 0b11).unwrap();
    assert_eq!(x, 0b0000_1100);
    let mut y: u8 = 0;
    y.bits_mut().set_bit(7, 0b11).unwrap();
    assert_eq!(y, 0b1000_0000);
}

#[test]
fn set_bit_on_the_sign_bit() {
    let mut x: i8 = 0;
    x.bits_mut().set_bit(7, 1).unwrap();
    assert_eq!(x, i8::MIN);
    x.bits_mut().set_bit(7, 0).unwrap();
    assert_eq!(x, 0);
    let mut y: i64 = 0;
    y.bits_mut().set_bit(63, 1).unwrap();
    assert_eq!(y, i64::MIN);
}

#[test]
fn clear_bit_clears_one_bit() {
    let mut x: u32 = 0xfcffff60;
    assert_eq!(x.bits_mut().clear_bit(5), Ok(()));
    assert_eq!(x, 0xfcffff40);
    assert_eq!(x.bits_mut().clear_bit(5), Ok(()));
    assert_eq!(x, 0xfcffff40);
    assert_eq!(x.bits_mut().clear_bit(31), Ok(()));
    assert_eq!(x, 0x7cffff40);
}

#[test]
fn toggle_bit_inverts_one_bit() {
    let mut x: u32 = 0xfcffff40;
    assert_eq!(x.bits_mut().toggle_bit(5), Ok(()));
    assert_eq!(x, 0xfcffff60);
    assert_eq!(x.bits_mut().toggle_bit(0), Ok(()));
    assert_eq!(x, 0xfcffff61);
    let mut y: i16 = 0;
    y.bits_mut().toggle_bit(15).unwrap();
    assert_eq!(y, i16::MIN);
}

#[test]
fn set_writes_a_range() {
    let mut x: u16 = 0x1234;
    assert_eq!(x.bits_mut().set(4..8, 0xA), Ok(()));
    assert_eq!(x, 0x12A4);
    assert_eq!(x.bits_mut().set(0..4, 0), Ok(()));
    assert_eq!(x, 0x12A0);
    assert_eq!(x.bits_mut().set(4..12, 0xFF), Ok(()));
    assert_eq!(x, 0x1FF0);
}

#[test]
fn set_writes_a_range_that_ends_at_the_top() {
    let mut a: u8 = 0x0F;
    a.bits_mut().set(4..8, 0xA).unwrap();
    assert_eq!(a, 0xAF);
    let mut b: u32 = 0x0000_FFFF;
    b.bits_mut().set(28..32, 0b1011).unwrap();
    assert_eq!(b, 0xB000_FFFF);
    let mut c: u64 = 0x0123_4567_89AB_CDEF;
    c.bits_mut().set(60..64, 0xF).unwrap();
    assert_eq!(c, 0xF123_4567_89AB_CDEF);
    let mut d: i16 = 0x1234;
    d.bits_mut().set(12..16, 0xA).unwrap();
    assert_eq!(d, -24012);
}

#[test]
fn set_on_an_empty_range_changes_nothing() {
    let mut x: u32 = 0xDEAD_BEEF;
    assert_eq!(x.bits_mut().set(0..0, 0xFFFF_FFFF), Ok(()));
    assert_eq!(x, 0xDEAD_BEEF);
    assert_eq!(x.bits_mut().set(13..13, 0xFFFF_FFFF), Ok(()));
    assert_eq!(x, 0xDEAD_BEEF);
    assert_eq!(x.bits_mut().set(32..32, 0xFFFF_FFFF), Ok(()));
    assert_eq!(x, 0xDEAD_BEEF);
}

#[test]
fn set_on_the_whole_width_replaces_the_value() {
    let mut a: u8 = 0x5A;
    a.bits_mut().set(0..8, 0xC3).unwrap();
    assert_eq!(a, 0xC3);
    let mut b: u64 = 1;
    b.bits_mut().set(0..64, u64::MAX).unwrap();
    assert_eq!(b, u64::MAX);
    let mut c: i32 = 7;
    c.bits_mut().set(0..32, -7).unwrap();
    assert_eq!(c, -7);
    let mut d: i64 = -1;
    d.bits_mut().set(0..64, i64::MIN).unwrap();
    assert_eq!(d, i64::MIN);
}

#[test]
fn set_drops_the_bits_the_range_has_no_room_for() {
    let mut x: u32 = 0;
    x.bits_mut().set(4..8, 0x1FF).unwrap();
    assert_eq!(x, 0xF0);
    let mut y: u8 = 0b1100_0011;
    y.bits_mut().set(2..4, 0b1111_1110).unwrap();
    assert_eq!(y, 0b1100_1011);
    let mut z: i8 = 0;
    z.bits_mut().set(0..4, -1).unwrap();
    assert_eq!(z, 0x0F);
}

#[test]
fn set_keeps_the_bits_outside_the_range() {
    let mut x: u64 = u64::MAX;
    x.bits_mut().set(8..56, 0).unwrap();
    assert_eq!(x, 0xFF00_0000_0000_00FF);
    let mut y: i32 = -1;
    y.bits_mut().set(0..8, 0).unwrap();
    assert_eq!(y, -256);
}

#[test]
fn writes_reject_what_lies_beyond_the_width() {
    let mut x: u16 = 0xBEEF;
    assert_eq!(x.bits_mut().set_bit(16, 1), Err(BitError::BitIndexOutOfRange));
    assert_eq!(x.bits_mut().clear_bit(16), Err(BitError::BitIndexOutOfRange));
    assert_eq!(x.bits_mut().toggle_bit(16), Err(BitError::BitIndexOutOfRange));
    assert_eq!(x.bits_mut().set(12..17, 0), Err(BitError::BitIndexOutOfRange));
    assert_eq!(x.bits_mut().set(17..17, 0), Err(BitError::BitIndexOutOfRange));
    assert_eq!(x, 0xBEEF);
    let mut y: i64 = -5;
    assert_eq!(y.bits_mut().set_bit(64, 1), Err(BitError::BitIndexOutOfRange));
    assert_eq!(y.bits_mut().clear_bit(64), Err(BitError::BitIndexOutOfRange));
    assert_eq!(y.bits_mut().toggle_bit(64), Err(BitError::BitIndexOutOfRange));
    assert_eq!(y.bits_mut().set(0..65, 0), Err(BitError::BitIndexOutOfRange));
    assert_eq!(y, -5);
}

#[test]
fn writes_reject_a_range_that_ends_before_it_starts() {
    let mut x: u32 = 0x1234_5678;
    let backwards = std::ops::Range { start: 20, end: 10 };
    assert_eq!(x.bits_mut().set(backwards, 0), Err(BitError::BitIndexOutOfRange));
    assert_eq!(x, 0x1234_5678);
}

#[test]
fn a_write_goes_to_the_integer_at_once() {
    let mut x: u8 = 0;
    {
        let mut accessor = x.bits_mut();
        accessor.set(0..4, 0x5).unwrap();
        assert_eq!(accessor.get(0..4), Ok(0x5));
        assert_eq!(*accessor.value, 0x05);
        accessor.set_bit(7, 1).unwrap();
        assert_eq!(accessor.get_bit(7), Ok(true));
        accessor.toggle_bit(0).unwrap();
    }
    assert_eq!(x, 0x84);
}

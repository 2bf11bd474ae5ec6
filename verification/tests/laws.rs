use bit_manipulator::{BitGetIndex, BitGetRange, BitManipulator, BitSetIndex, BitSetRange};

const SAMPLES_U8: [u8; 6] = [0x00, 0xFF, 0xA5, 0x5A, 0x80, 0x01];
const SAMPLES_I16: [i16; 6] = [0, -1, i16::MIN, i16::MAX, 0x1234, -0x1234];
const SAMPLES_U64: [u64; 5] = [0, u64::MAX, 0x0123_4567_89AB_CDEF, 1 << 63, 1];

#[test]
fn a_set_bit_reads_as_set() {
    for v in SAMPLES_U8 {
        for i in 0..8 {
            let mut x = v;
            x.bits_mut().set_bit(i, 1).unwrap();
            assert_eq!(x.bits().get_bit(i), Ok(true));
            x.bits_mut().set_bit(i, 0).unwrap();
            assert_eq!(x.bits().get_bit(i), Ok(false));
        }
    }
    for v in SAMPLES_I16 {
        for i in 0..16 {
            let mut x = v;
            x.bits_mut().set_bit(i, 1).unwrap();
            assert_eq!(x.bits().get_bit(i), Ok(true));
            x.bits_mut().set_bit(i, 0).unwrap();
            assert_eq!(x.bits().get_bit(i), Ok(false));
        }
    }
    for v in SAMPLES_U64 {
        for i in 0..64 {
            let mut x = v;
            x.bits_mut().set_bit(i, 1).unwrap();
            assert_eq!(x.bits().get_bit(i), Ok(true));
            x.bits_mut().set_bit(i, 0).unwrap();
            assert_eq!(x.bits().get_bit(i), Ok(false));
        }
    }
}

#[test]
fn a_cleared_bit_reads_as_clear() {
    for v in SAMPLES_I16 {
        for i in 0..16 {
            let mut x = v;
            x.bits_mut().clear_bit(i).unwrap();
            assert_eq!(x.bits().get_bit(i), Ok(false));
        }
    }
}

#[test]
fn a_bit_toggled_twice_is_restored() {
    for v in SAMPLES_U8 {
        for i in 0..8 {
            let mut x = v;
            x.bits_mut().toggle_bit(i).unwrap();
            assert_ne!(x, v);
            x.bits_mut().toggle_bit(i).unwrap();
            assert_eq!(x, v);
        }
    }
    for v in SAMPLES_I16 {
        for i in 0..16 {
            let mut x = v;
            x.bits_mut().toggle_bit(i).unwrap();
            assert_ne!(x, v);
            x.bits_mut().toggle_bit(i).unwrap();
            assert_eq!(x, v);
        }
    }
    for v in SAMPLES_U64 {
        for i in 0..64 {
            let mut x = v;
            x.bits_mut().toggle_bit(i).unwrap();
            x.bits_mut().toggle_bit(i).unwrap();
            assert_eq!(x, v);
        }
    }
}

#[test]
fn a_range_reads_back_what_was_written() {
    for v in SAMPLES_U8 {
        for start in 0..=8usize {
            for end in start..=8usize {
                let size = end - start;
                let limit: u16 = 1 << size;
                let mut payload: u16 = 0;
                while payload < limit {
                    let mut x = v;
                    x.bits_mut().set(start..end, payload as u8).unwrap();
                    assert_eq!(x.bits().get(start..end), Ok(payload as u8));
                    payload += 1;
                }
            }
        }
    }
}

#[test]
fn a_range_of_a_signed_integer_reads_back_what_was_written() {
    for v in SAMPLES_I16 {
        for start in 0..=16usize {
            for end in start..=16usize {
                let size = end - start;
                if size == 16 {
                    for payload in SAMPLES_I16 {
                        let mut x = v;
                        x.bits_mut().set(start..end, payload).unwrap();
                        assert_eq!(x.bits().get(start..end), Ok(payload));
                    }
                } else {
                    let top: i16 = ((1i32 << size) - 1) as i16;
                    for payload in [0, top, top / 2, top / 3] {
                        let mut x = v;
                        x.bits_mut().set(start..end, payload).unwrap();
                        assert_eq!(x.bits().get(start..end), Ok(payload));
                    }
                }
            }
        }
    }
}

#[test]
fn a_range_of_64_bits_reads_back_what_was_written() {
    for v in SAMPLES_U64 {
        let ranges =
            [(0usize, 64usize), (0, 63), (1, 64), (32, 64), (63, 64), (64, 64), (0, 0), (20, 44)];
        for (start, end) in ranges {
            let size = end - start;
            let top: u64 = if size == 64 { u64::MAX } else { (1u64 << size) - 1 };
            for payload in [0, top, top / 2, top / 3] {
                let mut x = v;
                x.bits_mut().set(start..end, payload).unwrap();
                assert_eq!(x.bits().get(start..end), Ok(payload));
            }
        }
    }
}

#[test]
fn a_write_changes_no_bit_outside_the_range() {
    for v in SAMPLES_U8 {
        for start in 0..=8usize {
            for end in start..=8usize {
                for payload in SAMPLES_U8 {
                    let mut x = v;
                    x.bits_mut().set(start..end, payload).unwrap();
                    for i in 0..8usize {
                        let now = x.bits().get_bit(i).unwrap();
                        if start <= i && i < end {
                            assert_eq!(now, payload.bits().get_bit(i - start).unwrap());
                        } else {
                            assert_eq!(now, v.bits().get_bit(i).unwrap());
                        }
                    }
                }
            }
        }
    }
}

#[test]
fn a_read_gives_the_bits_of_the_range_and_zeros_above() {
    for v in SAMPLES_I16 {
        for start in 0..=16usize {
            for end in start..=16usize {
                let got = v.bits().get(start..end).unwrap();
                for k in 0..16usize {
                    let bit = got.bits().get_bit(k).unwrap();
                    if k < end - start {
                        assert_eq!(bit, v.bits().get_bit(start + k).unwrap());
                    } else {
                        assert!(!bit);
                    }
                }
            }
        }
    }
}

#[test]
fn first_and_last_are_reads_of_the_two_ends() {
    for v in SAMPLES_U64 {
        for n in 0..=64usize {
            assert_eq!(v.bits().first(n), v.bits().get(0..n));
            assert_eq!(v.bits().last(n), v.bits().get(64 - n..64));
            let mask = if n == 64 { u64::MAX } else { (1u64 << n) - 1 };
            assert_eq!(v.bits().first(n), Ok(v & mask));
            let shifted = if n == 0 { 0 } else { v >> (64 - n) };
            assert_eq!(v.bits().last(n), Ok(shifted));
        }
    }
}

#[test]
fn compare_holds_exactly_where_the_masked_values_are_equal() {
    for v in SAMPLES_U8 {
        for m in SAMPLES_U8 {
            for w in SAMPLES_U8 {
                for (start, end) in [(0usize, 8usize), (0, 4), (4, 8), (2, 7), (3, 3)] {
                    let field = v.bits().get(start..end).unwrap();
                    let expected = (field & !w) == (m & !w);
                    assert_eq!(v.bits().compare(start..end, m, w), Ok(expected));
                }
            }
        }
    }
}

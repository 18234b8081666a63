use guitar_gamepad::{get_bit_u8, set_bit_u8};

#[test]
fn set_bit_sets_only_that_bit() {
    let mut v: u8 = 0b1010_0000;
    set_bit_u8(&mut v, 2, true);
    assert_eq!(v, 0b1010_0100);
}

#[test]
fn set_bit_clears_only_that_bit() {
    let mut v: u8 = 0b1111_1111;
    set_bit_u8(&mut v, 7, false);
    assert_eq!(v, 0b0111_1111);
    set_bit_u8(&mut v, 0, false);
    assert_eq!(v, 0b0111_1110);
}

#[test]
fn set_bit_twice_is_idempotent() {
    for start in 0..=255u8 {
        for bit in 0..8u8 {
            for state in [false, true] {
                let mut once = start;
                set_bit_u8(&mut once, bit, state);
                let mut twice = once;
                set_bit_u8(&mut twice, bit, state);
                assert_eq!(once, twice);
                assert_eq!(get_bit_u8(once, bit), state);
                for other in 0..8u8 {
                    if other != bit {
                        assert_eq!(get_bit_u8(once, other), get_bit_u8(start, other));
                    }
                }
            }
        }
    }
}

#[test]
fn get_bit_reads_each_position() {
    let v: u8 = 0b1000_0101;
    assert!(get_bit_u8(v, 0));
    assert!(!get_bit_u8(v, 1));
    assert!(get_bit_u8(v, 2));
    assert!(!get_bit_u8(v, 6));
    assert!(get_bit_u8(v, 7));
}

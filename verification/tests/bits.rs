use remote_id::bits::{bitmask, get_bits, put_bits};

#[test]
fn test_get_bits_trivial() {
    assert_eq!(get_bits(0b0000, 1, 0), 0);
    assert_eq!(get_bits(0b0000, 2, 0), 0);
    assert_eq!(get_bits(0b0000, 3, 0), 0);
    assert_eq!(get_bits(0b0000, 4, 0), 0);
}

#[test]
fn test_get_bits_all_ones() {
    assert_eq!(get_bits(0b1111, 0, 0), 1);
    assert_eq!(get_bits(0b1111, 1, 0), 3);
    assert_eq!(get_bits(0b1111, 2, 0), 7);
    assert_eq!(get_bits(0b1111, 3, 0), 15);

    assert_eq!(get_bits(0b1111, 1, 1), 1);
    assert_eq!(get_bits(0b1111, 2, 1), 3);
    assert_eq!(get_bits(0b1111, 3, 1), 7);

    assert_eq!(get_bits(0b1111, 2, 2), 1);
    assert_eq!(get_bits(0b1111, 3, 2), 3);

    assert_eq!(get_bits(0b1111_1111, 3, 3), 1);
    assert_eq!(get_bits(0b1111_1111, 4, 3), 3);
    assert_eq!(get_bits(0b1111_1111, 5, 3), 7);

    assert_eq!(get_bits(0b1111_1111, 7, 7), 1);
    assert_eq!(get_bits(0b1111_1111, 8, 8), 0);
    assert_eq!(get_bits(0b1111_1111, 9, 8), 0);
}

#[test]
fn test_get_bits_x() {
    let n: u32 = 0b0001_1100;
    assert_eq!(get_bits(n, 4, 2), (n & 0b0001_1100) >> 2);

    let n: u32 = 34;
    assert_eq!(get_bits(n, 7, 3), (n & 0b1111_1000) >> 3);
}

#[test]
fn test_bitmask_from_0() {
    assert_eq!(bitmask(0, 0), 1);
    assert_eq!(bitmask(0, 1), 3);
    assert_eq!(bitmask(0, 2), 7);
    assert_eq!(bitmask(0, 3), 15);
    assert_eq!(bitmask(0, 4), 31);
    assert_eq!(bitmask(0, 5), 63);
    assert_eq!(bitmask(0, 6), 127);
    assert_eq!(bitmask(0, 7), 255);
}

#[test]
fn test_bitmask_one_bit() {
    assert_eq!(bitmask(1, 1), 2);
    assert_eq!(bitmask(2, 2), 4);
    assert_eq!(bitmask(3, 3), 8);
    assert_eq!(bitmask(4, 4), 16);
    assert_eq!(bitmask(5, 5), 32);
}

#[test]
fn test_bitmask_two_bits() {
    assert_eq!(bitmask(1, 2), 6);
    assert_eq!(bitmask(2, 3), 12);
    assert_eq!(bitmask(3, 4), 24);
    assert_eq!(bitmask(4, 5), 48);
}

#[test]
fn test_bitmask_three_bits() {
    assert_eq!(bitmask(1, 3), 14);
    assert_eq!(bitmask(2, 4), 28);
    assert_eq!(bitmask(3, 5), 56);
    assert_eq!(bitmask(4, 6), 112);
}

#[test]
fn test_bitmask_xxx() {
    let p = bitmask(0, 3);
    println!("{:?}", p);
}

#[test]
fn test_bitmask_full_width() {
    assert_eq!(bitmask(0, 31), u32::MAX);
    assert_eq!(bitmask(31, 31), 0x8000_0000);
}

#[test]
fn test_put_bits_inserts_field() {
    assert_eq!(put_bits(0, 5, 3, 4), 0b10_0000);
    assert_eq!(put_bits(0, 5, 3, 0b111), 0b11_1000);
    // Bits outside the range are preserved, high bits of the field dropped.
    assert_eq!(put_bits(0b1000_0001, 5, 3, 0b1111_0101), 0b1010_1001);
    assert_eq!(put_bits(0xFFFF_FFFF, 3, 0, 0), 0xFFFF_FFF0);
}

#[test]
fn test_put_bits_then_get_bits() {
    let packed = put_bits(put_bits(put_bits(0, 7, 6, 2), 5, 3, 5), 2, 0, 3);
    assert_eq!(get_bits(packed, 7, 6), 2);
    assert_eq!(get_bits(packed, 5, 3), 5);
    assert_eq!(get_bits(packed, 2, 0), 3);
}

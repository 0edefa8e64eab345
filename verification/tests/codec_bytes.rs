//! Byte encodings of scalar samples, checked against the standard library's
//! own integer byte conversions.

use sample_block::Block;
use sample_block::Sample;
use sample_block::Type;

#[test]
fn u8_bytes_match_std() {
    assert_eq!(0xabu8.be_bytes(), 0xabu8.to_be_bytes().to_vec());
    assert_eq!(0xabu8.le_bytes(), 0xabu8.to_le_bytes().to_vec());
    assert_eq!(0xabu8.ne_bytes(), 0xabu8.to_ne_bytes().to_vec());
}

#[test]
fn u16_bytes_match_std() {
    for x in [0u16, 1, 0x1234, 0xfffe, u16::MAX] {
        assert_eq!(x.be_bytes(), x.to_be_bytes().to_vec());
        assert_eq!(x.le_bytes(), x.to_le_bytes().to_vec());
        assert_eq!(x.ne_bytes(), x.to_ne_bytes().to_vec());
    }
}

#[test]
fn u32_bytes_match_std() {
    for x in [0u32, 1, 0xdead_beef, u32::MAX] {
        assert_eq!(x.be_bytes(), x.to_be_bytes().to_vec());
        assert_eq!(x.le_bytes(), x.to_le_bytes().to_vec());
        assert_eq!(x.ne_bytes(), x.to_ne_bytes().to_vec());
    }
}

#[test]
fn u64_bytes_match_std() {
    for x in [0u64, 1, 0x0123_4567_89ab_cdef, u64::MAX] {
        assert_eq!(x.be_bytes(), x.to_be_bytes().to_vec());
        assert_eq!(x.le_bytes(), x.to_le_bytes().to_vec());
        assert_eq!(x.ne_bytes(), x.to_ne_bytes().to_vec());
    }
}

#[test]
fn i8_bytes_match_std() {
    for x in [0i8, 1, -1, -128, 127] {
        assert_eq!(x.be_bytes(), x.to_be_bytes().to_vec());
        assert_eq!(x.le_bytes(), x.to_le_bytes().to_vec());
        assert_eq!(x.ne_bytes(), x.to_ne_bytes().to_vec());
    }
}

#[test]
fn i16_bytes_match_std() {
    for x in [0i16, 1, -1, -2, 0x1234, i16::MIN, i16::MAX] {
        assert_eq!(x.be_bytes(), x.to_be_bytes().to_vec());
        assert_eq!(x.le_bytes(), x.to_le_bytes().to_vec());
        assert_eq!(x.ne_bytes(), x.to_ne_bytes().to_vec());
    }
}

#[test]
fn i32_bytes_match_std() {
    for x in [0i32, 1, -1, -123_456_789, i32::MIN, i32::MAX] {
        assert_eq!(x.be_bytes(), x.to_be_bytes().to_vec());
        assert_eq!(x.le_bytes(), x.to_le_bytes().to_vec());
        assert_eq!(x.ne_bytes(), x.to_ne_bytes().to_vec());
    }
}

#[test]
fn i64_bytes_match_std() {
    for x in [0i64, 1, -1, -0x0123_4567_89ab_cdef, i64::MIN, i64::MAX] {
        assert_eq!(x.be_bytes(), x.to_be_bytes().to_vec());
        assert_eq!(x.le_bytes(), x.to_le_bytes().to_vec());
        assert_eq!(x.ne_bytes(), x.to_ne_bytes().to_vec());
    }
}

#[test]
fn scalar_copy_bytes_match_owned_bytes() {
    let x: i16 = -2;
    assert_eq!(x.copy_to_be_bytes(), x.be_bytes());
    assert_eq!(x.copy_to_le_bytes(), x.le_bytes());
    assert_eq!(x.copy_to_ne_bytes(), x.ne_bytes());
}

#[test]
fn frame_bytes_concatenate_lanes() {
    let f: [u16; 2] = [0x1122, 0x3344];
    assert_eq!(f.copy_to_be_bytes(), vec![0x11, 0x22, 0x33, 0x44]);
    assert_eq!(f.copy_to_le_bytes(), vec![0x22, 0x11, 0x44, 0x33]);
}

#[test]
fn exact_digit_values() {
    assert_eq!(0x1234u16.be_bytes(), vec![0x12, 0x34]);
    assert_eq!(0x1234u16.le_bytes(), vec![0x34, 0x12]);
    assert_eq!((-2i16).le_bytes(), vec![0xfe, 0xff]);
    assert_eq!((-2i16).be_bytes(), vec![0xff, 0xfe]);
}

#[test]
fn block_native_order_matches_host() {
    let b = Block::from_vec(vec![0x1234u16, 0x5678]);
    let ne = b.copy_to_ne_bytes();
    let expected: Vec<u8> = [0x1234u16, 0x5678]
        .iter()
        .flat_map(|x| x.to_ne_bytes())
        .collect();
    assert_eq!(ne, expected);
    let le_host = u16::from_ne_bytes([0x34, 0x12]) == 0x1234;
    if le_host {
        assert_eq!(b.copy_to_ne_bytes(), b.copy_to_le_bytes());
    } else {
        assert_eq!(b.copy_to_ne_bytes(), b.copy_to_be_bytes());
    }
}

//! Channel-merge algorithms: truncating and padding policies, and the named
//! aliases.

use sample_block::build_2;
use sample_block::build_2_padding;
use sample_block::build_3;
use sample_block::build_3_padding;
use sample_block::build_4;
use sample_block::build_4_padding;
use sample_block::build_5;
use sample_block::build_5_padding;
use sample_block::build_6;
use sample_block::build_6_padding;
use sample_block::build_7;
use sample_block::build_7_padding;
use sample_block::build_8;
use sample_block::build_8_padding;
use sample_block::build_cube;
use sample_block::build_hexagonal;
use sample_block::build_mono;
use sample_block::build_octagonal;
use sample_block::build_stereo;
use sample_block::build_surround;

#[test]
fn stereo_truncates_to_shortest() {
    let r = build_stereo(&[1i16, 2, 3], &[4i16, 5]);
    assert_eq!(r.len(), 2);
    assert_eq!(*r.get(0), [1, 4]);
    assert_eq!(*r.get(1), [2, 5]);
}

#[test]
fn padding_extends_to_longest_with_defaults() {
    let r = build_2_padding(&[1i16, 2, 3], &[4i16, 5]);
    assert_eq!(r.len(), 3);
    assert_eq!(*r.get(0), [1, 4]);
    assert_eq!(*r.get(1), [2, 5]);
    assert_eq!(*r.get(2), [3, 0]);
}

#[test]
fn mono_copies_the_channel() {
    let r = build_mono(&[7u8, 8, 9]);
    assert_eq!(r.len(), 3);
    assert_eq!(*r.get(2), 9);
}

#[test]
fn two_channels_equal_length() {
    let r = build_2(&[1u32, 2], &[3u32, 4]);
    assert_eq!(r.len(), 2);
    assert_eq!(*r.get(0), [1, 3]);
    assert_eq!(*r.get(1), [2, 4]);
}

#[test]
fn three_channels_truncate_and_pad() {
    let t = build_3(&[1i32, 2], &[3i32], &[4i32, 5, 6]);
    assert_eq!(t.len(), 1);
    assert_eq!(*t.get(0), [1, 3, 4]);

    let p = build_3_padding(&[1i32, 2], &[3i32], &[4i32, 5, 6]);
    assert_eq!(p.len(), 3);
    assert_eq!(*p.get(0), [1, 3, 4]);
    assert_eq!(*p.get(1), [2, 0, 5]);
    assert_eq!(*p.get(2), [0, 0, 6]);
}

#[test]
fn surround_is_truncating() {
    let r = build_surround(&[1i16, 2], &[3i16], &[4i16, 5]);
    assert_eq!(r.len(), 1);
    assert_eq!(*r.get(0), [1, 3, 4]);
}

#[test]
fn four_and_five_channels() {
    let r = build_4(&[1u8, 9], &[2u8], &[3u8], &[4u8]);
    assert_eq!(r.len(), 1);
    assert_eq!(*r.get(0), [1, 2, 3, 4]);

    let p = build_4_padding(&[1u8], &[2u8, 9], &[3u8], &[4u8]);
    assert_eq!(p.len(), 2);
    assert_eq!(*p.get(1), [0, 9, 0, 0]);

    let r5 = build_5(&[1i64], &[2i64], &[3i64], &[4i64], &[5i64]);
    assert_eq!(*r5.get(0), [1, 2, 3, 4, 5]);

    let p5 = build_5_padding(&[1i64], &[2i64], &[3i64], &[4i64], &[5i64, 6]);
    assert_eq!(p5.len(), 2);
    assert_eq!(*p5.get(1), [0, 0, 0, 0, 6]);
}

#[test]
fn six_seven_eight_channels() {
    let r6 = build_6(&[1u16], &[2u16], &[3u16], &[4u16], &[5u16], &[6u16]);
    assert_eq!(*r6.get(0), [1, 2, 3, 4, 5, 6]);
    let h = build_hexagonal(&[1u16], &[2u16], &[3u16], &[4u16], &[5u16], &[6u16]);
    assert_eq!(*h.get(0), [1, 2, 3, 4, 5, 6]);
    let p6 = build_6_padding(&[1u16, 7], &[2u16], &[3u16], &[4u16], &[5u16], &[6u16]);
    assert_eq!(*p6.get(1), [7, 0, 0, 0, 0, 0]);

    let r7 = build_7(&[1i8], &[2i8], &[3i8], &[4i8], &[5i8], &[6i8], &[7i8]);
    assert_eq!(*r7.get(0), [1, 2, 3, 4, 5, 6, 7]);
    let p7 = build_7_padding(&[1i8], &[2i8], &[3i8], &[4i8], &[5i8], &[6i8], &[7i8, 8]);
    assert_eq!(*p7.get(1), [0, 0, 0, 0, 0, 0, 8]);

    let r8 = build_8(
        &[1u64],
        &[2u64],
        &[3u64],
        &[4u64],
        &[5u64],
        &[6u64],
        &[7u64],
        &[8u64],
    );
    assert_eq!(*r8.get(0), [1, 2, 3, 4, 5, 6, 7, 8]);
    let p8 = build_8_padding(
        &[1u64, 9],
        &[2u64],
        &[3u64],
        &[4u64],
        &[5u64],
        &[6u64],
        &[7u64],
        &[8u64],
    );
    assert_eq!(*p8.get(1), [9, 0, 0, 0, 0, 0, 0, 0]);
}

#[test]
fn octagonal_and_cube_are_truncating() {
    let o = build_octagonal(
        &[1u8, 9],
        &[2u8],
        &[3u8],
        &[4u8],
        &[5u8],
        &[6u8],
        &[7u8],
        &[8u8],
    );
    assert_eq!(o.len(), 1);
    assert_eq!(*o.get(0), [1, 2, 3, 4, 5, 6, 7, 8]);
    let c = build_cube(
        &[1u8, 9],
        &[2u8],
        &[3u8],
        &[4u8],
        &[5u8],
        &[6u8],
        &[7u8],
        &[8u8],
    );
    assert_eq!(c.len(), 1);
    assert_eq!(*c.get(0), [1, 2, 3, 4, 5, 6, 7, 8]);
}

#[test]
fn empty_inputs_truncate_to_empty() {
    let r = build_2::<i16>(&[], &[1, 2, 3]);
    assert_eq!(r.len(), 0);
    let p = build_2_padding::<i16>(&[], &[1, 2]);
    assert_eq!(p.len(), 2);
    assert_eq!(*p.get(0), [0, 1]);
    assert_eq!(*p.get(1), [0, 2]);
}

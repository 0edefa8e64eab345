//! Byte blocks: tagged serialization, direct construction, and decoding back
//! into typed blocks, including the round trip and the trailing partial
//! frame.

use sample_block::Block;
use sample_block::ByteBlock;

#[test]
fn from_block_big_endian_tags_and_bytes() {
    let b: Block<[u16; 2]> = Block::from_vec(vec![[0x1122, 0x3344]]);
    let bb = ByteBlock::from_block(true, &b);
    assert_eq!(bb.channel_size(), 2);
    assert_eq!(bb.byte_size(), 4);
    assert_eq!(bb.bit_depth(), 16);
    assert_eq!(bb.into_bytes(), vec![0x11, 0x22, 0x33, 0x44]);
}

#[test]
fn from_block_little_endian_bytes() {
    let b: Block<[u16; 2]> = Block::from_vec(vec![[0x1122, 0x3344]]);
    let bb = ByteBlock::from_block(false, &b);
    assert_eq!(bb.into_bytes(), vec![0x22, 0x11, 0x44, 0x33]);
}

#[test]
fn from_block_native_matches_host() {
    let b: Block<u32> = Block::from_vec(vec![0xdead_beef]);
    let bb = ByteBlock::from_block_native(&b);
    assert_eq!(bb.into_bytes(), 0xdead_beefu32.to_ne_bytes().to_vec());
}

#[test]
fn direct_construction_keeps_parts() {
    let bb = ByteBlock::new(2, 4, true, vec![1, 2, 3]);
    assert_eq!(bb.channel_size(), 2);
    assert_eq!(bb.byte_size(), 4);
    assert_eq!(bb.into_bytes(), vec![1, 2, 3]);
}

#[test]
fn round_trip_u16_little_endian() {
    let b: Block<u16> = Block::from_vec(vec![0x1234, 0x5678, 0x9abc]);
    let bb = ByteBlock::from_block(false, &b);
    let back: Block<u16> = bb.into_block(|s: &[u8]| u16::from_le_bytes([s[0], s[1]]));
    assert_eq!(back.len(), 3);
    assert_eq!(*back.get(0), 0x1234);
    assert_eq!(*back.get(1), 0x5678);
    assert_eq!(*back.get(2), 0x9abc);
}

#[test]
fn round_trip_i16_frames_big_endian() {
    let b: Block<[i16; 2]> = Block::from_vec(vec![[-2, 300], [7, -9]]);
    let bb = ByteBlock::from_block(true, &b);
    let back: Block<[i16; 2]> = bb.into_block(|s: &[u8]| {
        [
            i16::from_be_bytes([s[0], s[1]]),
            i16::from_be_bytes([s[2], s[3]]),
        ]
    });
    assert_eq!(back.len(), 2);
    assert_eq!(*back.get(0), [-2, 300]);
    assert_eq!(*back.get(1), [7, -9]);
}

#[test]
fn trailing_partial_frame_is_handed_to_the_decoder() {
    let bb = ByteBlock::new(1, 2, false, vec![0x01, 0x02, 0x03, 0x04, 0x05]);
    let back: Block<u16> = bb.into_block(|s: &[u8]| {
        if s.len() == 2 {
            u16::from_le_bytes([s[0], s[1]])
        } else {
            s[0] as u16
        }
    });
    assert_eq!(back.len(), 3);
    assert_eq!(*back.get(0), 0x0201);
    assert_eq!(*back.get(1), 0x0403);
    assert_eq!(*back.get(2), 0x0005);
}

#[test]
fn decode_empty_data_gives_empty_block() {
    let bb = ByteBlock::new(1, 2, false, Vec::new());
    let back: Block<u16> = bb.into_block(|s: &[u8]| u16::from_le_bytes([s[0], s[1]]));
    assert_eq!(back.len(), 0);
}

#[test]
fn decoder_sees_strides_in_order() {
    let bb = ByteBlock::new(1, 1, true, vec![9, 8, 7]);
    let back: Block<u8> = bb.into_block(|s: &[u8]| s[0]);
    assert_eq!(back.len(), 3);
    assert_eq!(*back.get(0), 9);
    assert_eq!(*back.get(1), 8);
    assert_eq!(*back.get(2), 7);
}

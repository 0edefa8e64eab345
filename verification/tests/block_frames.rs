//! Blocks of frames: size queries, serialization lengths, and the channel
//! iterator.

use sample_block::Block;
use sample_block::Sample;

#[test]
fn size_queries_follow_the_type() {
    let b: Block<[i16; 2]> = Block::from_vec(vec![[1, 2], [3, 4], [5, 6]]);
    assert_eq!(b.channel_size(), 2);
    assert_eq!(b.byte_size(), 4);
    assert_eq!(b.bit_depth(), 16);
    assert_eq!(b.len(), 3);

    let m: Block<u8> = Block::from_vec(vec![7, 8]);
    assert_eq!(m.channel_size(), 1);
    assert_eq!(m.byte_size(), 1);
    assert_eq!(m.bit_depth(), 8);
}

#[test]
fn byte_width_invariant_concrete() {
    let b: Block<[i32; 3]> = Block::from_vec(vec![[1, 2, 3], [4, 5, 6]]);
    assert_eq!(b.byte_size(), (b.channel_size() as usize) * core::mem::size_of::<i32>());
    assert_eq!(b.copy_to_be_bytes().len(), b.len() * b.byte_size());
    assert_eq!(b.copy_to_le_bytes().len(), b.len() * b.byte_size());
    assert_eq!(b.copy_to_ne_bytes().len(), b.len() * b.byte_size());
}

#[test]
fn serialization_concatenates_frames_in_order() {
    let b: Block<[u16; 2]> = Block::from_vec(vec![[0x1122, 0x3344], [0x5566, 0x7788]]);
    assert_eq!(
        b.copy_to_be_bytes(),
        vec![0x11, 0x22, 0x33, 0x44, 0x55, 0x66, 0x77, 0x88]
    );
    assert_eq!(
        b.copy_to_le_bytes(),
        vec![0x22, 0x11, 0x44, 0x33, 0x66, 0x55, 0x88, 0x77]
    );
}

#[test]
fn empty_block_serializes_to_nothing() {
    let b: Block<u32> = Block::new(16);
    assert_eq!(b.len(), 0);
    assert!(b.copy_to_be_bytes().is_empty());
    assert!(b.copy_to_le_bytes().is_empty());
    assert!(b.copy_to_ne_bytes().is_empty());
}

#[test]
fn into_ne_bytes_matches_copy() {
    let b: Block<i16> = Block::from_vec(vec![-2, 300]);
    let copied = b.copy_to_ne_bytes();
    assert_eq!(b.into_ne_bytes(), copied);
}

#[test]
fn push_append_and_get() {
    let mut b: Block<u8> = Block::new(0);
    b.push(1);
    b.push(2);
    b.append(Block::from_vec(vec![3, 4]));
    assert_eq!(b.len(), 4);
    assert_eq!(*b.get(0), 1);
    assert_eq!(*b.get(3), 4);
}

#[test]
fn from_slice_copies() {
    let data: [i16; 3] = [5, -6, 7];
    let b: Block<i16> = Block::from_slice(&data);
    assert_eq!(b.len(), 3);
    assert_eq!(*b.get(1), -6);
}

#[test]
fn channel_iter_projects_one_lane() {
    let b: Block<[i16; 2]> = Block::from_vec(vec![[1, 4], [2, 5], [3, 6]]);
    let mut it = b.channel_iter(1);
    let mut seen: Vec<i16> = Vec::new();
    while let Some(x) = it.next(|o: &[i16; 2], n: usize| o[n]) {
        seen.push(x);
    }
    assert_eq!(seen, vec![4, 5, 6]);
}

#[test]
fn channel_iter_out_of_range_yields_nothing() {
    let b: Block<[i16; 2]> = Block::from_vec(vec![[1, 4], [2, 5], [3, 6]]);
    let mut it = b.channel_iter(2);
    assert!(it.next(|o: &[i16; 2], _n: usize| o[0]).is_none());
    assert!(it.next(|o: &[i16; 2], _n: usize| o[0]).is_none());

    let mut far = b.channel_iter(99);
    assert!(far.next(|o: &[i16; 2], _n: usize| o[0]).is_none());
}

#[test]
fn channel_iter_exhausts_then_stays_empty() {
    let b: Block<u8> = Block::from_vec(vec![9]);
    let mut it = b.channel_iter(0);
    assert_eq!(it.next(|o: &u8, _n: usize| *o), Some(9));
    assert_eq!(it.next(|o: &u8, _n: usize| *o), None);
    assert_eq!(it.next(|o: &u8, _n: usize| *o), None);
}

#[test]
fn sample_trait_constants() {
    assert_eq!(<u8 as Sample>::channel_size(), 1);
    assert_eq!(<[i64; 8] as Sample>::channel_size(), 8);
    assert_eq!(<[i64; 8] as Sample>::byte_size(), 64);
    assert_eq!(<[u16; 5] as Sample>::byte_size(), 10);
}

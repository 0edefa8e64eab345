//! In-memory multi-channel audio sample buffers and their raw-byte encodings.
//!
//! A [`Block`] owns a growable sequence of samples; a sample is either a
//! scalar machine integer or a fixed-size frame of 2 to 8 such integers, one
//! per channel. Blocks serialize to byte buffers in big-endian, little-endian
//! or the host's native byte order, and a [`ByteBlock`] carries such bytes
//! together with the channel count, frame width and byte order they must be
//! interpreted with. Planar per-channel slices are merged into packed frame
//! blocks by the functions in [`merge`], under either a truncating or a
//! padding policy. A [`Whole`] pairs a block with an opaque sample rate.

pub mod block;
pub mod byte_block;
pub mod codec;
pub mod laws;
pub mod merge;
pub mod sample;
pub mod whole;

pub use block::Block;
pub use byte_block::decoded_from;
pub use block::ChannelIter;
pub use byte_block::ByteBlock;
pub use merge::build_2;
pub use merge::build_2_padding;
pub use merge::build_3;
pub use merge::build_3_padding;
pub use merge::build_4;
pub use merge::build_4_padding;
pub use merge::build_5;
pub use merge::build_5_padding;
pub use merge::build_6;
pub use merge::build_6_padding;
pub use merge::build_7;
pub use merge::build_7_padding;
pub use merge::build_8;
pub use merge::build_8_padding;
pub use merge::build_cube;
pub use merge::build_hexagonal;
pub use merge::build_mono;
pub use merge::build_octagonal;
pub use merge::build_stereo;
pub use merge::build_surround;
pub use sample::frames_rep;
pub use sample::Sample;
pub use sample::Type;
pub use whole::Whole;

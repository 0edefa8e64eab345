//! An owning byte buffer tagged with the channel count, frame width and byte
//! order it was produced with or must be interpreted with.

use crate::block::Block;
use crate::codec::host_endianness;
use crate::sample::frames_rep;
use crate::sample::Sample;
use vstd::arithmetic::div_mod::lemma_fundamental_div_mod;
use vstd::arithmetic::mul::lemma_mul_inequality;
use vstd::endian::endianness;
use vstd::endian::Endian;
use vstd::prelude::*;
use vstd::slice::slice_subrange;

verus! {

/// A byte array of samples. The tags are carried, never validated: the data
/// length need not be a multiple of the frame width, and a trailing partial
/// frame is preserved.
pub struct ByteBlock {
    channel_size: u16,
    byte_size: usize,
    big_endian: bool,
    data: Vec<u8>,
}

impl ByteBlock {
    /// The tagged channel count.
    pub closed spec fn spec_channel_size(self) -> u16 {
        self.channel_size
    }

    /// The tagged frame width in bytes.
    pub closed spec fn spec_byte_size(self) -> usize {
        self.byte_size
    }

    /// Whether the bytes are tagged as big-endian.
    pub closed spec fn spec_big_endian(self) -> bool {
        self.big_endian
    }

    /// The raw bytes held.
    pub closed spec fn data_seq(self) -> Seq<u8> {
        self.data@
    }

    /// Constructs a byte block directly from its parts; no consistency
    /// between the tags and the data length is checked.
    pub fn new(channel_size: u16, byte_size: usize, big_endian: bool, data: Vec<u8>) -> (r: Self)
        ensures
            r.spec_channel_size() == channel_size,
            r.spec_byte_size() == byte_size,
            r.spec_big_endian() == big_endian,
            r.data_seq() == data@,
    {
        ByteBlock { channel_size, byte_size, big_endian, data }
    }

    /// Serializes a block in the requested byte order and tags the result
    /// with the block's channel count and frame width.
    pub fn from_block<T: Sample>(big_endian: bool, o: &Block<T>) -> (r: Self)
        ensures
            r.spec_channel_size() as nat == T::spec_channel_size(),
            r.spec_byte_size() as nat == T::spec_byte_size(),
            r.spec_big_endian() == big_endian,
            r.data_seq() == frames_rep(
                o@,
                if big_endian {
                    Endian::Big
                } else {
                    Endian::Little
                },
            ),
    {
        let data = if big_endian {
            o.copy_to_be_bytes()
        } else {
            o.copy_to_le_bytes()
        };
        ByteBlock {
            channel_size: o.channel_size(),
            byte_size: o.byte_size(),
            big_endian,
            data,
        }
    }

    /// Serializes a block in the host's native byte order and tags the
    /// result accordingly.
    pub fn from_block_native<T: Sample>(o: &Block<T>) -> (r: Self)
        ensures
            r.spec_channel_size() as nat == T::spec_channel_size(),
            r.spec_byte_size() as nat == T::spec_byte_size(),
            r.spec_big_endian() == (endianness() == Endian::Big),
            r.data_seq() == frames_rep(o@, endianness()),
    {
        let big = match host_endianness() {
            Endian::Big => true,
            Endian::Little => false,
        };
        Self::from_block(big, o)
    }

    /// Returns the tagged channel count.
    pub fn channel_size(&self) -> (r: u16)
        ensures
            r == self.spec_channel_size(),
    {
        self.channel_size
    }

    /// Returns the tagged frame width in bytes.
    pub fn byte_size(&self) -> (r: usize)
        ensures
            r == self.spec_byte_size(),
    {
        self.byte_size
    }

    /// Returns the number of bits per channel lane implied by the tags.
    pub fn bit_depth(&self) -> (r: usize)
        requires
            self.spec_channel_size() >= 1,
            8 * (self.spec_byte_size() as int / self.spec_channel_size() as int) <= usize::MAX,
        ensures
            r == 8 * (self.spec_byte_size() as int / self.spec_channel_size() as int),
    {
        8 * (self.byte_size / (self.channel_size as usize))
    }

    /// Consumes the byte block, discarding the tags and yielding the bytes.
    pub fn into_bytes(self) -> (r: Vec<u8>)
        ensures
            r@ == self.data_seq(),
    {
        self.data
    }

    /// Deserializes the bytes back into a typed block: walks the data in
    /// strides of the tagged frame width and hands each stride to `f`, which
    /// produces one frame. A non-empty trailing stride shorter than the frame
    /// width is still handed to `f`, as a short slice.
    pub fn into_block<T: Sample>(self, f: impl Fn(&[u8]) -> T) -> (r: Block<T>)
        requires
            self.spec_byte_size() >= 1,
            forall|s: &[u8]|
                s@.len() == self.spec_byte_size() ==> #[trigger] call_requires(f, (s,)),
            self.data_seq().len() % (self.spec_byte_size() as nat) != 0 ==> forall|s: &[u8]|
                s@.len() == self.data_seq().len() % (self.spec_byte_size() as nat)
                    ==> #[trigger] call_requires(f, (s,)),
        ensures
            ({
                let bs = self.spec_byte_size() as int;
                let n = self.data_seq().len() as int;
                let full = n / bs;
                let rem = n % bs;
                &&& r@.len() == full + if rem == 0 {
                    0int
                } else {
                    1int
                }
                &&& forall|k: int|
                    0 <= k < full ==> #[trigger] decoded_from(
                        f,
                        self.data_seq().subrange(k * bs, (k + 1) * bs),
                        r@[k],
                    )
                &&& rem != 0 ==> decoded_from(f, self.data_seq().subrange(n - rem, n), r@[full])
            }),
    {
        let bs = self.byte_size;
        let len = self.data.len();
        let full = len / bs;
        let rem = len % bs;
        proof {
            lemma_fundamental_div_mod(len as int, bs as int);
        }
        let mut v: Vec<T> = Vec::new();
        let mut j: usize = 0;
        while j < full
            invariant
                bs == self.spec_byte_size(),
                bs >= 1,
                len == self.data_seq().len(),
                full == len as int / bs as int,
                len as int == bs * full + len as int % bs as int,
                0 <= len as int % bs as int,
                j <= full,
                v@.len() == j,
                forall|s: &[u8]|
                    s@.len() == self.spec_byte_size() ==> #[trigger] call_requires(f, (s,)),
                forall|k: int|
                    0 <= k < j ==> #[trigger] decoded_from(
                        f,
                        self.data_seq().subrange(k * (bs as int), (k + 1) * (bs as int)),
                        v@[k],
                    ),
            decreases full - j,
        {
            proof {
                lemma_mul_inequality(j as int + 1, full as int, bs as int);
                assert((j as int + 1) * (bs as int) == j as int * (bs as int) + bs as int)
                    by (nonlinear_arith);
                assert(full as int * (bs as int) == (bs as int) * (full as int))
                    by (nonlinear_arith);
            }
            let start = j * bs;
            let s = slice_subrange(self.data.as_slice(), start, start + bs);
            let t = f(s);
            let ghost vprev = v@;
            v.push(t);
            j = j + 1;
            proof {
                assert forall|k: int| 0 <= k < j implies #[trigger] decoded_from(
                    f,
                    self.data_seq().subrange(k * (bs as int), (k + 1) * (bs as int)),
                    v@[k],
                ) by {
                    if k == j - 1 {
                        assert(s@ == self.data_seq().subrange(
                            k * (bs as int),
                            (k + 1) * (bs as int),
                        ));
                        assert(call_ensures(f, (s,), v@[k]));
                    } else {
                        assert(v@[k] == vprev[k]);
                    }
                }
            }
        }
        if rem > 0 {
            let s = slice_subrange(self.data.as_slice(), len - rem, len);
            let t = f(s);
            let ghost vprev = v@;
            v.push(t);
            proof {
                assert(call_ensures(f, (s,), v@[full as int]));
                assert forall|k: int| 0 <= k < full implies #[trigger] decoded_from(
                    f,
                    self.data_seq().subrange(k * (bs as int), (k + 1) * (bs as int)),
                    v@[k],
                ) by {
                    assert(v@[k] == vprev[k]);
                }
            }
        }
        Block::from_vec(v)
    }
}

/// Holds when `t` is a possible result of the decoder `f` applied to a byte
/// slice holding exactly the bytes `c`.
pub open spec fn decoded_from<T, F: Fn(&[u8]) -> T>(f: F, c: Seq<u8>, t: T) -> bool {
    exists|s: &[u8]| s@ == c && #[trigger] call_ensures(f, (s,), t)
}

} // verus!

//! An owning, growable buffer of samples and its channel-wise iterator.

use crate::codec::host_endianness;
use crate::sample::frames_rep;
use crate::sample::Sample;
use crate::sample::Type;
use vstd::endian::endianness;
use vstd::endian::Endian;
use vstd::prelude::*;
use vstd::slice::slice_index_get;

verus! {

/// A contiguous growable block of samples. Its abstract value is the sequence
/// of its samples, in order.
pub struct Block<T>(Vec<T>);

impl<T> View for Block<T> {
    type V = Seq<T>;

    closed spec fn view(&self) -> Seq<T> {
        self.0@
    }
}

impl<T: Sample> Block<T> {
    /// Constructs a new, empty block with the specified capacity.
    pub fn new(n: usize) -> (r: Self)
        ensures
            r@ == Seq::<T>::empty(),
    {
        Block(Vec::with_capacity(n))
    }

    /// Constructs a block that owns the given samples.
    pub fn from_vec(data: Vec<T>) -> (r: Self)
        ensures
            r@ == data@,
    {
        Block(data)
    }

    /// Number of frames held.
    pub fn len(&self) -> (r: usize)
        ensures
            r == self@.len(),
    {
        self.0.len()
    }

    /// The `i`-th frame.
    pub fn get(&self, i: usize) -> (r: &T)
        requires
            i < self@.len(),
        ensures
            *r == self@[i as int],
    {
        &self.0[i]
    }

    /// Appends one frame at the end.
    pub fn push(&mut self, x: T)
        ensures
            final(self)@ == old(self)@.push(x),
    {
        self.0.push(x);
    }

    /// Moves all frames of `o` to the end of `self`.
    pub fn append(&mut self, o: Block<T>)
        ensures
            final(self)@ == old(self)@ + o@,
    {
        let mut v = o.0;
        self.0.append(&mut v);
    }

    /// Returns the channel count of the element type.
    pub fn channel_size(&self) -> (r: u16)
        ensures
            r as nat == T::spec_channel_size(),
    {
        T::channel_size()
    }

    /// Returns the byte width of one frame.
    pub fn byte_size(&self) -> (r: usize)
        ensures
            r as nat == T::spec_byte_size(),
    {
        T::byte_size()
    }

    /// Returns the number of bits per channel lane.
    pub fn bit_depth(&self) -> (r: usize)
        ensures
            r == 8 * (T::spec_byte_size() / T::spec_channel_size()),
    {
        proof {
            T::spec_properties();
            vstd::arithmetic::div_mod::lemma_div_nonincreasing(
                T::spec_byte_size() as int,
                T::spec_channel_size() as int,
            );
        }
        8 * (T::byte_size() / (T::channel_size() as usize))
    }

    /// Serializes every frame in order, in byte order `e`.
    fn copy_bytes(&self, e: Endian) -> (r: Vec<u8>)
        ensures
            r@ == frames_rep(self@, e),
    {
        let mut r: Vec<u8> = Vec::new();
        let mut i: usize = 0;
        while i < self.0.len()
            invariant
                i <= self@.len(),
                r@ == frames_rep(self@.take(i as int), e),
            decreases self@.len() - i,
        {
            let x: &T = &self.0[i];
            let mut b: Vec<u8> = match e {
                Endian::Big => x.copy_to_be_bytes(),
                Endian::Little => x.copy_to_le_bytes(),
            };
            r.append(&mut b);
            proof {
                assert(self@.take(i + 1).drop_last() =~= self@.take(i as int));
                assert(self@.take(i + 1).last() == self@[i as int]);
            }
            i = i + 1;
        }
        proof {
            assert(self@.take(self@.len() as int) =~= self@);
        }
        r
    }

    /// Copies `self` into a new byte vector in native byte order.
    pub fn copy_to_ne_bytes(&self) -> (r: Vec<u8>)
        ensures
            r@ == frames_rep(self@, endianness()),
    {
        self.copy_bytes(host_endianness())
    }

    /// Copies `self` into a new byte vector in big-endian byte order.
    pub fn copy_to_be_bytes(&self) -> (r: Vec<u8>)
        ensures
            r@ == frames_rep(self@, Endian::Big),
    {
        self.copy_bytes(Endian::Big)
    }

    /// Copies `self` into a new byte vector in little-endian byte order.
    pub fn copy_to_le_bytes(&self) -> (r: Vec<u8>)
        ensures
            r@ == frames_rep(self@, Endian::Little),
    {
        self.copy_bytes(Endian::Little)
    }

    /// Consumes the block and yields its bytes in native byte order.
    pub fn into_ne_bytes(self) -> (r: Vec<u8>)
        ensures
            r@ == frames_rep(self@, endianness()),
    {
        self.copy_bytes(host_endianness())
    }

    /// Returns a borrowing cursor over channel lane `n` of every frame.
    pub fn channel_iter(&self, n: usize) -> (r: ChannelIter<'_, T>)
        ensures
            r.elements() == self@,
            r.position() == 0,
            r.channel() == n,
            r.is_live() == (n < T::spec_channel_size()),
    {
        ChannelIter::new(self.0.as_slice(), n)
    }
}

impl<T: Type> Block<T> {
    /// Constructs a block by copying a borrowed slice of scalars.
    pub fn from_slice(o: &[T]) -> (r: Self)
        ensures
            r@ == o@,
    {
        let mut v: Vec<T> = Vec::new();
        let mut i: usize = 0;
        while i < o.len()
            invariant
                i <= o@.len(),
                v@ == o@.take(i as int),
            decreases o@.len() - i,
        {
            v.push(slice_index_get(o, i).dup());
            proof {
                assert(o@.take(i + 1) =~= o@.take(i as int).push(o@[i as int]));
            }
            i = i + 1;
        }
        proof {
            assert(o@.take(o@.len() as int) =~= o@);
        }
        Block(v)
    }
}

/// Immutable channel iterator: walks the frames of a block and hands a chosen
/// channel index alongside each frame to a caller-supplied projection. If the
/// requested channel index is out of range for the element type, it yields
/// nothing, ever.
pub struct ChannelIter<'a, T> {
    data: &'a [T],
    pos: usize,
    in_range: bool,
    chan: usize,
}

impl<'a, T: Sample> ChannelIter<'a, T> {
    /// The frames being walked.
    pub closed spec fn elements(self) -> Seq<T> {
        self.data@
    }

    /// How many frames have been yielded so far.
    pub closed spec fn position(self) -> nat {
        self.pos as nat
    }

    /// The requested channel index.
    pub closed spec fn channel(self) -> usize {
        self.chan
    }

    /// Whether the requested channel index is valid for the element type.
    pub closed spec fn is_live(self) -> bool {
        self.in_range
    }

    fn new(data: &'a [T], n: usize) -> (r: Self)
        ensures
            r.elements() == data@,
            r.position() == 0,
            r.channel() == n,
            r.is_live() == (n < T::spec_channel_size()),
    {
        proof {
            T::spec_properties();
        }
        let cs = T::channel_size();
        ChannelIter { data, pos: 0, in_range: n < (cs as usize), chan: n }
    }

    /// Advances the cursor and returns the projection applied to the next
    /// frame and the channel index, or `None` once the frames are exhausted
    /// or the channel index is out of range.
    pub fn next<U: Type>(&mut self, f: impl Fn(&T, usize) -> U) -> (r: Option<U>)
        requires
            old(self).is_live() && old(self).position() < old(self).elements().len()
                ==> call_requires(
                f,
                (&old(self).elements()[old(self).position() as int], old(self).channel()),
            ),
        ensures
            !(old(self).is_live() && old(self).position() < old(self).elements().len()) ==> r
                is None && *final(self) == *old(self),
            old(self).is_live() && old(self).position() < old(self).elements().len() ==> {
                &&& final(self).position() == old(self).position() + 1
                &&& final(self).elements() == old(self).elements()
                &&& final(self).channel() == old(self).channel()
                &&& final(self).is_live()
                &&& r is Some
                &&& call_ensures(
                    f,
                    (&old(self).elements()[old(self).position() as int], old(self).channel()),
                    r->Some_0,
                )
            },
    {
        if self.in_range && self.pos < self.data.len() {
            let x = slice_index_get(self.data, self.pos);
            let u = f(x, self.chan);
            self.pos = self.pos + 1;
            Some(u)
        } else {
            None
        }
    }
}

} // verus!

//! A typed block paired with a sample rate.

use crate::block::Block;
use crate::sample::Sample;
use vstd::prelude::*;

verus! {

/// A block of samples together with an opaque sample rate. The rate is
/// carried through unchanged; this library never interprets it.
pub struct Whole<T> {
    sample_rate: u32,
    data: Block<T>,
}

impl<T> View for Whole<T> {
    type V = Seq<T>;

    closed spec fn view(&self) -> Seq<T> {
        self.data@
    }
}

impl<T: Sample> Whole<T> {
    /// The sample rate the value was constructed with.
    pub closed spec fn spec_sample_rate(self) -> u32 {
        self.sample_rate
    }

    /// Constructs a new, empty whole with the specified capacity.
    pub fn new(sample_rate: u32, n: usize) -> (r: Self)
        ensures
            r@ == Seq::<T>::empty(),
            r.spec_sample_rate() == sample_rate,
    {
        Self::from_block(sample_rate, Block::new(n))
    }

    /// Constructs a whole from an existing block.
    pub fn from_block(sample_rate: u32, data: Block<T>) -> (r: Self)
        ensures
            r@ == data@,
            r.spec_sample_rate() == sample_rate,
    {
        Whole { sample_rate, data }
    }

    /// Appends the frames of `o` to the end of `self`; the sample rate is
    /// unchanged.
    pub fn add(&mut self, o: Block<T>)
        ensures
            final(self)@ == old(self)@ + o@,
            final(self).spec_sample_rate() == old(self).spec_sample_rate(),
    {
        self.data.append(o);
    }

    /// Returns the sample rate.
    pub fn sample_rate(&self) -> (r: u32)
        ensures
            r == self.spec_sample_rate(),
    {
        self.sample_rate
    }

    /// Borrows the underlying block.
    pub fn block(&self) -> (r: &Block<T>)
        ensures
            r@ == self@,
    {
        &self.data
    }

    /// Consumes the whole, dropping the sample rate and yielding the block.
    pub fn into_inner(self) -> (r: Block<T>)
        ensures
            r@ == self@,
    {
        self.data
    }
}

} // verus!

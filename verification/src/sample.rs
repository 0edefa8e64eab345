//! Sample-capable types: scalar machine integers and fixed-size channel frames.
//!
//! [`Type`] is implemented by the primitive integers and gives each one a
//! byte-order-parameterized byte representation, [`Type::byte_rep`]. [`Sample`]
//! generalizes it to whole frames: a scalar is a one-channel frame, and an
//! array of 2 to 8 scalars is a packed multi-channel frame whose encoding is
//! the concatenation of its lanes' encodings in lane order.

use crate::codec::be_bytes_of;
use crate::codec::digits;
use crate::codec::host_endianness;
use crate::codec::le_bytes_of;
use vstd::endian::endianness;
use vstd::endian::Endian;
use vstd::prelude::*;
use vstd::slice::slice_index_get;

verus! {

/// A fixed-width numeric type that can render itself as bytes in a chosen
/// byte order.
pub trait Type: Sized {
    /// Number of bytes in the representation.
    spec fn spec_width() -> nat;

    /// The byte representation in byte order `e`.
    spec fn byte_rep(self, e: Endian) -> Seq<u8>;

    /// The value used to pad missing lanes when merging channels.
    spec fn spec_default() -> Self;

    proof fn spec_properties()
        ensures
            forall|x: Self, e: Endian| (#[trigger] x.byte_rep(e)).len() == Self::spec_width(),
            1 <= Self::spec_width() <= 8,
    ;

    fn width() -> (r: usize)
        ensures
            r as nat == Self::spec_width(),
    ;

    fn dup(&self) -> (r: Self)
        ensures
            r == *self,
    ;

    fn default_val() -> (r: Self)
        ensures
            r == Self::spec_default(),
    ;

    /// The memory representation of `self` as bytes in native byte order.
    fn ne_bytes(self) -> (r: Vec<u8>)
        ensures
            r@ == self.byte_rep(endianness()),
    ;

    /// The memory representation of `self` as bytes in big-endian byte order.
    fn be_bytes(self) -> (r: Vec<u8>)
        ensures
            r@ == self.byte_rep(Endian::Big),
    ;

    /// The memory representation of `self` as bytes in little-endian byte order.
    fn le_bytes(self) -> (r: Vec<u8>)
        ensures
            r@ == self.byte_rep(Endian::Little),
    ;
}

/// One sample instant: either a scalar or a packed frame of 2 to 8 scalars.
pub trait Sample: Sized {
    /// Number of channel lanes packed in one value.
    spec fn spec_channel_size() -> nat;

    /// Number of bytes in one lane's representation.
    spec fn spec_lane_size() -> nat;

    /// Number of bytes in one whole value's representation.
    spec fn spec_byte_size() -> nat;

    /// The byte representation of the whole frame in byte order `e`: the
    /// concatenation of the lanes' representations in lane order.
    spec fn frame_rep(self, e: Endian) -> Seq<u8>;

    proof fn spec_properties()
        ensures
            forall|x: Self, e: Endian| (#[trigger] x.frame_rep(e)).len() == Self::spec_byte_size(),
            Self::spec_byte_size() == Self::spec_channel_size() * Self::spec_lane_size(),
            1 <= Self::spec_channel_size() <= 8,
            1 <= Self::spec_lane_size() <= 8,
            Self::spec_byte_size() <= 64,
    ;

    /// Number of channel lanes, as a value.
    fn channel_size() -> (r: u16)
        ensures
            r as nat == Self::spec_channel_size(),
    ;

    /// Number of bytes per frame, as a value.
    fn byte_size() -> (r: usize)
        ensures
            r as nat == Self::spec_byte_size(),
    ;

    /// Copies `self` into a new byte vector in native byte order.
    fn copy_to_ne_bytes(&self) -> (r: Vec<u8>)
        ensures
            r@ == self.frame_rep(endianness()),
    ;

    /// Copies `self` into a new byte vector in big-endian byte order.
    fn copy_to_be_bytes(&self) -> (r: Vec<u8>)
        ensures
            r@ == self.frame_rep(Endian::Big),
    ;

    /// Copies `self` into a new byte vector in little-endian byte order.
    fn copy_to_le_bytes(&self) -> (r: Vec<u8>)
        ensures
            r@ == self.frame_rep(Endian::Little),
    ;
}

impl Type for u8 {
    open spec fn spec_width() -> nat {
        1
    }

    open spec fn byte_rep(self, e: Endian) -> Seq<u8> {
        digits(self as nat, 1, e)
    }

    open spec fn spec_default() -> Self {
        0u8
    }

    proof fn spec_properties() {
    }

    fn width() -> usize {
        1
    }

    fn dup(&self) -> Self {
        *self
    }

    fn default_val() -> Self {
        0
    }

    fn ne_bytes(self) -> Vec<u8> {
        match host_endianness() {
            Endian::Big => self.be_bytes(),
            Endian::Little => self.le_bytes(),
        }
    }

    fn be_bytes(self) -> Vec<u8> {
        be_bytes_of(self as u64, 1)
    }

    fn le_bytes(self) -> Vec<u8> {
        le_bytes_of(self as u64, 1)
    }
}

impl Type for u16 {
    open spec fn spec_width() -> nat {
        2
    }

    open spec fn byte_rep(self, e: Endian) -> Seq<u8> {
        digits(self as nat, 2, e)
    }

    open spec fn spec_default() -> Self {
        0u16
    }

    proof fn spec_properties() {
    }

    fn width() -> usize {
        2
    }

    fn dup(&self) -> Self {
        *self
    }

    fn default_val() -> Self {
        0
    }

    fn ne_bytes(self) -> Vec<u8> {
        match host_endianness() {
            Endian::Big => self.be_bytes(),
            Endian::Little => self.le_bytes(),
        }
    }

    fn be_bytes(self) -> Vec<u8> {
        be_bytes_of(self as u64, 2)
    }

    fn le_bytes(self) -> Vec<u8> {
        le_bytes_of(self as u64, 2)
    }
}

impl Type for u32 {
    open spec fn spec_width() -> nat {
        4
    }

    open spec fn byte_rep(self, e: Endian) -> Seq<u8> {
        digits(self as nat, 4, e)
    }

    open spec fn spec_default() -> Self {
        0u32
    }

    proof fn spec_properties() {
    }

    fn width() -> usize {
        4
    }

    fn dup(&self) -> Self {
        *self
    }

    fn default_val() -> Self {
        0
    }

    fn ne_bytes(self) -> Vec<u8> {
        match host_endianness() {
            Endian::Big => self.be_bytes(),
            Endian::Little => self.le_bytes(),
        }
    }

    fn be_bytes(self) -> Vec<u8> {
        be_bytes_of(self as u64, 4)
    }

    fn le_bytes(self) -> Vec<u8> {
        le_bytes_of(self as u64, 4)
    }
}

impl Type for u64 {
    open spec fn spec_width() -> nat {
        8
    }

    open spec fn byte_rep(self, e: Endian) -> Seq<u8> {
        digits(self as nat, 8, e)
    }

    open spec fn spec_default() -> Self {
        0u64
    }

    proof fn spec_properties() {
    }

    fn width() -> usize {
        8
    }

    fn dup(&self) -> Self {
        *self
    }

    fn default_val() -> Self {
        0
    }

    fn ne_bytes(self) -> Vec<u8> {
        match host_endianness() {
            Endian::Big => self.be_bytes(),
            Endian::Little => self.le_bytes(),
        }
    }

    fn be_bytes(self) -> Vec<u8> {
        be_bytes_of(self, 8)
    }

    fn le_bytes(self) -> Vec<u8> {
        le_bytes_of(self, 8)
    }
}

impl Type for i8 {
    open spec fn spec_width() -> nat {
        1
    }

    /// A signed value's bytes are those of its two's-complement
    /// reinterpretation as the unsigned type of the same width.
    open spec fn byte_rep(self, e: Endian) -> Seq<u8> {
        digits((self as u8) as nat, 1, e)
    }

    open spec fn spec_default() -> Self {
        0i8
    }

    proof fn spec_properties() {
    }

    fn width() -> usize {
        1
    }

    fn dup(&self) -> Self {
        *self
    }

    fn default_val() -> Self {
        0
    }

    fn ne_bytes(self) -> Vec<u8> {
        match host_endianness() {
            Endian::Big => self.be_bytes(),
            Endian::Little => self.le_bytes(),
        }
    }

    fn be_bytes(self) -> Vec<u8> {
        be_bytes_of((#[verifier::truncate] (self as u8)) as u64, 1)
    }

    fn le_bytes(self) -> Vec<u8> {
        le_bytes_of((#[verifier::truncate] (self as u8)) as u64, 1)
    }
}

impl Type for i16 {
    open spec fn spec_width() -> nat {
        2
    }

    open spec fn byte_rep(self, e: Endian) -> Seq<u8> {
        digits((self as u16) as nat, 2, e)
    }

    open spec fn spec_default() -> Self {
        0i16
    }

    proof fn spec_properties() {
    }

    fn width() -> usize {
        2
    }

    fn dup(&self) -> Self {
        *self
    }

    fn default_val() -> Self {
        0
    }

    fn ne_bytes(self) -> Vec<u8> {
        match host_endianness() {
            Endian::Big => self.be_bytes(),
            Endian::Little => self.le_bytes(),
        }
    }

    fn be_bytes(self) -> Vec<u8> {
        be_bytes_of((#[verifier::truncate] (self as u16)) as u64, 2)
    }

    fn le_bytes(self) -> Vec<u8> {
        le_bytes_of((#[verifier::truncate] (self as u16)) as u64, 2)
    }
}

impl Type for i32 {
    open spec fn spec_width() -> nat {
        4
    }

    open spec fn byte_rep(self, e: Endian) -> Seq<u8> {
        digits((self as u32) as nat, 4, e)
    }

    open spec fn spec_default() -> Self {
        0i32
    }

    proof fn spec_properties() {
    }

    fn width() -> usize {
        4
    }

    fn dup(&self) -> Self {
        *self
    }

    fn default_val() -> Self {
        0
    }

    fn ne_bytes(self) -> Vec<u8> {
        match host_endianness() {
            Endian::Big => self.be_bytes(),
            Endian::Little => self.le_bytes(),
        }
    }

    fn be_bytes(self) -> Vec<u8> {
        be_bytes_of((#[verifier::truncate] (self as u32)) as u64, 4)
    }

    fn le_bytes(self) -> Vec<u8> {
        le_bytes_of((#[verifier::truncate] (self as u32)) as u64, 4)
    }
}

impl Type for i64 {
    open spec fn spec_width() -> nat {
        8
    }

    open spec fn byte_rep(self, e: Endian) -> Seq<u8> {
        digits((self as u64) as nat, 8, e)
    }

    open spec fn spec_default() -> Self {
        0i64
    }

    proof fn spec_properties() {
    }

    fn width() -> usize {
        8
    }

    fn dup(&self) -> Self {
        *self
    }

    fn default_val() -> Self {
        0
    }

    fn ne_bytes(self) -> Vec<u8> {
        match host_endianness() {
            Endian::Big => self.be_bytes(),
            Endian::Little => self.le_bytes(),
        }
    }

    fn be_bytes(self) -> Vec<u8> {
        be_bytes_of(#[verifier::truncate] (self as u64), 8)
    }

    fn le_bytes(self) -> Vec<u8> {
        le_bytes_of(#[verifier::truncate] (self as u64), 8)
    }
}

/// A scalar is a one-channel frame; its frame encoding is its own encoding.
impl<T: Type> Sample for T {
    open spec fn spec_channel_size() -> nat {
        1
    }

    open spec fn spec_lane_size() -> nat {
        T::spec_width()
    }

    open spec fn spec_byte_size() -> nat {
        T::spec_width()
    }

    open spec fn frame_rep(self, e: Endian) -> Seq<u8> {
        self.byte_rep(e)
    }

    proof fn spec_properties() {
        T::spec_properties();
        assert(1 * T::spec_width() == T::spec_width()) by (nonlinear_arith);
    }

    fn channel_size() -> u16 {
        1
    }

    fn byte_size() -> usize {
        T::width()
    }

    fn copy_to_ne_bytes(&self) -> Vec<u8> {
        self.dup().ne_bytes()
    }

    fn copy_to_be_bytes(&self) -> Vec<u8> {
        self.dup().be_bytes()
    }

    fn copy_to_le_bytes(&self) -> Vec<u8> {
        self.dup().le_bytes()
    }
}

/// Concatenation of the byte representations of a sequence of scalars, in
/// order, using byte order `e`.
pub open spec fn scalars_rep<T: Type>(s: Seq<T>, e: Endian) -> Seq<u8>
    decreases s.len(),
{
    if s.len() == 0 {
        Seq::empty()
    } else {
        scalars_rep(s.drop_last(), e) + s.last().byte_rep(e)
    }
}

pub proof fn lemma_scalars_rep_len<T: Type>(s: Seq<T>, e: Endian)
    ensures
        scalars_rep(s, e).len() == s.len() * T::spec_width(),
    decreases s.len(),
{
    T::spec_properties();
    if s.len() > 0 {
        lemma_scalars_rep_len(s.drop_last(), e);
        assert((s.len() - 1) * T::spec_width() + T::spec_width() == s.len() * T::spec_width())
            by (nonlinear_arith);
    }
}

/// Serializes a slice of scalars lane by lane in byte order `e`.
pub(crate) fn scalars_to_bytes<T: Type>(s: &[T], e: Endian) -> (r: Vec<u8>)
    ensures
        r@ == scalars_rep(s@, e),
{
    let mut r: Vec<u8> = Vec::new();
    let mut i: usize = 0;
    while i < s.len()
        invariant
            i <= s@.len(),
            r@ == scalars_rep(s@.take(i as int), e),
        decreases s@.len() - i,
    {
        let x: T = slice_index_get(s, i).dup();
        let mut b: Vec<u8> = match e {
            Endian::Big => x.be_bytes(),
            Endian::Little => x.le_bytes(),
        };
        r.append(&mut b);
        proof {
            assert(s@.take(i + 1).drop_last() =~= s@.take(i as int));
            assert(s@.take(i + 1).last() == s@[i as int]);
        }
        i = i + 1;
    }
    proof {
        assert(s@.take(s@.len() as int) =~= s@);
    }
    r
}

impl<T: Type> Sample for [T; 2] {
    open spec fn spec_channel_size() -> nat {
        2
    }

    open spec fn spec_lane_size() -> nat {
        T::spec_width()
    }

    open spec fn spec_byte_size() -> nat {
        2 * T::spec_width()
    }

    open spec fn frame_rep(self, e: Endian) -> Seq<u8> {
        scalars_rep(self@, e)
    }

    proof fn spec_properties() {
        T::spec_properties();
        assert forall|x: Self, e: Endian|
            (#[trigger] x.frame_rep(e)).len() == Self::spec_byte_size() by {
            lemma_scalars_rep_len(x@, e);
        }
    }

    fn channel_size() -> u16 {
        2
    }

    fn byte_size() -> usize {
        proof {
            T::spec_properties();
        }
        2 * T::width()
    }

    fn copy_to_ne_bytes(&self) -> Vec<u8> {
        scalars_to_bytes(self.as_slice(), host_endianness())
    }

    fn copy_to_be_bytes(&self) -> Vec<u8> {
        scalars_to_bytes(self.as_slice(), Endian::Big)
    }

    fn copy_to_le_bytes(&self) -> Vec<u8> {
        scalars_to_bytes(self.as_slice(), Endian::Little)
    }
}

impl<T: Type> Sample for [T; 3] {
    open spec fn spec_channel_size() -> nat {
        3
    }

    open spec fn spec_lane_size() -> nat {
        T::spec_width()
    }

    open spec fn spec_byte_size() -> nat {
        3 * T::spec_width()
    }

    open spec fn frame_rep(self, e: Endian) -> Seq<u8> {
        scalars_rep(self@, e)
    }

    proof fn spec_properties() {
        T::spec_properties();
        assert forall|x: Self, e: Endian|
            (#[trigger] x.frame_rep(e)).len() == Self::spec_byte_size() by {
            lemma_scalars_rep_len(x@, e);
        }
    }

    fn channel_size() -> u16 {
        3
    }

    fn byte_size() -> usize {
        proof {
            T::spec_properties();
        }
        3 * T::width()
    }

    fn copy_to_ne_bytes(&self) -> Vec<u8> {
        scalars_to_bytes(self.as_slice(), host_endianness())
    }

    fn copy_to_be_bytes(&self) -> Vec<u8> {
        scalars_to_bytes(self.as_slice(), Endian::Big)
    }

    fn copy_to_le_bytes(&self) -> Vec<u8> {
        scalars_to_bytes(self.as_slice(), Endian::Little)
    }
}

impl<T: Type> Sample for [T; 4] {
    open spec fn spec_channel_size() -> nat {
        4
    }

    open spec fn spec_lane_size() -> nat {
        T::spec_width()
    }

    open spec fn spec_byte_size() -> nat {
        4 * T::spec_width()
    }

    open spec fn frame_rep(self, e: Endian) -> Seq<u8> {
        scalars_rep(self@, e)
    }

    proof fn spec_properties() {
        T::spec_properties();
        assert forall|x: Self, e: Endian|
            (#[trigger] x.frame_rep(e)).len() == Self::spec_byte_size() by {
            lemma_scalars_rep_len(x@, e);
        }
    }

    fn channel_size() -> u16 {
        4
    }

    fn byte_size() -> usize {
        proof {
            T::spec_properties();
        }
        4 * T::width()
    }

    fn copy_to_ne_bytes(&self) -> Vec<u8> {
        scalars_to_bytes(self.as_slice(), host_endianness())
    }

    fn copy_to_be_bytes(&self) -> Vec<u8> {
        scalars_to_bytes(self.as_slice(), Endian::Big)
    }

    fn copy_to_le_bytes(&self) -> Vec<u8> {
        scalars_to_bytes(self.as_slice(), Endian::Little)
    }
}

impl<T: Type> Sample for [T; 5] {
    open spec fn spec_channel_size() -> nat {
        5
    }

    open spec fn spec_lane_size() -> nat {
        T::spec_width()
    }

    open spec fn spec_byte_size() -> nat {
        5 * T::spec_width()
    }

    open spec fn frame_rep(self, e: Endian) -> Seq<u8> {
        scalars_rep(self@, e)
    }

    proof fn spec_properties() {
        T::spec_properties();
        assert forall|x: Self, e: Endian|
            (#[trigger] x.frame_rep(e)).len() == Self::spec_byte_size() by {
            lemma_scalars_rep_len(x@, e);
        }
    }

    fn channel_size() -> u16 {
        5
    }

    fn byte_size() -> usize {
        proof {
            T::spec_properties();
        }
        5 * T::width()
    }

    fn copy_to_ne_bytes(&self) -> Vec<u8> {
        scalars_to_bytes(self.as_slice(), host_endianness())
    }

    fn copy_to_be_bytes(&self) -> Vec<u8> {
        scalars_to_bytes(self.as_slice(), Endian::Big)
    }

    fn copy_to_le_bytes(&self) -> Vec<u8> {
        scalars_to_bytes(self.as_slice(), Endian::Little)
    }
}

impl<T: Type> Sample for [T; 6] {
    open spec fn spec_channel_size() -> nat {
        6
    }

    open spec fn spec_lane_size() -> nat {
        T::spec_width()
    }

    open spec fn spec_byte_size() -> nat {
        6 * T::spec_width()
    }

    open spec fn frame_rep(self, e: Endian) -> Seq<u8> {
        scalars_rep(self@, e)
    }

    proof fn spec_properties() {
        T::spec_properties();
        assert forall|x: Self, e: Endian|
            (#[trigger] x.frame_rep(e)).len() == Self::spec_byte_size() by {
            lemma_scalars_rep_len(x@, e);
        }
    }

    fn channel_size() -> u16 {
        6
    }

    fn byte_size() -> usize {
        proof {
            T::spec_properties();
        }
        6 * T::width()
    }

    fn copy_to_ne_bytes(&self) -> Vec<u8> {
        scalars_to_bytes(self.as_slice(), host_endianness())
    }

    fn copy_to_be_bytes(&self) -> Vec<u8> {
        scalars_to_bytes(self.as_slice(), Endian::Big)
    }

    fn copy_to_le_bytes(&self) -> Vec<u8> {
        scalars_to_bytes(self.as_slice(), Endian::Little)
    }
}

impl<T: Type> Sample for [T; 7] {
    open spec fn spec_channel_size() -> nat {
        7
    }

    open spec fn spec_lane_size() -> nat {
        T::spec_width()
    }

    open spec fn spec_byte_size() -> nat {
        7 * T::spec_width()
    }

    open spec fn frame_rep(self, e: Endian) -> Seq<u8> {
        scalars_rep(self@, e)
    }

    proof fn spec_properties() {
        T::spec_properties();
        assert forall|x: Self, e: Endian|
            (#[trigger] x.frame_rep(e)).len() == Self::spec_byte_size() by {
            lemma_scalars_rep_len(x@, e);
        }
    }

    fn channel_size() -> u16 {
        7
    }

    fn byte_size() -> usize {
        proof {
            T::spec_properties();
        }
        7 * T::width()
    }

    fn copy_to_ne_bytes(&self) -> Vec<u8> {
        scalars_to_bytes(self.as_slice(), host_endianness())
    }

    fn copy_to_be_bytes(&self) -> Vec<u8> {
        scalars_to_bytes(self.as_slice(), Endian::Big)
    }

    fn copy_to_le_bytes(&self) -> Vec<u8> {
        scalars_to_bytes(self.as_slice(), Endian::Little)
    }
}

impl<T: Type> Sample for [T; 8] {
    open spec fn spec_channel_size() -> nat {
        8
    }

    open spec fn spec_lane_size() -> nat {
        T::spec_width()
    }

    open spec fn spec_byte_size() -> nat {
        8 * T::spec_width()
    }

    open spec fn frame_rep(self, e: Endian) -> Seq<u8> {
        scalars_rep(self@, e)
    }

    proof fn spec_properties() {
        T::spec_properties();
        assert forall|x: Self, e: Endian|
            (#[trigger] x.frame_rep(e)).len() == Self::spec_byte_size() by {
            lemma_scalars_rep_len(x@, e);
        }
    }

    fn channel_size() -> u16 {
        8
    }

    fn byte_size() -> usize {
        proof {
            T::spec_properties();
        }
        8 * T::width()
    }

    fn copy_to_ne_bytes(&self) -> Vec<u8> {
        scalars_to_bytes(self.as_slice(), host_endianness())
    }

    fn copy_to_be_bytes(&self) -> Vec<u8> {
        scalars_to_bytes(self.as_slice(), Endian::Big)
    }

    fn copy_to_le_bytes(&self) -> Vec<u8> {
        scalars_to_bytes(self.as_slice(), Endian::Little)
    }
}

/// Concatenation of the frame representations of a sequence of samples, in
/// order, using byte order `e`.
pub open spec fn frames_rep<T: Sample>(s: Seq<T>, e: Endian) -> Seq<u8>
    decreases s.len(),
{
    if s.len() == 0 {
        Seq::empty()
    } else {
        frames_rep(s.drop_last(), e) + s.last().frame_rep(e)
    }
}

pub proof fn lemma_frames_rep_len<T: Sample>(s: Seq<T>, e: Endian)
    ensures
        frames_rep(s, e).len() == s.len() * T::spec_byte_size(),
    decreases s.len(),
{
    T::spec_properties();
    if s.len() > 0 {
        lemma_frames_rep_len(s.drop_last(), e);
        assert((s.len() - 1) * T::spec_byte_size() + T::spec_byte_size() == s.len()
            * T::spec_byte_size()) by (nonlinear_arith);
    }
}

} // verus!

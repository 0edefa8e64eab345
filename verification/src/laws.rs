//! Library-wide laws, stated and proved over the same spec functions that
//! the executable functions' contracts use.

use crate::sample::frames_rep;
use crate::sample::lemma_frames_rep_len;
use crate::sample::Sample;
use vstd::endian::endianness;
use vstd::endian::Endian;
use vstd::prelude::*;

verus! {

/// Byte-width invariant: a frame's byte width is its channel count times its
/// scalar lane width, and a serialized block holds exactly one frame width of
/// bytes per frame, in any byte order.
pub proof fn lemma_byte_width_invariant<T: Sample>()
    ensures
        T::spec_byte_size() == T::spec_channel_size() * T::spec_lane_size(),
        forall|s: Seq<T>, e: Endian|
            (#[trigger] frames_rep(s, e)).len() == s.len() * T::spec_byte_size(),
{
    T::spec_properties();
    assert forall|s: Seq<T>, e: Endian|
        (#[trigger] frames_rep(s, e)).len() == s.len() * T::spec_byte_size() by {
        lemma_frames_rep_len(s, e);
    }
}

/// Each frame's bytes sit in their own stride of the serialized block: the
/// `k`-th frame-width chunk of the serialization is exactly the `k`-th
/// frame's representation.
pub proof fn lemma_frames_rep_chunk<T: Sample>(s: Seq<T>, e: Endian, k: int)
    requires
        0 <= k < s.len(),
    ensures
        frames_rep(s, e).subrange(
            k * T::spec_byte_size() as int,
            (k + 1) * T::spec_byte_size() as int,
        ) == s[k].frame_rep(e),
    decreases s.len(),
{
    let bs = T::spec_byte_size() as int;
    T::spec_properties();
    lemma_frames_rep_len(s, e);
    lemma_frames_rep_len(s.drop_last(), e);
    let pre = frames_rep(s.drop_last(), e);
    let lastrep = s.last().frame_rep(e);
    assert(pre.len() == (s.len() - 1) * bs);
    assert(0 <= k * bs && k * bs + bs == (k + 1) * bs && (k + 1) * bs <= s.len() as int * bs)
        by (nonlinear_arith)
        requires
            0 <= k < s.len() as int,
            bs >= 0,
    ;
    if k == s.len() - 1 {
        assert(frames_rep(s, e).subrange(k * bs, (k + 1) * bs) =~= lastrep);
    } else {
        lemma_frames_rep_chunk(s.drop_last(), e, k);
        assert((k + 1) * bs <= (s.len() - 1) * bs) by (nonlinear_arith)
            requires
                k + 1 <= s.len() - 1,
                bs >= 0,
        ;
        assert(frames_rep(s, e).subrange(k * bs, (k + 1) * bs) =~= pre.subrange(
            k * bs,
            (k + 1) * bs,
        ));
        assert(s.drop_last()[k] == s[k]);
    }
}

/// Round trip: serializing a sequence of frames in byte order `e` and
/// decoding it back frame-width chunk by chunk recovers every frame, for any
/// decoder `dec` that inverts the frame encoding for `e`.
pub proof fn lemma_round_trip<T: Sample>(s: Seq<T>, e: Endian, dec: spec_fn(Seq<u8>) -> T)
    requires
        forall|x: T| #[trigger] dec(x.frame_rep(e)) == x,
    ensures
        frames_rep(s, e).len() == s.len() * T::spec_byte_size(),
        forall|k: int|
            0 <= k < s.len() ==> dec(
                #[trigger] frames_rep(s, e).subrange(
                    k * T::spec_byte_size() as int,
                    (k + 1) * T::spec_byte_size() as int,
                ),
            ) == s[k],
{
    lemma_frames_rep_len(s, e);
    assert forall|k: int| 0 <= k < s.len() implies dec(
        #[trigger] frames_rep(s, e).subrange(
            k * T::spec_byte_size() as int,
            (k + 1) * T::spec_byte_size() as int,
        ),
    ) == s[k] by {
        lemma_frames_rep_chunk(s, e, k);
    }
}

/// Endianness symmetry: on a little-endian host the native serialization is
/// the little-endian one, and on a big-endian host the big-endian one.
pub proof fn lemma_native_order<T: Sample>(s: Seq<T>)
    ensures
        endianness() == Endian::Little ==> frames_rep(s, endianness()) == frames_rep(
            s,
            Endian::Little,
        ),
        endianness() == Endian::Big ==> frames_rep(s, endianness()) == frames_rep(s, Endian::Big),
{
}

} // verus!

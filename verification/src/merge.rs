//! Channel-merge algorithms: combine 2 to 8 planar single-channel slices
//! into one packed block of fixed-size frames.
//!
//! Each arity comes in two policies. The plain `build_n` functions truncate
//! to the shortest input; the `build_n_padding` functions extend to the
//! longest input and fill the missing lanes of shorter inputs with the scalar
//! type's default value. The named aliases (`build_stereo`, `build_surround`,
//! `build_hexagonal`, `build_octagonal`, `build_cube`) delegate to the
//! truncating variant of their arity.

use crate::block::Block;
use crate::sample::Type;
use vstd::math::max;
use vstd::math::min;
use vstd::prelude::*;
use vstd::slice::slice_index_get;

verus! {

/// The `i`-th element of `s`, or the type's default where `i` is past the
/// end: the value a padding merge places in that lane.
pub open spec fn pad<T: Type>(s: Seq<T>, i: int) -> T {
    if 0 <= i < s.len() {
        s[i]
    } else {
        T::spec_default()
    }
}

/// One lane of a padding merge: `s[i]` while it exists, the default after.
fn lane<T: Type>(s: &[T], i: usize) -> (r: T)
    ensures
        r == pad(s@, i as int),
{
    if i < s.len() {
        slice_index_get(s, i).dup()
    } else {
        T::default_val()
    }
}

/// Build one channel into a block.
pub fn build_mono<T: Type>(a: &[T]) -> (r: Block<T>)
    ensures
        r@ == a@,
{
    Block::from_slice(a)
}

/// Build 2 planar channels into a packed block, truncating to the shortest.
pub fn build_2<T: Type>(a: &[T], b: &[T]) -> (r: Block<[T; 2]>)
    ensures
        r@.len() == min(a@.len() as int, b@.len() as int),
        forall|i: int| 0 <= i < r@.len() ==> #[trigger] r@[i]@ == seq![a@[i], b@[i]],
{
    let mut n = a.len();
    if b.len() < n {
        n = b.len();
    }
    let mut v: Block<[T; 2]> = Block::new(n);
    let mut i: usize = 0;
    while i < n
        invariant
            n == min(a@.len() as int, b@.len() as int),
            i <= n,
            v@.len() == i,
            forall|k: int| 0 <= k < i ==> #[trigger] v@[k]@ == seq![a@[k], b@[k]],
        decreases n - i,
    {
        let frame: [T; 2] = [slice_index_get(a, i).dup(), slice_index_get(b, i).dup()];
        proof {
            assert(frame@ =~= seq![a@[i as int], b@[i as int]]);
        }
        v.push(frame);
        i = i + 1;
    }
    v
}

/// Build 2 planar channels into a packed block, padding to the longest.
pub fn build_2_padding<T: Type>(a: &[T], b: &[T]) -> (r: Block<[T; 2]>)
    ensures
        r@.len() == max(a@.len() as int, b@.len() as int),
        forall|i: int| 0 <= i < r@.len() ==> #[trigger] r@[i]@ == seq![pad(a@, i), pad(b@, i)],
{
    let mut n = a.len();
    if b.len() > n {
        n = b.len();
    }
    let mut v: Block<[T; 2]> = Block::new(n);
    let mut i: usize = 0;
    while i < n
        invariant
            n == max(a@.len() as int, b@.len() as int),
            i <= n,
            v@.len() == i,
            forall|k: int| 0 <= k < i ==> #[trigger] v@[k]@ == seq![pad(a@, k), pad(b@, k)],
        decreases n - i,
    {
        let frame: [T; 2] = [lane(a, i), lane(b, i)];
        proof {
            assert(frame@ =~= seq![pad(a@, i as int), pad(b@, i as int)]);
        }
        v.push(frame);
        i = i + 1;
    }
    v
}

/// Build 2 planar channels into a packed block; truncates like `build_2`.
pub fn build_stereo<T: Type>(a: &[T], b: &[T]) -> (r: Block<[T; 2]>)
    ensures
        r@.len() == min(a@.len() as int, b@.len() as int),
        forall|i: int| 0 <= i < r@.len() ==> #[trigger] r@[i]@ == seq![a@[i], b@[i]],
{
    build_2(a, b)
}

/// Build 3 planar channels into a packed block, truncating to the shortest.
pub fn build_3<T: Type>(a: &[T], b: &[T], c: &[T]) -> (r: Block<[T; 3]>)
    ensures
        r@.len() == min(a@.len() as int, min(b@.len() as int, c@.len() as int)),
        forall|i: int| 0 <= i < r@.len() ==> #[trigger] r@[i]@ == seq![a@[i], b@[i], c@[i]],
{
    let mut n = a.len();
    if b.len() < n {
        n = b.len();
    }
    if c.len() < n {
        n = c.len();
    }
    let mut v: Block<[T; 3]> = Block::new(n);
    let mut i: usize = 0;
    while i < n
        invariant
            n == min(a@.len() as int, min(b@.len() as int, c@.len() as int)),
            i <= n,
            v@.len() == i,
            forall|k: int| 0 <= k < i ==> #[trigger] v@[k]@ == seq![a@[k], b@[k], c@[k]],
        decreases n - i,
    {
        let frame: [T; 3] = [slice_index_get(a, i).dup(), slice_index_get(b, i).dup(), slice_index_get(c, i).dup()];
        proof {
            assert(frame@ =~= seq![a@[i as int], b@[i as int], c@[i as int]]);
        }
        v.push(frame);
        i = i + 1;
    }
    v
}

/// Build 3 planar channels into a packed block, padding to the longest.
pub fn build_3_padding<T: Type>(a: &[T], b: &[T], c: &[T]) -> (r: Block<[T; 3]>)
    ensures
        r@.len() == max(a@.len() as int, max(b@.len() as int, c@.len() as int)),
        forall|i: int| 0 <= i < r@.len() ==> #[trigger] r@[i]@ == seq![pad(a@, i), pad(b@, i), pad(c@, i)],
{
    let mut n = a.len();
    if b.len() > n {
        n = b.len();
    }
    if c.len() > n {
        n = c.len();
    }
    let mut v: Block<[T; 3]> = Block::new(n);
    let mut i: usize = 0;
    while i < n
        invariant
            n == max(a@.len() as int, max(b@.len() as int, c@.len() as int)),
            i <= n,
            v@.len() == i,
            forall|k: int| 0 <= k < i ==> #[trigger] v@[k]@ == seq![pad(a@, k), pad(b@, k), pad(c@, k)],
        decreases n - i,
    {
        let frame: [T; 3] = [lane(a, i), lane(b, i), lane(c, i)];
        proof {
            assert(frame@ =~= seq![pad(a@, i as int), pad(b@, i as int), pad(c@, i as int)]);
        }
        v.push(frame);
        i = i + 1;
    }
    v
}

/// Build 3 planar channels into a packed block; truncates like `build_3`.
pub fn build_surround<T: Type>(a: &[T], b: &[T], c: &[T]) -> (r: Block<[T; 3]>)
    ensures
        r@.len() == min(a@.len() as int, min(b@.len() as int, c@.len() as int)),
        forall|i: int| 0 <= i < r@.len() ==> #[trigger] r@[i]@ == seq![a@[i], b@[i], c@[i]],
{
    build_3(a, b, c)
}

/// Build 4 planar channels into a packed block, truncating to the shortest.
pub fn build_4<T: Type>(a: &[T], b: &[T], c: &[T], d: &[T]) -> (r: Block<[T; 4]>)
    ensures
        r@.len() == min(a@.len() as int, min(b@.len() as int, min(c@.len() as int, d@.len() as int))),
        forall|i: int| 0 <= i < r@.len() ==> #[trigger] r@[i]@ == seq![a@[i], b@[i], c@[i], d@[i]],
{
    let mut n = a.len();
    if b.len() < n {
        n = b.len();
    }
    if c.len() < n {
        n = c.len();
    }
    if d.len() < n {
        n = d.len();
    }
    let mut v: Block<[T; 4]> = Block::new(n);
    let mut i: usize = 0;
    while i < n
        invariant
            n == min(a@.len() as int, min(b@.len() as int, min(c@.len() as int, d@.len() as int))),
            i <= n,
            v@.len() == i,
            forall|k: int| 0 <= k < i ==> #[trigger] v@[k]@ == seq![a@[k], b@[k], c@[k], d@[k]],
        decreases n - i,
    {
        let frame: [T; 4] = [slice_index_get(a, i).dup(), slice_index_get(b, i).dup(), slice_index_get(c, i).dup(), slice_index_get(d, i).dup()];
        proof {
            assert(frame@ =~= seq![a@[i as int], b@[i as int], c@[i as int], d@[i as int]]);
        }
        v.push(frame);
        i = i + 1;
    }
    v
}

/// Build 4 planar channels into a packed block, padding to the longest.
pub fn build_4_padding<T: Type>(a: &[T], b: &[T], c: &[T], d: &[T]) -> (r: Block<[T; 4]>)
    ensures
        r@.len() == max(a@.len() as int, max(b@.len() as int, max(c@.len() as int, d@.len() as int))),
        forall|i: int| 0 <= i < r@.len() ==> #[trigger] r@[i]@ == seq![pad(a@, i), pad(b@, i), pad(c@, i), pad(d@, i)],
{
    let mut n = a.len();
    if b.len() > n {
        n = b.len();
    }
    if c.len() > n {
        n = c.len();
    }
    if d.len() > n {
        n = d.len();
    }
    let mut v: Block<[T; 4]> = Block::new(n);
    let mut i: usize = 0;
    while i < n
        invariant
            n == max(a@.len() as int, max(b@.len() as int, max(c@.len() as int, d@.len() as int))),
            i <= n,
            v@.len() == i,
            forall|k: int| 0 <= k < i ==> #[trigger] v@[k]@ == seq![pad(a@, k), pad(b@, k), pad(c@, k), pad(d@, k)],
        decreases n - i,
    {
        let frame: [T; 4] = [lane(a, i), lane(b, i), lane(c, i), lane(d, i)];
        proof {
            assert(frame@ =~= seq![pad(a@, i as int), pad(b@, i as int), pad(c@, i as int), pad(d@, i as int)]);
        }
        v.push(frame);
        i = i + 1;
    }
    v
}

/// Build 5 planar channels into a packed block, truncating to the shortest.
pub fn build_5<T: Type>(a: &[T], b: &[T], c: &[T], d: &[T], e: &[T]) -> (r: Block<[T; 5]>)
    ensures
        r@.len() == min(a@.len() as int, min(b@.len() as int, min(c@.len() as int, min(d@.len() as int, e@.len() as int)))),
        forall|i: int| 0 <= i < r@.len() ==> #[trigger] r@[i]@ == seq![a@[i], b@[i], c@[i], d@[i], e@[i]],
{
    let mut n = a.len();
    if b.len() < n {
        n = b.len();
    }
    if c.len() < n {
        n = c.len();
    }
    if d.len() < n {
        n = d.len();
    }
    if e.len() < n {
        n = e.len();
    }
    let mut v: Block<[T; 5]> = Block::new(n);
    let mut i: usize = 0;
    while i < n
        invariant
            n == min(a@.len() as int, min(b@.len() as int, min(c@.len() as int, min(d@.len() as int, e@.len() as int)))),
            i <= n,
            v@.len() == i,
            forall|k: int| 0 <= k < i ==> #[trigger] v@[k]@ == seq![a@[k], b@[k], c@[k], d@[k], e@[k]],
        decreases n - i,
    {
        let frame: [T; 5] = [slice_index_get(a, i).dup(), slice_index_get(b, i).dup(), slice_index_get(c, i).dup(), slice_index_get(d, i).dup(), slice_index_get(e, i).dup()];
        proof {
            assert(frame@ =~= seq![a@[i as int], b@[i as int], c@[i as int], d@[i as int], e@[i as int]]);
        }
        v.push(frame);
        i = i + 1;
    }
    v
}

/// Build 5 planar channels into a packed block, padding to the longest.
pub fn build_5_padding<T: Type>(a: &[T], b: &[T], c: &[T], d: &[T], e: &[T]) -> (r: Block<[T; 5]>)
    ensures
        r@.len() == max(a@.len() as int, max(b@.len() as int, max(c@.len() as int, max(d@.len() as int, e@.len() as int)))),
        forall|i: int| 0 <= i < r@.len() ==> #[trigger] r@[i]@ == seq![pad(a@, i), pad(b@, i), pad(c@, i), pad(d@, i), pad(e@, i)],
{
    let mut n = a.len();
    if b.len() > n {
        n = b.len();
    }
    if c.len() > n {
        n = c.len();
    }
    if d.len() > n {
        n = d.len();
    }
    if e.len() > n {
        n = e.len();
    }
    let mut v: Block<[T; 5]> = Block::new(n);
    let mut i: usize = 0;
    while i < n
        invariant
            n == max(a@.len() as int, max(b@.len() as int, max(c@.len() as int, max(d@.len() as int, e@.len() as int)))),
            i <= n,
            v@.len() == i,
            forall|k: int| 0 <= k < i ==> #[trigger] v@[k]@ == seq![pad(a@, k), pad(b@, k), pad(c@, k), pad(d@, k), pad(e@, k)],
        decreases n - i,
    {
        let frame: [T; 5] = [lane(a, i), lane(b, i), lane(c, i), lane(d, i), lane(e, i)];
        proof {
            assert(frame@ =~= seq![pad(a@, i as int), pad(b@, i as int), pad(c@, i as int), pad(d@, i as int), pad(e@, i as int)]);
        }
        v.push(frame);
        i = i + 1;
    }
    v
}

/// Build 6 planar channels into a packed block, truncating to the shortest.
pub fn build_6<T: Type>(a: &[T], b: &[T], c: &[T], d: &[T], e: &[T], f: &[T]) -> (r: Block<[T; 6]>)
    ensures
        r@.len() == min(a@.len() as int, min(b@.len() as int, min(c@.len() as int, min(d@.len() as int, min(e@.len() as int, f@.len() as int))))),
        forall|i: int| 0 <= i < r@.len() ==> #[trigger] r@[i]@ == seq![a@[i], b@[i], c@[i], d@[i], e@[i], f@[i]],
{
    let mut n = a.len();
    if b.len() < n {
        n = b.len();
    }
    if c.len() < n {
        n = c.len();
    }
    if d.len() < n {
        n = d.len();
    }
    if e.len() < n {
        n = e.len();
    }
    if f.len() < n {
        n = f.len();
    }
    let mut v: Block<[T; 6]> = Block::new(n);
    let mut i: usize = 0;
    while i < n
        invariant
            n == min(a@.len() as int, min(b@.len() as int, min(c@.len() as int, min(d@.len() as int, min(e@.len() as int, f@.len() as int))))),
            i <= n,
            v@.len() == i,
            forall|k: int| 0 <= k < i ==> #[trigger] v@[k]@ == seq![a@[k], b@[k], c@[k], d@[k], e@[k], f@[k]],
        decreases n - i,
    {
        let frame: [T; 6] = [slice_index_get(a, i).dup(), slice_index_get(b, i).dup(), slice_index_get(c, i).dup(), slice_index_get(d, i).dup(), slice_index_get(e, i).dup(), slice_index_get(f, i).dup()];
        proof {
            assert(frame@ =~= seq![a@[i as int], b@[i as int], c@[i as int], d@[i as int], e@[i as int], f@[i as int]]);
        }
        v.push(frame);
        i = i + 1;
    }
    v
}

/// Build 6 planar channels into a packed block, padding to the longest.
pub fn build_6_padding<T: Type>(a: &[T], b: &[T], c: &[T], d: &[T], e: &[T], f: &[T]) -> (r: Block<[T; 6]>)
    ensures
        r@.len() == max(a@.len() as int, max(b@.len() as int, max(c@.len() as int, max(d@.len() as int, max(e@.len() as int, f@.len() as int))))),
        forall|i: int| 0 <= i < r@.len() ==> #[trigger] r@[i]@ == seq![pad(a@, i), pad(b@, i), pad(c@, i), pad(d@, i), pad(e@, i), pad(f@, i)],
{
    let mut n = a.len();
    if b.len() > n {
        n = b.len();
    }
    if c.len() > n {
        n = c.len();
    }
    if d.len() > n {
        n = d.len();
    }
    if e.len() > n {
        n = e.len();
    }
    if f.len() > n {
        n = f.len();
    }
    let mut v: Block<[T; 6]> = Block::new(n);
    let mut i: usize = 0;
    while i < n
        invariant
            n == max(a@.len() as int, max(b@.len() as int, max(c@.len() as int, max(d@.len() as int, max(e@.len() as int, f@.len() as int))))),
            i <= n,
            v@.len() == i,
            forall|k: int| 0 <= k < i ==> #[trigger] v@[k]@ == seq![pad(a@, k), pad(b@, k), pad(c@, k), pad(d@, k), pad(e@, k), pad(f@, k)],
        decreases n - i,
    {
        let frame: [T; 6] = [lane(a, i), lane(b, i), lane(c, i), lane(d, i), lane(e, i), lane(f, i)];
        proof {
            assert(frame@ =~= seq![pad(a@, i as int), pad(b@, i as int), pad(c@, i as int), pad(d@, i as int), pad(e@, i as int), pad(f@, i as int)]);
        }
        v.push(frame);
        i = i + 1;
    }
    v
}

/// Build 6 planar channels into a packed block; truncates like `build_6`.
pub fn build_hexagonal<T: Type>(a: &[T], b: &[T], c: &[T], d: &[T], e: &[T], f: &[T]) -> (r: Block<[T; 6]>)
    ensures
        r@.len() == min(a@.len() as int, min(b@.len() as int, min(c@.len() as int, min(d@.len() as int, min(e@.len() as int, f@.len() as int))))),
        forall|i: int| 0 <= i < r@.len() ==> #[trigger] r@[i]@ == seq![a@[i], b@[i], c@[i], d@[i], e@[i], f@[i]],
{
    build_6(a, b, c, d, e, f)
}

/// Build 7 planar channels into a packed block, truncating to the shortest.
pub fn build_7<T: Type>(a: &[T], b: &[T], c: &[T], d: &[T], e: &[T], f: &[T], g: &[T]) -> (r: Block<[T; 7]>)
    ensures
        r@.len() == min(a@.len() as int, min(b@.len() as int, min(c@.len() as int, min(d@.len() as int, min(e@.len() as int, min(f@.len() as int, g@.len() as int)))))),
        forall|i: int| 0 <= i < r@.len() ==> #[trigger] r@[i]@ == seq![a@[i], b@[i], c@[i], d@[i], e@[i], f@[i], g@[i]],
{
    let mut n = a.len();
    if b.len() < n {
        n = b.len();
    }
    if c.len() < n {
        n = c.len();
    }
    if d.len() < n {
        n = d.len();
    }
    if e.len() < n {
        n = e.len();
    }
    if f.len() < n {
        n = f.len();
    }
    if g.len() < n {
        n = g.len();
    }
    let mut v: Block<[T; 7]> = Block::new(n);
    let mut i: usize = 0;
    while i < n
        invariant
            n == min(a@.len() as int, min(b@.len() as int, min(c@.len() as int, min(d@.len() as int, min(e@.len() as int, min(f@.len() as int, g@.len() as int)))))),
            i <= n,
            v@.len() == i,
            forall|k: int| 0 <= k < i ==> #[trigger] v@[k]@ == seq![a@[k], b@[k], c@[k], d@[k], e@[k], f@[k], g@[k]],
        decreases n - i,
    {
        let frame: [T; 7] = [slice_index_get(a, i).dup(), slice_index_get(b, i).dup(), slice_index_get(c, i).dup(), slice_index_get(d, i).dup(), slice_index_get(e, i).dup(), slice_index_get(f, i).dup(), slice_index_get(g, i).dup()];
        proof {
            assert(frame@ =~= seq![a@[i as int], b@[i as int], c@[i as int], d@[i as int], e@[i as int], f@[i as int], g@[i as int]]);
        }
        v.push(frame);
        i = i + 1;
    }
    v
}

/// Build 7 planar channels into a packed block, padding to the longest.
pub fn build_7_padding<T: Type>(a: &[T], b: &[T], c: &[T], d: &[T], e: &[T], f: &[T], g: &[T]) -> (r: Block<[T; 7]>)
    ensures
        r@.len() == max(a@.len() as int, max(b@.len() as int, max(c@.len() as int, max(d@.len() as int, max(e@.len() as int, max(f@.len() as int, g@.len() as int)))))),
        forall|i: int| 0 <= i < r@.len() ==> #[trigger] r@[i]@ == seq![pad(a@, i), pad(b@, i), pad(c@, i), pad(d@, i), pad(e@, i), pad(f@, i), pad(g@, i)],
{
    let mut n = a.len();
    if b.len() > n {
        n = b.len();
    }
    if c.len() > n {
        n = c.len();
    }
    if d.len() > n {
        n = d.len();
    }
    if e.len() > n {
        n = e.len();
    }
    if f.len() > n {
        n = f.len();
    }
    if g.len() > n {
        n = g.len();
    }
    let mut v: Block<[T; 7]> = Block::new(n);
    let mut i: usize = 0;
    while i < n
        invariant
            n == max(a@.len() as int, max(b@.len() as int, max(c@.len() as int, max(d@.len() as int, max(e@.len() as int, max(f@.len() as int, g@.len() as int)))))),
            i <= n,
            v@.len() == i,
            forall|k: int| 0 <= k < i ==> #[trigger] v@[k]@ == seq![pad(a@, k), pad(b@, k), pad(c@, k), pad(d@, k), pad(e@, k), pad(f@, k), pad(g@, k)],
        decreases n - i,
    {
        let frame: [T; 7] = [lane(a, i), lane(b, i), lane(c, i), lane(d, i), lane(e, i), lane(f, i), lane(g, i)];
        proof {
            assert(frame@ =~= seq![pad(a@, i as int), pad(b@, i as int), pad(c@, i as int), pad(d@, i as int), pad(e@, i as int), pad(f@, i as int), pad(g@, i as int)]);
        }
        v.push(frame);
        i = i + 1;
    }
    v
}

/// Build 8 planar channels into a packed block, truncating to the shortest.
pub fn build_8<T: Type>(a: &[T], b: &[T], c: &[T], d: &[T], e: &[T], f: &[T], g: &[T], h: &[T]) -> (r: Block<[T; 8]>)
    ensures
        r@.len() == min(a@.len() as int, min(b@.len() as int, min(c@.len() as int, min(d@.len() as int, min(e@.len() as int, min(f@.len() as int, min(g@.len() as int, h@.len() as int))))))),
        forall|i: int| 0 <= i < r@.len() ==> #[trigger] r@[i]@ == seq![a@[i], b@[i], c@[i], d@[i], e@[i], f@[i], g@[i], h@[i]],
{
    let mut n = a.len();
    if b.len() < n {
        n = b.len();
    }
    if c.len() < n {
        n = c.len();
    }
    if d.len() < n {
        n = d.len();
    }
    if e.len() < n {
        n = e.len();
    }
    if f.len() < n {
        n = f.len();
    }
    if g.len() < n {
        n = g.len();
    }
    if h.len() < n {
        n = h.len();
    }
    let mut v: Block<[T; 8]> = Block::new(n);
    let mut i: usize = 0;
    while i < n
        invariant
            n == min(a@.len() as int, min(b@.len() as int, min(c@.len() as int, min(d@.len() as int, min(e@.len() as int, min(f@.len() as int, min(g@.len() as int, h@.len() as int))))))),
            i <= n,
            v@.len() == i,
            forall|k: int| 0 <= k < i ==> #[trigger] v@[k]@ == seq![a@[k], b@[k], c@[k], d@[k], e@[k], f@[k], g@[k], h@[k]],
        decreases n - i,
    {
        let frame: [T; 8] = [slice_index_get(a, i).dup(), slice_index_get(b, i).dup(), slice_index_get(c, i).dup(), slice_index_get(d, i).dup(), slice_index_get(e, i).dup(), slice_index_get(f, i).dup(), slice_index_get(g, i).dup(), slice_index_get(h, i).dup()];
        proof {
            assert(frame@ =~= seq![a@[i as int], b@[i as int], c@[i as int], d@[i as int], e@[i as int], f@[i as int], g@[i as int], h@[i as int]]);
        }
        v.push(frame);
        i = i + 1;
    }
    v
}

/// Build 8 planar channels into a packed block, padding to the longest.
pub fn build_8_padding<T: Type>(a: &[T], b: &[T], c: &[T], d: &[T], e: &[T], f: &[T], g: &[T], h: &[T]) -> (r: Block<[T; 8]>)
    ensures
        r@.len() == max(a@.len() as int, max(b@.len() as int, max(c@.len() as int, max(d@.len() as int, max(e@.len() as int, max(f@.len() as int, max(g@.len() as int, h@.len() as int))))))),
        forall|i: int| 0 <= i < r@.len() ==> #[trigger] r@[i]@ == seq![pad(a@, i), pad(b@, i), pad(c@, i), pad(d@, i), pad(e@, i), pad(f@, i), pad(g@, i), pad(h@, i)],
{
    let mut n = a.len();
    if b.len() > n {
        n = b.len();
    }
    if c.len() > n {
        n = c.len();
    }
    if d.len() > n {
        n = d.len();
    }
    if e.len() > n {
        n = e.len();
    }
    if f.len() > n {
        n = f.len();
    }
    if g.len() > n {
        n = g.len();
    }
    if h.len() > n {
        n = h.len();
    }
    let mut v: Block<[T; 8]> = Block::new(n);
    let mut i: usize = 0;
    while i < n
        invariant
            n == max(a@.len() as int, max(b@.len() as int, max(c@.len() as int, max(d@.len() as int, max(e@.len() as int, max(f@.len() as int, max(g@.len() as int, h@.len() as int))))))),
            i <= n,
            v@.len() == i,
            forall|k: int| 0 <= k < i ==> #[trigger] v@[k]@ == seq![pad(a@, k), pad(b@, k), pad(c@, k), pad(d@, k), pad(e@, k), pad(f@, k), pad(g@, k), pad(h@, k)],
        decreases n - i,
    {
        let frame: [T; 8] = [lane(a, i), lane(b, i), lane(c, i), lane(d, i), lane(e, i), lane(f, i), lane(g, i), lane(h, i)];
        proof {
            assert(frame@ =~= seq![pad(a@, i as int), pad(b@, i as int), pad(c@, i as int), pad(d@, i as int), pad(e@, i as int), pad(f@, i as int), pad(g@, i as int), pad(h@, i as int)]);
        }
        v.push(frame);
        i = i + 1;
    }
    v
}

/// Build 8 planar channels into a packed block; truncates like `build_8`.
pub fn build_octagonal<T: Type>(a: &[T], b: &[T], c: &[T], d: &[T], e: &[T], f: &[T], g: &[T], h: &[T]) -> (r: Block<[T; 8]>)
    ensures
        r@.len() == min(a@.len() as int, min(b@.len() as int, min(c@.len() as int, min(d@.len() as int, min(e@.len() as int, min(f@.len() as int, min(g@.len() as int, h@.len() as int))))))),
        forall|i: int| 0 <= i < r@.len() ==> #[trigger] r@[i]@ == seq![a@[i], b@[i], c@[i], d@[i], e@[i], f@[i], g@[i], h@[i]],
{
    build_8(a, b, c, d, e, f, g, h)
}

/// Build 8 planar channels into a packed block; truncates like `build_8`.
pub fn build_cube<T: Type>(a: &[T], b: &[T], c: &[T], d: &[T], e: &[T], f: &[T], g: &[T], h: &[T]) -> (r: Block<[T; 8]>)
    ensures
        r@.len() == min(a@.len() as int, min(b@.len() as int, min(c@.len() as int, min(d@.len() as int, min(e@.len() as int, min(f@.len() as int, min(g@.len() as int, h@.len() as int))))))),
        forall|i: int| 0 <= i < r@.len() ==> #[trigger] r@[i]@ == seq![a@[i], b@[i], c@[i], d@[i], e@[i], f@[i], g@[i], h@[i]],
{
    build_8(a, b, c, d, e, f, g, h)
}

} // verus!

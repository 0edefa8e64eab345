//! Base-256 digit representations of machine integers, in either byte order.
//!
//! A fixed-width integer's byte encoding is its sequence of base-256 digits:
//! least significant first for little-endian, most significant first for
//! big-endian. The host's own byte order is abstracted by
//! [`vstd::endian::endianness`]; [`host_endianness`] observes it at run time.

use vstd::arithmetic::div_mod::lemma_div_denominator;
use vstd::arithmetic::div_mod::lemma_div_nonincreasing;
use vstd::endian::endianness;
use vstd::endian::Endian;
use vstd::prelude::*;

verus! {

/// 256 raised to the power `k`: the weight of the `k`-th base-256 digit.
pub open spec fn pow256(k: nat) -> nat
    decreases k,
{
    if k == 0 {
        1
    } else {
        256 * pow256((k - 1) as nat)
    }
}

pub proof fn lemma_pow256_pos(k: nat)
    ensures
        pow256(k) >= 1,
    decreases k,
{
    if k > 0 {
        lemma_pow256_pos((k - 1) as nat);
    }
}

/// The `i`-th base-256 digit of `n`, counting from the least significant.
pub open spec fn byte_digit(n: nat, i: int) -> u8 {
    ((n / pow256(i as nat)) % 256) as u8
}

/// The `w` base-256 digits of `n`, least significant first.
pub open spec fn le_digits(n: nat, w: nat) -> Seq<u8> {
    Seq::new(w, |i: int| byte_digit(n, i))
}

/// The `w` base-256 digits of `n`, most significant first.
pub open spec fn be_digits(n: nat, w: nat) -> Seq<u8> {
    Seq::new(w, |i: int| byte_digit(n, w - 1 - i))
}

/// The `w` base-256 digits of `n` in byte order `e`.
pub open spec fn digits(n: nat, w: nat, e: Endian) -> Seq<u8> {
    match e {
        Endian::Little => le_digits(n, w),
        Endian::Big => be_digits(n, w),
    }
}

/// The little-endian digits of `n`, as bytes.
pub(crate) fn le_bytes_of(n: u64, w: usize) -> (r: Vec<u8>)
    ensures
        r@ == le_digits(n as nat, w as nat),
{
    let mut r: Vec<u8> = Vec::new();
    let mut cur: u64 = n;
    let mut i: usize = 0;
    proof {
        vstd::arithmetic::div_mod::lemma_div_basics(n as int);
    }
    while i < w
        invariant
            i <= w,
            r@.len() == i,
            cur as nat == n as nat / pow256(i as nat),
            forall|j: int| 0 <= j < i ==> r@[j] == byte_digit(n as nat, j),
        decreases w - i,
    {
        r.push((cur % 256) as u8);
        proof {
            lemma_pow256_pos(i as nat);
            lemma_div_denominator(n as int, pow256(i as nat) as int, 256);
            lemma_div_nonincreasing(n as int, pow256((i + 1) as nat) as int);
        }
        cur = cur / 256;
        i = i + 1;
    }
    proof {
        assert(r@ =~= le_digits(n as nat, w as nat));
    }
    r
}

/// The big-endian digits of `n`, as bytes.
pub(crate) fn be_bytes_of(n: u64, w: usize) -> (r: Vec<u8>)
    ensures
        r@ == be_digits(n as nat, w as nat),
{
    let le = le_bytes_of(n, w);
    let mut r: Vec<u8> = Vec::new();
    let mut i: usize = 0;
    while i < w
        invariant
            i <= w,
            le@ == le_digits(n as nat, w as nat),
            r@.len() == i,
            forall|j: int| 0 <= j < i ==> r@[j] == byte_digit(n as nat, w - 1 - j),
        decreases w - i,
    {
        r.push(le[w - 1 - i]);
        i = i + 1;
    }
    proof {
        assert(r@ =~= be_digits(n as nat, w as nat));
    }
    r
}

/// Relies on `u32::to_ne_bytes`: the memory representation of a `u32` in
/// native byte order starts with the least significant byte exactly on a
/// little-endian host, so probing the value 1 reveals the byte order that
/// `vstd::endian::endianness()` abstracts.
#[verifier::external_body]
pub(crate) fn host_endianness() -> (e: Endian)
    ensures
        e == endianness(),
{
    if u32::to_ne_bytes(1u32)[0] == 1u8 {
        Endian::Little
    } else {
        Endian::Big
    }
}

} // verus!

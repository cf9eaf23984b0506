//! Bit rotations of 32-bit words.
use vstd::prelude::*;
use vstd::arithmetic::power2::{pow2, lemma_pow2_unfold};

verus! {

/// `x` rotated left by `n` bit positions (the amount taken modulo 32).
pub open spec fn rotl(x: u32, n: u32) -> u32 {
    let k = n % 32;
    if k == 0 { x } else { (x << k) | (x >> ((32 - k) as u32)) }
}

/// `x` rotated right by `n` bit positions (the amount taken modulo 32).
pub open spec fn rotr(x: u32, n: u32) -> u32 {
    let k = n % 32;
    if k == 0 { x } else { (x >> k) | (x << ((32 - k) as u32)) }
}

/// Rotates `x` left by `n` bits, as `u32::rotate_left` does.
pub fn rotate_left(x: u32, n: u32) -> (r: u32)
    ensures
        r == rotl(x, n),
{
    let k = n % 32;
    if k == 0 { x } else { (x << k) | (x >> (32 - k)) }
}

/// Rotates `x` right by `n` bits, as `u32::rotate_right` does.
pub fn rotate_right(x: u32, n: u32) -> (r: u32)
    ensures
        r == rotr(x, n),
{
    let k = n % 32;
    if k == 0 { x } else { (x >> k) | (x << (32 - k)) }
}

/// The number of one bits in `x`.
pub open spec fn popcount(x: u32) -> nat
    decreases x,
{
    if x == 0 {
        0
    } else {
        proof { assert(x != 0 ==> x / 2 < x); }
        (x % 2) as nat + popcount(x / 2)
    }
}

/// A word below `2^k` has at most `k` one bits.
proof fn lemma_popcount_bound(x: u32, k: nat)
    requires
        x < pow2(k),
    ensures
        popcount(x) <= k,
    decreases x,
{
    if x != 0 {
        if k == 0 {
            vstd::arithmetic::power2::lemma2_to64();
        } else {
            lemma_pow2_unfold(k);
            lemma_popcount_bound(x / 2, (k - 1) as nat);
        }
    }
}

/// Counts the one bits of `x`, as `u32::count_ones` does.
pub fn count_ones(x: u32) -> (n: u32)
    ensures
        n as nat == popcount(x),
{
    proof {
        vstd::arithmetic::power2::lemma2_to64();
        lemma_popcount_bound(x, 32);
    }
    let mut rest = x;
    let mut n: u32 = 0;
    while rest != 0
        invariant
            n + popcount(rest) == popcount(x),
            popcount(x) <= 32,
        decreases rest,
    {
        n = n + rest % 2;
        rest = rest / 2;
    }
    n
}

} // verus!

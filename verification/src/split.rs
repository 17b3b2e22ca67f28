//! The canonical split rule: how many bytes of a multi-chunk subtree belong to
//! its left child. Applying this rule recursively fixes the shape of the hash
//! tree for a given input length, no matter in what order subtrees are hashed.

use vstd::prelude::*;
use vstd::arithmetic::power2::*;
use vstd::arithmetic::div_mod::lemma_mod_multiples_basic;
use crate::CHUNK_SIZE;

verus! {

/// The largest power of two that is strictly less than `n` (for `n >= 2`).
///
/// This is the canonical left-child length: a subtree of `n` bytes
/// (`n > CHUNK_SIZE`) gives exactly this many bytes to its left child, so the
/// left child is a complete power-of-two subtree at least as large as its
/// sibling.
pub open spec fn largest_pow2_below(n: nat) -> nat
    decreases n,
{
    if n <= 2 {
        1
    } else {
        2 * largest_pow2_below((n + 1) / 2)
    }
}

/// The left-child length is a power of two, at least 1, strictly below `n`,
/// and at least half of `n`.
pub proof fn lemma_largest_pow2_below(n: nat)
    requires
        n >= 2,
    ensures
        1 <= largest_pow2_below(n) < n,
        n <= 2 * largest_pow2_below(n),
        exists|e: nat| largest_pow2_below(n) == pow2(e),
    decreases n,
{
    if n <= 2 {
        assert(largest_pow2_below(n) == pow2(0)) by {
            lemma2_to64();
        }
    } else {
        let m = (n + 1) / 2;
        lemma_largest_pow2_below(m);
        let e = choose|e: nat| largest_pow2_below(m) == pow2(e);
        assert(largest_pow2_below(n) == pow2(e + 1)) by {
            lemma_pow2_adds(e, 1);
            lemma2_to64();
        }
    }
}

/// For subtrees longer than one chunk, the left-child length is a whole number
/// of chunks (at least one).
pub proof fn lemma_largest_pow2_below_chunk_aligned(n: nat)
    requires
        n > CHUNK_SIZE,
    ensures
        largest_pow2_below(n) % (CHUNK_SIZE as nat) == 0,
        largest_pow2_below(n) >= CHUNK_SIZE,
{
    lemma_largest_pow2_below(n);
    let r = largest_pow2_below(n);
    let e = choose|e: nat| r == pow2(e);
    // 2 * r >= n > 1024, so r > 512 = pow2(9), hence e >= 10.
    assert(pow2(9) == 512 && pow2(10) == 1024) by {
        lemma2_to64();
    }
    if e <= 9 {
        if e < 9 {
            lemma_pow2_strictly_increases(e, 9);
        }
        assert(false);
    }
    lemma_pow2_adds(10, (e - 10) as nat);
    let k = pow2((e - 10) as nat);
    lemma_pow2_pos((e - 10) as nat);
    assert(r == k * 1024);
    lemma_mod_multiples_basic(k as int, 1024);
}

/// Largest power of two strictly below `n`, computed by halving.
fn pow2_below_u64(n: u64) -> (r: u64)
    requires
        n >= 2,
    ensures
        r == largest_pow2_below(n as nat),
    decreases n,
{
    if n <= 2 {
        1
    } else {
        let m = n / 2 + n % 2;
        proof {
            assert(m == (n + 1) as nat / 2);
            lemma_largest_pow2_below(m as nat);
        }
        let s = pow2_below_u64(m);
        2 * s
    }
}

/// Bytes assigned to the left child of a subtree spanning `input_len` bytes
/// (more than one chunk): the largest power of two strictly below `input_len`.
/// The right child receives the rest, which is at least one byte and at most
/// as much as the left child.
pub fn left_subtree_len(input_len: u64) -> (r: u64)
    requires
        input_len > CHUNK_SIZE,
    ensures
        r == largest_pow2_below(input_len as nat),
        CHUNK_SIZE <= r < input_len,
        input_len <= 2 * r,
        r % (CHUNK_SIZE as u64) == 0,
{
    proof {
        lemma_largest_pow2_below(input_len as nat);
        lemma_largest_pow2_below_chunk_aligned(input_len as nat);
    }
    pow2_below_u64(input_len)
}

} // verus!

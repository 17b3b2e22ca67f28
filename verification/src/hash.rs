//! Leaf and subtree hashing, merging, and root finalization.
//!
//! The cryptographic primitives — the chaining value of a single chunk, the
//! two-child merges (non-root and root), and the one-chunk root digest — are
//! opaque: they are named by uninterpreted spec functions and computed by the
//! `blake3` crate behind trusted wrappers. Everything above them — the
//! canonical tree shape, the recursion, and which finalization rule applies
//! where — is defined here and verified.

use vstd::prelude::*;
use vstd::arithmetic::div_mod::{lemma_mod_multiples_basic, lemma_fundamental_div_mod, lemma_add_mod_noop};
use vstd::slice::slice_subrange;
use blake3::hazmat::HasherExt;
use crate::CHUNK_SIZE;
use crate::split::{largest_pow2_below, lemma_largest_pow2_below, left_subtree_len};

verus! {

/// The non-root chaining value that the hash primitive assigns to one chunk
/// (at most `CHUNK_SIZE` bytes) whose first byte sits `input_offset` bytes
/// into the whole input. Opaque: computed by blake3.
pub uninterp spec fn chunk_cv(data: Seq<u8>, input_offset: nat) -> Seq<u8>;

/// The non-root chaining value of the parent of two sibling subtrees, from the
/// children's chaining values, left first. Opaque: computed by blake3.
pub uninterp spec fn parent_merge(left: Seq<u8>, right: Seq<u8>) -> Seq<u8>;

/// The finalized root hash obtained by merging the whole input's two top-level
/// subtree chaining values, left first. Distinct from `parent_merge`: the
/// primitive applies a different finalization rule at the root (domain
/// separation). Opaque: computed by blake3.
pub uninterp spec fn root_merge(left: Seq<u8>, right: Seq<u8>) -> Seq<u8>;

/// The finalized root hash of an input of at most one chunk: a lone leaf
/// finalized directly as root, with no merge step. Opaque: computed by blake3.
pub uninterp spec fn chunk_root(data: Seq<u8>) -> Seq<u8>;

/// The maximum number of chunks in a subtree whose first chunk has this
/// 0-based index (for a nonzero index): the largest power of two dividing the
/// index. A longer span would reach across the subtree's own root.
pub open spec fn max_subtree_chunks(chunk_index: nat) -> nat
    decreases chunk_index,
{
    if chunk_index == 0 || chunk_index % 2 == 1 {
        1
    } else {
        2 * max_subtree_chunks(chunk_index / 2)
    }
}

pub proof fn lemma_max_subtree_chunks_pos(chunk_index: nat)
    ensures
        max_subtree_chunks(chunk_index) >= 1,
    decreases chunk_index,
{
    if !(chunk_index == 0 || chunk_index % 2 == 1) {
        lemma_max_subtree_chunks_pos(chunk_index / 2);
    }
}

/// A nonempty span at `input_offset` that is a chunk or subtree of the
/// conceptual tree: it starts on a chunk boundary and, unless it starts at the
/// very beginning, does not extend past the largest subtree rooted there.
pub open spec fn valid_subtree(input_offset: nat, len: nat) -> bool {
    &&& input_offset % (CHUNK_SIZE as nat) == 0
    &&& 0 < len
    &&& (input_offset == 0 || len <= (CHUNK_SIZE as nat) * max_subtree_chunks(
        input_offset / (CHUNK_SIZE as nat),
    ))
}

/// The non-root chaining value of an arbitrary chunk-aligned span: the chunk
/// primitive for at most one chunk, and otherwise the non-root merge of the
/// two children given by the canonical split. This recursion is the single
/// source of the tree's shape.
pub open spec fn subtree_cv(data: Seq<u8>, input_offset: nat) -> Seq<u8>
    decreases data.len(),
    via subtree_cv_decreases
{
    if data.len() <= CHUNK_SIZE {
        chunk_cv(data, input_offset)
    } else {
        let l = largest_pow2_below(data.len());
        parent_merge(
            subtree_cv(data.take(l as int), input_offset),
            subtree_cv(data.skip(l as int), input_offset + l),
        )
    }
}

#[via_fn]
proof fn subtree_cv_decreases(data: Seq<u8>, input_offset: nat) {
    if data.len() > CHUNK_SIZE {
        lemma_largest_pow2_below(data.len());
    }
}

/// The finalized root hash of a whole input: the one-chunk root digest if the
/// input fits in one chunk, and otherwise the root merge — applied exactly
/// once, at the top — of the two top-level subtree chaining values.
pub open spec fn spec_root_hash(data: Seq<u8>) -> Seq<u8> {
    if data.len() <= CHUNK_SIZE {
        chunk_root(data)
    } else {
        let l = largest_pow2_below(data.len());
        root_merge(subtree_cv(data.take(l as int), 0), subtree_cv(data.skip(l as int), l))
    }
}

/// Relies on blake3::Hasher::new, blake3::hazmat::HasherExt::set_input_offset,
/// blake3::Hasher::update and blake3::hazmat::HasherExt::finalize_non_root:
/// the non-root chaining value of a valid chunk or subtree at a given offset.
/// The hazmat module documents that hashing a valid multi-chunk subtree in one
/// call equals merging its children's chaining values along the canonical
/// split (its `left_subtree_len` example checks exactly that), and that
/// offsets off chunk boundaries, empty spans, and spans beyond
/// `max_subtree_len` are rejected by panic, which `valid_subtree` rules out.
#[verifier::external_body]
fn finalize_non_root_cv(data: &[u8], input_offset: u64) -> (r: Vec<u8>)
    requires
        valid_subtree(input_offset as nat, data@.len()),
    ensures
        r@.len() == 32,
        r@ == subtree_cv(data@, input_offset as nat),
        data@.len() <= CHUNK_SIZE ==> r@ == chunk_cv(data@, input_offset as nat),
{
    let mut hasher = blake3::Hasher::new();
    hasher.set_input_offset(input_offset);
    hasher.update(data);
    hasher.finalize_non_root().to_vec()
}

/// Relies on blake3::hazmat::merge_subtrees_non_root with Mode::Hash: the
/// non-root parent chaining value of two 32-byte child chaining values.
#[verifier::external_body]
fn merge_non_root(left: &[u8], right: &[u8]) -> (r: Vec<u8>)
    requires
        left@.len() == 32,
        right@.len() == 32,
    ensures
        r@.len() == 32,
        r@ == parent_merge(left@, right@),
{
    let l: [u8; 32] = left.try_into().unwrap();
    let rt: [u8; 32] = right.try_into().unwrap();
    blake3::hazmat::merge_subtrees_non_root(&l, &rt, blake3::hazmat::Mode::Hash).to_vec()
}

/// Relies on blake3::hazmat::merge_subtrees_root with Mode::Hash: the
/// finalized root hash from the whole input's two top-level 32-byte chaining
/// values, using the root finalization rule rather than the non-root one.
#[verifier::external_body]
fn merge_root_finalize(left: &[u8], right: &[u8]) -> (r: Vec<u8>)
    requires
        left@.len() == 32,
        right@.len() == 32,
    ensures
        r@.len() == 32,
        r@ == root_merge(left@, right@),
{
    let l: [u8; 32] = left.try_into().unwrap();
    let rt: [u8; 32] = right.try_into().unwrap();
    blake3::hazmat::merge_subtrees_root(&l, &rt, blake3::hazmat::Mode::Hash).as_bytes().to_vec()
}

/// Relies on blake3::hash: the root hash of a whole input of any length. For
/// inputs of at most one chunk this is the primitive's one-chunk root digest;
/// for longer inputs the hazmat `left_subtree_len` example documents that it
/// equals the root merge of the two top-level subtree chaining values, which
/// is what `spec_root_hash` says.
#[verifier::external_body]
fn hash_whole_input(data: &[u8]) -> (r: Vec<u8>)
    ensures
        r@.len() == 32,
        r@ == spec_root_hash(data@),
        data@.len() <= CHUNK_SIZE ==> r@ == chunk_root(data@),
{
    blake3::hash(data).as_bytes().to_vec()
}

/// The fixed chunk size, so a host's own splitting logic agrees with the
/// library's: the single source of truth across the boundary.
pub fn chunk_len() -> (r: u32)
    ensures
        r == CHUNK_SIZE,
{
    CHUNK_SIZE as u32
}

/// Non-root chaining value of the leaf chunk with the given 0-based index.
/// The chunk holds at most `CHUNK_SIZE` bytes and its first byte sits at
/// offset `chunk_index * CHUNK_SIZE` of the whole input. Deterministic: the
/// result is a function of the bytes and the index alone.
pub fn hash_chunk(data: &[u8], chunk_index: u64) -> (r: Vec<u8>)
    requires
        0 < data@.len() <= CHUNK_SIZE,
        chunk_index * (CHUNK_SIZE as u64) <= u64::MAX,
    ensures
        r@.len() == 32,
        r@ == chunk_cv(data@, (chunk_index * (CHUNK_SIZE as u64)) as nat),
{
    let input_offset: u64 = chunk_index * (CHUNK_SIZE as u64);
    proof {
        lemma_mod_multiples_basic(chunk_index as int, CHUNK_SIZE as int);
        let c = (input_offset as nat) / (CHUNK_SIZE as nat);
        lemma_max_subtree_chunks_pos(c);
        assert((CHUNK_SIZE as nat) * max_subtree_chunks(c) >= CHUNK_SIZE as nat)
            by (nonlinear_arith)
            requires max_subtree_chunks(c) >= 1,
        ;
    }
    finalize_non_root_cv(data, input_offset)
}

/// Non-root chaining value of a chunk-aligned span hashed in one call, with an
/// explicit byte offset. Always non-root, even when the span is the whole
/// input: root finalization is a separate, explicit step.
pub fn hash_subtree(data: &[u8], input_offset: u64) -> (r: Vec<u8>)
    requires
        valid_subtree(input_offset as nat, data@.len()),
    ensures
        r@.len() == 32,
        r@ == subtree_cv(data@, input_offset as nat),
{
    finalize_non_root_cv(data, input_offset)
}

/// Merge two sibling 32-byte chaining values, left first, into their parent's
/// non-root chaining value. Order matters: the merge is not commutative.
pub fn parent_cv(left_cv: &[u8], right_cv: &[u8]) -> (r: Vec<u8>)
    requires
        left_cv@.len() == 32,
        right_cv@.len() == 32,
    ensures
        r@.len() == 32,
        r@ == parent_merge(left_cv@, right_cv@),
{
    merge_non_root(left_cv, right_cv)
}

/// Merge the whole input's two top-level 32-byte chaining values, left first,
/// into the finalized root hash. Structurally the same merge as `parent_cv`
/// but under the root finalization rule; to be invoked exactly once, at the
/// top-level merge of a multi-chunk input.
pub fn root_hash(left_cv: &[u8], right_cv: &[u8]) -> (r: Vec<u8>)
    requires
        left_cv@.len() == 32,
        right_cv@.len() == 32,
    ensures
        r@.len() == 32,
        r@ == root_merge(left_cv@, right_cv@),
{
    merge_root_finalize(left_cv, right_cv)
}

/// Finalized root hash of an arbitrary-length input in one call.
pub fn hash_single(data: &[u8]) -> (r: Vec<u8>)
    ensures
        r@.len() == 32,
        r@ == spec_root_hash(data@),
{
    hash_whole_input(data)
}

/// Non-root chaining value of a chunk-aligned span computed the explicit way:
/// recursing on `left_subtree_len`, hashing each leaf with `hash_chunk`, and
/// merging siblings with `parent_cv`. Proven to return exactly the value that
/// `hash_subtree` returns for the same span.
pub fn hash_subtree_recursive(data: &[u8], input_offset: u64) -> (r: Vec<u8>)
    requires
        data@.len() > 0,
        input_offset % (CHUNK_SIZE as u64) == 0,
        input_offset + data@.len() <= u64::MAX,
    ensures
        r@.len() == 32,
        r@ == subtree_cv(data@, input_offset as nat),
    decreases data@.len(),
{
    if data.len() <= CHUNK_SIZE {
        let chunk_index = input_offset / (CHUNK_SIZE as u64);
        proof {
            lemma_fundamental_div_mod(input_offset as int, CHUNK_SIZE as int);
        }
        hash_chunk(data, chunk_index)
    } else {
        let l = left_subtree_len(data.len() as u64);
        let left = slice_subrange(data, 0, l as usize);
        let right = slice_subrange(data, l as usize, data.len());
        let left_cv = hash_subtree_recursive(left, input_offset);
        proof {
            lemma_add_mod_noop(input_offset as int, l as int, CHUNK_SIZE as int);
        }
        let right_cv = hash_subtree_recursive(right, input_offset + l);
        let r = parent_cv(left_cv.as_slice(), right_cv.as_slice());
        proof {
            assert(left@ =~= data@.take(l as int));
            assert(right@ =~= data@.skip(l as int));
        }
        r
    }
}

/// Finalized root hash computed the explicit way: the one-chunk root for
/// inputs that fit in one chunk, and otherwise the full recursion — split on
/// `left_subtree_len`, leaves through `hash_chunk`, sibling merges through
/// `parent_cv` — with `root_hash` applied exactly once at the top. Proven to
/// return exactly the value that `hash_single` returns for the same input.
pub fn hash_single_recursive(data: &[u8]) -> (r: Vec<u8>)
    ensures
        r@.len() == 32,
        r@ == spec_root_hash(data@),
{
    if data.len() <= CHUNK_SIZE {
        hash_single(data)
    } else {
        let l = left_subtree_len(data.len() as u64);
        let left = slice_subrange(data, 0, l as usize);
        let right = slice_subrange(data, l as usize, data.len());
        let left_cv = hash_subtree_recursive(left, 0);
        let right_cv = hash_subtree_recursive(right, l);
        let r = root_hash(left_cv.as_slice(), right_cv.as_slice());
        proof {
            assert(left@ =~= data@.take(l as int));
            assert(right@ =~= data@.skip(l as int));
        }
        r
    }
}

/// Shape invariance: the chaining value of a multi-chunk span equals the
/// non-root merge of its two children's chaining values under the canonical
/// split. Applied at every level, any decomposition of a fixed input that
/// respects `left_subtree_len` therefore reduces to the same value as hashing
/// the span in one piece, independent of the order subtrees are computed in.
pub proof fn lemma_subtree_cv_split(data: Seq<u8>, input_offset: nat)
    requires
        data.len() > CHUNK_SIZE,
    ensures
        subtree_cv(data, input_offset) == parent_merge(
            subtree_cv(data.take(largest_pow2_below(data.len()) as int), input_offset),
            subtree_cv(
                data.skip(largest_pow2_below(data.len()) as int),
                input_offset + largest_pow2_below(data.len()),
            ),
        ),
{
}

/// Root finalization rule: for a multi-chunk input, the root hash is the root
/// merge — a primitive distinct from the non-root merge — of the two
/// top-level subtree chaining values under the canonical split, applied
/// exactly once.
pub proof fn lemma_root_hash_split(data: Seq<u8>)
    requires
        data.len() > CHUNK_SIZE,
    ensures
        spec_root_hash(data) == root_merge(
            subtree_cv(data.take(largest_pow2_below(data.len()) as int), 0),
            subtree_cv(data.skip(largest_pow2_below(data.len()) as int), largest_pow2_below(data.len())),
        ),
{
}

} // verus!

//! Combination logic of the BLAKE3 tree hash: canonical splitting of an input
//! into chunk-sized leaves, leaf and subtree chaining values, bottom-up merging
//! with explicit root finalization, and a buffer arena for zero-copy hashing.
//!
//! The compression function itself is opaque: the library calls the `blake3`
//! crate for every cryptographic primitive and proves the tree logic around it.

use vstd::prelude::*;

pub mod arena;
pub mod hash;
pub mod split;

pub use crate::arena::BufferArena;

pub use crate::hash::{
    chunk_len, hash_chunk, hash_single, hash_single_recursive, hash_subtree,
    hash_subtree_recursive, parent_cv, root_hash,
};
pub use crate::split::left_subtree_len;

verus! {

/// Fixed protocol constant: the maximum number of bytes in one leaf chunk.
/// Changing it would change every resulting hash.
pub const CHUNK_SIZE: usize = 1024;

} // verus!

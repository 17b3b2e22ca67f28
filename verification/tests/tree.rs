use blake3_tree::{
    chunk_len, hash_chunk, hash_single, hash_single_recursive, hash_subtree,
    hash_subtree_recursive, left_subtree_len, parent_cv, root_hash,
};

/// Deterministic pseudo-random bytes so tests need no external generator.
fn test_bytes(len: usize) -> Vec<u8> {
    let mut state: u64 = 0x9e37_79b9_7f4a_7c15;
    let mut out = Vec::with_capacity(len);
    for _ in 0..len {
        state = state.wrapping_mul(6364136223846793005).wrapping_add(1442695040888963407);
        out.push((state >> 56) as u8);
    }
    out
}

#[test]
fn chunk_len_is_fixed() {
    assert_eq!(chunk_len(), 1024);
}

#[test]
fn hash_chunk_deterministic() {
    let data = test_bytes(1024);
    let a = hash_chunk(&data, 7);
    let b = hash_chunk(&data, 7);
    assert_eq!(a, b);
    assert_eq!(a.len(), 32);
    let copy = data.clone();
    assert_eq!(hash_chunk(&copy, 7), a);
}

#[test]
fn hash_chunk_depends_on_index() {
    let data = test_bytes(1024);
    assert_ne!(hash_chunk(&data, 0), hash_chunk(&data, 1));
}

#[test]
fn left_subtree_len_concrete_cases() {
    assert_eq!(left_subtree_len(2048), 1024);
    assert_eq!(left_subtree_len(3072), 2048);
    assert_eq!(left_subtree_len(1025), 1024);
    assert_eq!(left_subtree_len(2049), 2048);
    assert_eq!(left_subtree_len(4096), 2048);
    assert_eq!(left_subtree_len(4097), 4096);
    assert_eq!(left_subtree_len(1_000_000), 524_288);
}

#[test]
fn empty_input_constant_digest() {
    let expected: [u8; 32] = [
        0xaf, 0x13, 0x49, 0xb9, 0xf5, 0xf9, 0xa1, 0xa6, 0xa0, 0x40, 0x4d, 0xea, 0x36, 0xdc,
        0xc9, 0x49, 0x9b, 0xcb, 0x25, 0xc9, 0xad, 0xc1, 0x12, 0xb7, 0xcc, 0x9a, 0x93, 0xca,
        0xe4, 0x1f, 0x32, 0x62,
    ];
    assert_eq!(hash_single(&[]), expected.to_vec());
    assert_eq!(hash_single(&[]), blake3::hash(&[]).as_bytes().to_vec());
}

#[test]
fn hash_single_matches_primitive() {
    for len in [0usize, 1, 31, 1023, 1024, 1025, 2048, 3072, 4096, 5000, 10_000] {
        let data = test_bytes(len);
        assert_eq!(
            hash_single(&data),
            blake3::hash(&data).as_bytes().to_vec(),
            "length {len}"
        );
    }
}

#[test]
fn hash_single_equals_recursive() {
    for len in [0usize, 1, 512, 1024, 1025, 2048, 3071, 3072, 4096, 4097, 8192, 9000] {
        let data = test_bytes(len);
        assert_eq!(hash_single(&data), hash_single_recursive(&data), "length {len}");
    }
}

#[test]
fn manual_recursion_three_chunks() {
    let data = test_bytes(3072);
    let cv0 = hash_chunk(&data[..1024], 0);
    let cv1 = hash_chunk(&data[1024..2048], 1);
    let cv2 = hash_chunk(&data[2048..], 2);
    let parent = parent_cv(&cv0, &cv1);
    let root = root_hash(&parent, &cv2);
    assert_eq!(root, hash_single(&data));
}

#[test]
fn shape_invariance_of_decomposition() {
    let data = test_bytes(3072);
    // Left subtree hashed in one call, or chunk by chunk: same chaining value.
    let left_whole = hash_subtree(&data[..2048], 0);
    let left_pieces = parent_cv(
        &hash_chunk(&data[..1024], 0),
        &hash_chunk(&data[1024..2048], 1),
    );
    assert_eq!(left_whole, left_pieces);
    // Right subtree computed before the left: still the same root.
    let right = hash_subtree(&data[2048..], 2048);
    let root_a = root_hash(&left_whole, &right);
    let root_b = root_hash(&left_pieces, &right);
    assert_eq!(root_a, root_b);
    assert_eq!(root_a, hash_single(&data));
}

#[test]
fn subtree_offset_consistency() {
    let data = test_bytes(4096);
    assert_eq!(
        hash_chunk(&data[1024..2048], 1),
        hash_subtree(&data[1024..2048], 1024)
    );
    let back_half_whole = hash_subtree(&data[2048..], 2048);
    let back_half_pieces = parent_cv(
        &hash_chunk(&data[2048..3072], 2),
        &hash_chunk(&data[3072..], 3),
    );
    assert_eq!(back_half_whole, back_half_pieces);
}

#[test]
fn subtree_recursive_matches_one_call() {
    let data = test_bytes(6144);
    assert_eq!(
        hash_subtree_recursive(&data[..4096], 0),
        hash_subtree(&data[..4096], 0)
    );
    assert_eq!(
        hash_subtree_recursive(&data[4096..], 4096),
        hash_subtree(&data[4096..], 4096)
    );
}

#[test]
fn merge_is_not_commutative() {
    let a = [0x11u8; 32];
    let b = [0x22u8; 32];
    assert_ne!(parent_cv(&a, &b), parent_cv(&b, &a));
    assert_ne!(root_hash(&a, &b), root_hash(&b, &a));
}

#[test]
fn root_and_parent_merges_are_domain_separated() {
    let a = [0x11u8; 32];
    let b = [0x22u8; 32];
    assert_ne!(root_hash(&a, &b), parent_cv(&a, &b));
    let c = [0u8; 32];
    assert_ne!(root_hash(&c, &c), parent_cv(&c, &c));
}

use std::hash::{DefaultHasher, Hash, Hasher};
use twedia::utils::{hash_chunk, BoolToggleExt};

#[test]
fn toggle_flips_and_restores() {
    let mut b = false;
    b.toggle();
    assert!(b);
    b.toggle();
    assert!(!b);
}

#[test]
fn hash_chunk_matches_slice_hash() {
    let data: Vec<u8> = vec![1, 2, 3, 250];
    let mut s = DefaultHasher::new();
    Hash::hash_slice(&data, &mut s);
    assert_eq!(hash_chunk(&data), s.finish());
    assert_eq!(hash_chunk(&data), hash_chunk(&data.clone()));
    assert_ne!(hash_chunk(&data), hash_chunk(&[1, 2, 3]));
}

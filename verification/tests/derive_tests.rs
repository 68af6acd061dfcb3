//! Address derivation: determinism and collision-freedom over many seeds.

use secret::addr::{derive_like_key, derive_profile_key, derive_vault_key, Address};
use std::collections::HashSet;

fn addr(n: u64) -> Address {
    Address { w0: n, w1: n.wrapping_mul(7), w2: 0, w3: 0 }
}

fn words(a: &Address) -> (u64, u64, u64, u64) {
    (a.w0, a.w1, a.w2, a.w3)
}

#[test]
fn derive_is_deterministic() {
    let program = addr(424242);
    let name = b"alice".to_vec();
    let first = derive_profile_key(&program, &addr(1), &name).unwrap();
    let second = derive_profile_key(&program, &addr(1), &name).unwrap();
    assert_eq!(words(&first.0), words(&second.0));
    assert_eq!(first.1, second.1);
}

#[test]
fn derive_ten_thousand_distinct_seeds_no_collision() {
    let program = addr(424242);
    let name = b"alice".to_vec();
    let mut seen: HashSet<(u64, u64, u64, u64)> = HashSet::new();
    for i in 0..10_000u64 {
        let (key, _salt) = derive_profile_key(&program, &addr(i), &name).unwrap();
        // A program-derived address never echoes its inputs back.
        assert_ne!(words(&key), words(&program));
        assert_ne!(words(&key), words(&addr(i)));
        assert!(seen.insert(words(&key)), "collision at seed {}", i);
    }
    assert_eq!(seen.len(), 10_000);
}

#[test]
fn derive_namespaces_are_disjoint() {
    let program = addr(424242);
    let owner = addr(5);
    let name = b"alice".to_vec();
    let (profile, _) = derive_profile_key(&program, &owner, &name).unwrap();
    let (vault, _) = derive_vault_key(&program, &profile).unwrap();
    let (like, _) = derive_like_key(&program, &owner, &profile, 0).unwrap();
    assert_ne!(words(&profile), words(&vault));
    assert_ne!(words(&profile), words(&like));
    assert_ne!(words(&vault), words(&like));
}

#[test]
fn derive_like_keys_vary_with_sequence_number() {
    let program = addr(424242);
    let owner = addr(5);
    let profile = addr(77);
    let mut seen: HashSet<(u64, u64, u64, u64)> = HashSet::new();
    for count in 0..50u64 {
        let (key, _) = derive_like_key(&program, &owner, &profile, count).unwrap();
        assert!(seen.insert(words(&key)));
    }
}

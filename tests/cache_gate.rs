use std::collections::HashSet;

use frostgate_prover::cache::{ProgramCache, ProgramInfo};
use frostgate_prover::digest::program_hash;
use frostgate_prover::gate::ConcurrencyGate;

#[test]
fn keccak_hex_of_empty_input() {
    assert_eq!(
        program_hash(b""),
        "c5d2460186f7233c927e7db2dcc703c0e500b653ca82273b7bfad8045d85a470"
    );
}

#[test]
fn keccak_hex_of_abc() {
    assert_eq!(
        program_hash(b"abc"),
        "4e03657aea45a94fc7d47ba826c8d667c0d1e6e33a64a036ec44f58fa12d6c45"
    );
}

#[test]
fn digest_is_deterministic_and_sized() {
    let a = program_hash(b"add_two_numbers");
    let b = program_hash(b"add_two_numbers");
    assert_eq!(a, b);
    assert_eq!(a.len(), 64);
    assert!(a.chars().all(|c| c.is_ascii_hexdigit() && !c.is_ascii_uppercase()));
}

#[test]
fn distinct_programs_have_distinct_digests() {
    let mut seen = HashSet::new();
    let mut state: u64 = 0x9e37_79b9_7f4a_7c15;
    let mut inputs = HashSet::new();
    for n in 0..2000u32 {
        let len = (n % 40) as usize;
        let mut bytes = Vec::with_capacity(len);
        for _ in 0..len {
            state ^= state << 13;
            state ^= state >> 7;
            state ^= state << 17;
            bytes.push((state >> 24) as u8);
        }
        if inputs.insert(bytes.clone()) {
            assert!(seen.insert(program_hash(&bytes)), "collision on {:?}", bytes);
        }
    }
    for a in 0..=255u8 {
        if inputs.insert(vec![a, 0xff, 0x00]) {
            assert!(seen.insert(program_hash(&[a, 0xff, 0x00])));
        }
    }
}

#[test]
fn cache_insert_is_idempotent() {
    let mut cache = ProgramCache::new();
    let first = ProgramInfo::new(b"prog", vec![1], vec![2], 10);
    let second = ProgramInfo::new(b"prog", vec![3], vec![4], 20);
    let hash = first.program_hash.clone();
    assert_eq!(hash, second.program_hash);
    cache.insert(first);
    cache.insert(second);
    assert_eq!(cache.len(), 1);
    let kept = cache.get(&hash).unwrap();
    assert_eq!(kept.proving_key, vec![1]);
    assert_eq!(kept.compiled_at, 10);
    assert!(cache.contains(&hash));
    assert!(!cache.contains(&program_hash(b"other")));
    assert!(cache.get(&program_hash(b"other")).is_none());
    cache.clear();
    assert_eq!(cache.len(), 0);
}

#[test]
fn gate_never_exceeds_bound_and_drains_queue() {
    let n = 3usize;
    let k = 4usize;
    let mut gate = ConcurrencyGate::new(n);
    let mut admitted = 0;
    for _ in 0..(n + k) {
        if gate.acquire() {
            admitted += 1;
        }
        assert!(gate.active() <= n);
    }
    assert_eq!(admitted, n);
    assert_eq!(gate.queued(), k);
    assert_eq!(gate.available(), 0);
    let mut finished_waiters = 0;
    while gate.active() > 0 {
        let wake = gate.release();
        if wake {
            assert!(gate.wake());
            finished_waiters += 1;
        }
        assert!(gate.active() <= n);
    }
    assert_eq!(finished_waiters, k);
    assert_eq!(gate.queued(), 0);
    assert_eq!(gate.available(), n);
}

#[test]
fn gate_cancel_leaks_no_permit() {
    let mut gate = ConcurrencyGate::new(1);
    assert!(gate.acquire());
    assert!(!gate.acquire());
    assert_eq!(gate.queued(), 1);
    gate.cancel();
    assert_eq!(gate.queued(), 0);
    assert!(!gate.release());
    assert_eq!(gate.available(), 1);
    assert!(!gate.wake());
    assert!(!gate.release());
    assert_eq!(gate.active(), 0);
}

use rustybench::digest::{blake3_hex_id, derive_seed, mint_canary};
use rustybench::rng::Rng;

#[test]
fn seed_derivation_is_deterministic() {
    assert_eq!(derive_seed("2026-08", "window-op", 3), derive_seed("2026-08", "window-op", 3));
    assert_ne!(derive_seed("2026-08", "window-op", 3), derive_seed("2026-08", "window-op", 4));
}

#[test]
fn canary_is_stable_and_seed_specific() {
    assert_eq!(mint_canary("window-op", 7), mint_canary("window-op", 7));
    assert_ne!(mint_canary("window-op", 7), mint_canary("window-op", 8));
    assert!(mint_canary("window-op", 7).starts_with("rb-"));
}

#[test]
fn rng_is_deterministic() {
    let mut a = Rng::new(42);
    let mut b = Rng::new(42);
    for _ in 0..10 {
        assert_eq!(a.next_u64(), b.next_u64());
    }
}

#[test]
fn derived_seed_is_the_digest_prefix() {
    let mut bytes = b"2026-08".to_vec();
    bytes.push(0);
    bytes.extend_from_slice(b"window-op");
    bytes.push(0);
    bytes.extend_from_slice(&3u32.to_le_bytes());
    let h = blake3::hash(&bytes);
    let mut first = [0u8; 8];
    first.copy_from_slice(&h.as_bytes()[..8]);
    assert_eq!(derive_seed("2026-08", "window-op", 3), u64::from_le_bytes(first));
}

#[test]
fn canary_is_twelve_hex_digits_of_the_digest() {
    let mut bytes = b"seq-transform".to_vec();
    bytes.extend_from_slice(&9u64.to_le_bytes());
    let hex = blake3::hash(&bytes).to_hex().to_string();
    let c = mint_canary("seq-transform", 9);
    assert_eq!(c, format!("rb-{}", &hex[..12]));
    assert_eq!(c.len(), 15);
}

#[test]
fn hex_id_differs_from_its_input() {
    let id = blake3_hex_id(b"abc");
    assert_eq!(id, format!("blake3:{}", blake3::hash(b"abc").to_hex()));
    assert_ne!(id, "blake3:abc");
}

#[test]
fn rng_matches_splitmix64() {
    // The generator starts one step into the SplitMix64 stream of its seed.
    let mut r = Rng::new(0);
    assert_eq!(r.next_u64(), 0x6E78_9E6A_A1B9_65F4);
    let mut z: u64 = 3u64.wrapping_mul(0x9E37_79B9_7F4A_7C15);
    z = (z ^ (z >> 30)).wrapping_mul(0xBF58_476D_1CE4_E5B9);
    z = (z ^ (z >> 27)).wrapping_mul(0x94D0_49BB_1331_11EB);
    assert_eq!(r.next_u64(), z ^ (z >> 31));
    let mut r = Rng::new(5);
    for _ in 0..50 {
        assert!(r.below(7) < 7);
    }
}

#[test]
fn first_output_differs_between_seeds() {
    let mut seen = std::collections::HashSet::new();
    for seed in 0u64..200 {
        assert!(seen.insert(Rng::new(seed).next_u64()));
    }
    assert!(seen.insert(Rng::new(u64::MAX).next_u64()));
}

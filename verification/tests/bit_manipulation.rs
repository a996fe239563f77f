use rustybench::gen::bit_manipulation::{apply_transform, eval, sample, worked_examples, BitManipulationFamily, Mask, Spec, Transform, CANONICAL};

#[test]
fn bit_manipulation_generation_is_deterministic() {
    let g = BitManipulationFamily;
    assert_eq!(g.generate(11).prompt, g.generate(11).prompt);
    assert_eq!(g.generate(11).hidden, g.generate(11).hidden);
}

#[test]
fn bit_manipulation_eval_matches_intent() {
    // KeepLow(8) then RotateLeft(4): mask 0x...F1 -> 0xF1, rotate left 4 -> 0xF10.
    let spec = Spec { mask: Mask::KeepLow(8), transform: Transform::RotateLeft(4), fn_name: "f" };
    assert_eq!(eval(&spec, 0x9ABC_DEF1), 0x0000_0F10);

    // SwapBytes of the canonical.
    let spec = Spec { mask: Mask::Identity, transform: Transform::SwapBytes, fn_name: "f" };
    assert_eq!(eval(&spec, 0x9ABC_DEF1), 0xF1DE_BC9A);

    // ClearLow(16) keeps the high half; RotateRight(16) moves it to the low half.
    let spec = Spec { mask: Mask::ClearLow(16), transform: Transform::RotateRight(16), fn_name: "f" };
    assert_eq!(eval(&spec, 0x9ABC_DEF1), 0x0000_9ABC);
}

#[test]
fn bit_manipulation_seeds_vary_the_pipeline() {
    let mut variants = std::collections::HashSet::new();
    for seed in 0..300u64 {
        let s = sample(seed);
        variants.insert(format!("{:?}/{:?}", s.mask, s.transform));
    }
    assert!(variants.len() >= 16, "expected wide structural variety, got {}", variants.len());
}

#[test]
fn canonical_is_never_zero_or_identity() {
    let canonical = 0x9ABC_DEF1u32;
    let masks = |n: u32| [Mask::Identity, Mask::KeepLow(n), Mask::KeepHigh(n), Mask::ClearLow(n), Mask::SetLow(n)];
    for &n in [8u32, 16, 24].iter() {
        for mask in masks(n) {
            for k in 1..=31u32 {
                for transform in [
                    Transform::RotateLeft(k),
                    Transform::RotateRight(k),
                    Transform::ReverseBits,
                    Transform::SwapBytes,
                ] {
                    let spec = Spec { mask, transform, fn_name: "f" };
                    let out = eval(&spec, canonical);
                    assert_ne!(out, 0, "zero under {mask:?}/{transform:?}");
                    assert_ne!(out, canonical, "unchanged under {mask:?}/{transform:?}");
                }
            }
        }
    }
}

#[test]
fn bit_manipulation_reference_matches_native_eval() {
    for seed in [1u64, 2, 3, 7, 42, 99, 2024] {
        let spec = sample(seed);
        let (_, cases) = worked_examples(&spec, seed);
        for (input, out) in cases {
            assert_eq!(eval(&spec, input), out, "seed {seed}");
        }
    }
}

#[test]
fn bit_manipulation_canary_is_in_the_prompt() {
    let g = BitManipulationFamily;
    let t = g.generate(6);
    assert!(t.prompt.contains(&t.canary));
}

#[test]
fn bit_manipulation_canonical_is_the_first_example() {
    let spec = sample(5);
    let (prose, cases) = worked_examples(&spec, 5);
    assert_eq!(cases[0].0, CANONICAL);
    assert!(prose.lines().count() >= 1);
    let t = BitManipulationFamily.generate(5);
    assert_eq!(t.files.len(), 2);
    assert_eq!(t.files[0].0, "Cargo.toml");
    assert_eq!(t.files[1].0, "src/lib.rs");
    assert_eq!(t.files[1].1, BitManipulationFamily.skeleton_code(5));
    assert!(BitManipulationFamily.reference_code(5).contains(spec.fn_name));
}

#[test]
fn transforms_agree_with_the_std_methods() {
    let inputs = [0u32, 1, 0x8000_0001, 0x9ABC_DEF1, 0xFFFF_0000, u32::MAX, 0x1234_5678];
    for &x in inputs.iter() {
        for k in [0u32, 1, 4, 13, 31, 32, 33, 100] {
            assert_eq!(apply_transform(Transform::RotateLeft(k), x), x.rotate_left(k));
            assert_eq!(apply_transform(Transform::RotateRight(k), x), x.rotate_right(k));
        }
        assert_eq!(apply_transform(Transform::ReverseBits, x), x.reverse_bits());
        assert_eq!(apply_transform(Transform::SwapBytes, x), x.swap_bytes());
    }
}

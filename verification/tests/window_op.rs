use rustybench::gen::window_op::{apply, sample, worked_examples, Op, Spec, WindowOpFamily};

#[test]
fn window_op_generation_is_deterministic() {
    let g = WindowOpFamily;
    let a = g.generate(12345);
    let b = g.generate(12345);
    assert_eq!(a.prompt, b.prompt);
    assert_eq!(a.files, b.files);
    assert_eq!(a.hidden, b.hidden);
}

#[test]
fn seeds_vary_op_and_stride() {
    let mut variants = std::collections::HashSet::new();
    for seed in 0..80u64 {
        let s = sample(seed);
        variants.insert(format!("{:?}/{}", s.op, s.stride));
    }
    assert!(variants.len() >= 10, "expected structural variety, got {}", variants.len());
}

#[test]
fn reference_agrees_with_native_apply() {
    for seed in [1u64, 2, 3, 7, 42, 99] {
        let spec = sample(seed);
        let (_, cases) = worked_examples(&spec);
        for (input, w, expected, count) in cases {
            let mut v = input.clone();
            let c = apply(&spec, &mut v, w);
            assert_eq!((c, v), (count, expected), "seed {seed}");
        }
    }
}

#[test]
fn window_op_canary_is_in_the_prompt() {
    let g = WindowOpFamily;
    let t = g.generate(42);
    assert!(t.prompt.contains(&t.canary));
}

#[test]
fn window_op_rotations_and_strides() {
    let spec = Spec { op: Op::RotateLeft(1), stride: 1, fn_name: "f" };
    let mut v = vec![1, 2, 3, 4, 5, 6, 7];
    assert_eq!(apply(&spec, &mut v, 3), 2);
    assert_eq!(v, vec![2, 3, 1, 5, 6, 4, 7]);

    let spec = Spec { op: Op::Reverse, stride: 2, fn_name: "f" };
    let mut v = vec![1, 2, 3, 4, 5, 6];
    assert_eq!(apply(&spec, &mut v, 2), 2);
    assert_eq!(v, vec![2, 1, 3, 4, 6, 5]);

    let spec = Spec { op: Op::SwapEnds, stride: 1, fn_name: "f" };
    let mut v = vec![1, 2, 3];
    assert_eq!(apply(&spec, &mut v, 0), 0);
    assert_eq!(v, vec![1, 2, 3]);
}

#[test]
fn window_op_signature_is_kind_and_stride() {
    for seed in 0..20u64 {
        let sig = WindowOpFamily.spec_signature(seed);
        let s = sample(seed);
        assert_eq!(sig.len(), 2);
        assert!(sig[0].starts_with("op:"));
        assert_eq!(sig[1], format!("stride:{}", s.stride));
    }
}

#[test]
fn apply_with_zero_width_is_noop() {
    for seed in [1u64, 5, 9] {
        let spec = sample(seed);
        let mut v = vec![1i64, 2, 3, 4, 5];
        assert_eq!(apply(&spec, &mut v, 0), 0);
        assert_eq!(v, vec![1, 2, 3, 4, 5]);
    }
}

#[test]
fn apply_leaves_trailing_remainder_and_length() {
    for seed in 0u64..20 {
        let spec = sample(seed);
        let mut v: Vec<i64> = (1..=11).collect();
        apply(&spec, &mut v, 3);
        assert_eq!(v.len(), 11);
        assert_eq!(&v[9..], &[10, 11]);
    }
}

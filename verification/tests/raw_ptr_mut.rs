use rustybench::gen::raw_ptr_mut::{bound, eval, sample, start, stride, worked_examples, RawPtrMutFamily, Spec, Target, Transform};

#[test]
fn raw_ptr_mut_generation_is_deterministic() {
    let g = RawPtrMutFamily;
    assert_eq!(g.generate(31).prompt, g.generate(31).prompt);
    assert_eq!(g.generate(31).hidden, g.generate(31).hidden);
}

#[test]
fn raw_ptr_mut_eval_matches_intent() {
    let mk = |target, transform| Spec { target, transform, fn_name: "f" };

    let mut v = vec![3, 1];
    assert_eq!(eval(&mk(Target::All, Transform::Double), &mut v), 2);
    assert_eq!(v, vec![6, 2]);

    let mut v = vec![3, 1, 4, 2];
    assert_eq!(eval(&mk(Target::EvenIdx, Transform::Increment), &mut v), 2);
    assert_eq!(v, vec![4, 1, 5, 2]);

    let mut v = vec![3, 1, 4, 2];
    assert_eq!(eval(&mk(Target::OddIdx, Transform::Negate), &mut v), 2);
    assert_eq!(v, vec![3, -1, 4, -2]);

    let mut v = vec![3, 1, 4, 2];
    assert_eq!(eval(&mk(Target::FirstHalf, Transform::Square), &mut v), 2);
    assert_eq!(v, vec![9, 1, 4, 2]);

    let mut v: Vec<i64> = Vec::new();
    assert_eq!(eval(&mk(Target::All, Transform::Double), &mut v), 0);
}

#[test]
fn raw_ptr_mut_seeds_vary_the_task() {
    let mut variants = std::collections::HashSet::new();
    for seed in 0..300u64 {
        let s = sample(seed);
        variants.insert(format!("{:?}/{:?}", s.target, s.transform));
    }
    assert!(variants.len() >= 14, "expected wide structural variety, got {}", variants.len());
}

#[test]
fn canonical_output_is_never_all_zero_and_count_positive() {
    let canonical = [3i64, 1, 4, 2];
    for &target in &[Target::All, Target::EvenIdx, Target::OddIdx, Target::FirstHalf] {
        let mut n = 0;
        let mut i = start(target);
        while i < bound(target, canonical.len()) {
            n += 1;
            i += stride(target);
        }
        assert!(n >= 2, "{target:?} selects only {n} of the canonical");
        for &transform in &[Transform::Double, Transform::Negate, Transform::Square, Transform::Increment] {
            let spec = Spec { target, transform, fn_name: "f" };
            let mut out = canonical.to_vec();
            let wrote = eval(&spec, &mut out);
            assert!(wrote >= 2, "{target:?}: canonical wrote {wrote}");
            assert!(out.iter().all(|&v| v != 0), "{target:?}/{transform:?}: canonical output {out:?} contains 0");
        }
    }
}

#[test]
fn raw_ptr_mut_reference_matches_native_eval() {
    for seed in [1u64, 2, 3, 7, 42, 99, 2024] {
        let spec = sample(seed);
        let (_, cases) = worked_examples(&spec, seed);
        for (input, out, n) in cases {
            let mut buf = input;
            let wrote = eval(&spec, &mut buf);
            assert_eq!((buf, wrote), (out, n), "seed {seed}");
        }
    }
}

#[test]
fn raw_ptr_mut_canary_is_in_the_prompt() {
    let g = RawPtrMutFamily;
    let t = g.generate(9);
    assert!(t.prompt.contains(&t.canary));
}

#[test]
fn raw_ptr_mut_first_half_of_odd_length() {
    let spec = Spec { target: Target::FirstHalf, transform: Transform::Increment, fn_name: "f" };
    let mut v = vec![1, 2, 3, 4, 5];
    assert_eq!(eval(&spec, &mut v), 2);
    assert_eq!(v, vec![2, 3, 3, 4, 5]);
}

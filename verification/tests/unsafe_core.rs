use rustybench::gen::unsafe_core::{bound, eval, sample, start, stride, worked_examples, Access, Reduce, Spec, UnsafeCoreFamily};

#[test]
fn unsafe_core_generation_is_deterministic() {
    let g = UnsafeCoreFamily;
    assert_eq!(g.generate(31).prompt, g.generate(31).prompt);
    assert_eq!(g.generate(31).hidden, g.generate(31).hidden);
}

#[test]
fn unsafe_core_eval_matches_intent() {
    let spec = Spec { access: Access::Forward, reduce: Reduce::Sum, fn_name: "f" };
    assert_eq!(eval(&spec, &[3, 1, 4, 2]), 10);

    let spec = Spec { access: Access::EveryOther, reduce: Reduce::Product, fn_name: "f" };
    assert_eq!(eval(&spec, &[3, 1, 4, 2]), 12);
    assert_eq!(eval(&spec, &[]), 1);

    let spec = Spec { access: Access::OddIndices, reduce: Reduce::Sum, fn_name: "f" };
    assert_eq!(eval(&spec, &[3, 1, 4, 2]), 3);

    let spec = Spec { access: Access::FirstHalf, reduce: Reduce::SumOfPositives, fn_name: "f" };
    assert_eq!(eval(&spec, &[3, -1, 4, 2]), 3);
}

#[test]
fn unsafe_core_seeds_vary_the_task() {
    let mut variants = std::collections::HashSet::new();
    for seed in 0..300u64 {
        let s = sample(seed);
        variants.insert(format!("{:?}/{:?}", s.access, s.reduce));
    }
    assert!(variants.len() >= 16, "expected wide structural variety, got {}", variants.len());
}

#[test]
fn unsafe_core_canonical_answer_is_never_zero_or_one() {
    let canonical = [3i64, 1, 4, 2];
    for &access in &[Access::Forward, Access::EveryOther, Access::OddIndices, Access::FirstHalf] {
        let mut n = 0;
        let mut i = start(access);
        while i < bound(access, canonical.len()) {
            n += 1;
            i += stride(access);
        }
        assert!(n >= 2, "{access:?} selects only {n} of the canonical");
        for &reduce in &[Reduce::Sum, Reduce::Product, Reduce::SumOfSquares, Reduce::SumOfAbs, Reduce::SumOfPositives] {
            let spec = Spec { access, reduce, fn_name: "f" };
            let ans = eval(&spec, &canonical);
            assert!(ans != 0 && ans != 1, "canonical answer {ans} is 0 or 1 under {access:?}/{reduce:?}");
        }
    }
}

#[test]
fn unsafe_core_reference_matches_native_eval() {
    for seed in [1u64, 2, 3, 7, 42, 99, 2024] {
        let spec = sample(seed);
        let (_, cases) = worked_examples(&spec, seed);
        for (input, out) in cases {
            assert_eq!(eval(&spec, &input), out, "seed {seed}");
        }
    }
}

#[test]
fn unsafe_core_canary_is_in_the_prompt() {
    let g = UnsafeCoreFamily;
    let t = g.generate(9);
    assert!(t.prompt.contains(&t.canary));
}

#[test]
fn unsafe_core_sum_of_squares_over_odd_indices() {
    let spec = Spec { access: Access::OddIndices, reduce: Reduce::SumOfSquares, fn_name: "f" };
    assert_eq!(eval(&spec, &[5, -2, 7, 3, 9]), 13);
}

use rustybench::gen::traits_generics::{eval, kept, sample, worked_examples, Keep, Reduce, Spec, TraitsGenericsFamily};

#[test]
fn traits_generics_generation_is_deterministic() {
    let g = TraitsGenericsFamily;
    assert_eq!(g.generate(23).prompt, g.generate(23).prompt);
    assert_eq!(g.generate(23).hidden, g.generate(23).hidden);
}

#[test]
fn traits_generics_eval_matches_intent() {
    let spec = Spec { keep: Keep::Positive, reduce: Reduce::Sum, struct_name: "Agg", driver_name: "aggregate" };
    assert_eq!(eval(&spec, &[2, -1, 4, 0, 5]), 11);

    let spec = Spec { keep: Keep::Even, reduce: Reduce::Product, struct_name: "Agg", driver_name: "aggregate" };
    assert_eq!(eval(&spec, &[2, 3, 4, 5, 6]), 48);
    assert_eq!(eval(&spec, &[]), 1);
    assert_eq!(eval(&spec, &[1, 3, 5]), 1);

    let spec = Spec { keep: Keep::Odd, reduce: Reduce::Count, struct_name: "Agg", driver_name: "aggregate" };
    assert_eq!(eval(&spec, &[1, 2, 3, 4, 5]), 3);

    let spec = Spec { keep: Keep::NonNegative, reduce: Reduce::SumOfSquares, struct_name: "Agg", driver_name: "aggregate" };
    assert_eq!(eval(&spec, &[-1, 0, 2, 3]), 13);
}

#[test]
fn seeds_vary_the_reduction() {
    let mut variants = std::collections::HashSet::new();
    for seed in 0..300u64 {
        let s = sample(seed);
        variants.insert(format!("{:?}/{:?}", s.keep, s.reduce));
    }
    assert!(variants.len() >= 16, "expected wide structural variety, got {}", variants.len());
}

#[test]
fn traits_generics_canonical_answer_is_never_zero_or_one() {
    let canonical = [2i64, 3, 4, 5];
    for &keep in &[Keep::Positive, Keep::Even, Keep::NonNegative, Keep::Odd] {
        let n_kept = canonical.iter().filter(|&&x| kept(keep, x)).count();
        assert!(n_kept >= 2, "{keep:?} keeps only {n_kept} of the canonical");
        for &reduce in &[Reduce::Sum, Reduce::Product, Reduce::Count, Reduce::SumOfSquares, Reduce::SumOfAbs] {
            let spec = Spec { keep, reduce, struct_name: "Agg", driver_name: "aggregate" };
            let ans = eval(&spec, &canonical);
            assert!(ans != 0 && ans != 1, "canonical answer {ans} is 0 or 1 under {keep:?}/{reduce:?}");
        }
    }
}

#[test]
fn traits_generics_reference_matches_native_eval() {
    for seed in [1u64, 2, 3, 7, 42, 99, 2024] {
        let spec = sample(seed);
        let (_, cases) = worked_examples(&spec, seed);
        for (input, out) in cases {
            assert_eq!(eval(&spec, &input), out, "seed {seed}");
        }
    }
}

#[test]
fn traits_generics_canary_is_in_the_prompt() {
    let g = TraitsGenericsFamily;
    let t = g.generate(5);
    assert!(t.prompt.contains(&t.canary));
}

#[test]
fn traits_generics_sum_of_abs() {
    let spec = Spec { keep: Keep::Odd, reduce: Reduce::SumOfAbs, struct_name: "Agg", driver_name: "aggregate" };
    assert_eq!(eval(&spec, &[-3, 2, 5, -1]), 9);
}

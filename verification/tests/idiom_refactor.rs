use rustybench::gen::idiom_refactor::{deidiom_src, eval, sample, worked_examples, ElemMap, Filter, IdiomRefactorFamily, Spec};

#[test]
fn idiom_refactor_generation_is_deterministic() {
    let g = IdiomRefactorFamily;
    assert_eq!(g.generate(33).prompt, g.generate(33).prompt);
    assert_eq!(g.generate(33).hidden, g.generate(33).hidden);
}

#[test]
fn idiom_refactor_eval_matches_intent() {
    let mk = |filter, map| Spec { filter, map, fn_name: "f" };
    assert_eq!(eval(&mk(Filter::Positive, ElemMap::Identity), &[1, -2, 3]), 4);
    assert_eq!(eval(&mk(Filter::Even, ElemMap::Square), &[2, 3, 4]), 20);
    assert_eq!(eval(&mk(Filter::All, ElemMap::Negate), &[1, 2, 3]), -6);
    assert_eq!(eval(&mk(Filter::Nonzero, ElemMap::Double), &[1, 0, 3]), 8);
}

#[test]
fn seeds_vary_filter_and_map() {
    let mut variants = std::collections::HashSet::new();
    for seed in 0..300u64 {
        let s = sample(seed);
        variants.insert(format!("{:?}/{:?}", s.filter, s.map));
    }
    assert!(variants.len() >= 14, "expected wide structural variety, got {}", variants.len());
}

#[test]
fn idiom_refactor_canonical_result_is_nonzero() {
    let canonical = [1i64, 2, 3, 4];
    for &filter in &[Filter::All, Filter::Positive, Filter::Even, Filter::Nonzero] {
        for &map in &[ElemMap::Identity, ElemMap::Double, ElemMap::Square, ElemMap::Negate] {
            let spec = Spec { filter, map, fn_name: "f" };
            assert_ne!(eval(&spec, &canonical), 0, "canonical is zero under {filter:?}/{map:?}");
        }
    }
}

#[test]
fn idiom_refactor_reference_matches_native_eval() {
    for seed in [1u64, 2, 3, 7, 42, 99, 2024] {
        let spec = sample(seed);
        let (_, cases) = worked_examples(&spec, seed);
        for (input, out) in cases {
            assert_eq!(eval(&spec, &input), out, "seed {seed}");
        }
    }
}

#[test]
fn skeleton_is_a_needless_range_loop() {
    let s = deidiom_src(&sample(0));
    assert!(s.contains("for i in 0..xs.len()"), "not an index loop: {s}");
    assert!(s.contains("xs[i]"), "does not index xs: {s}");
}

#[test]
fn idiom_refactor_canary_is_in_the_prompt() {
    let g = IdiomRefactorFamily;
    let t = g.generate(15);
    assert!(t.prompt.contains(&t.canary));
}

#[test]
fn idiom_refactor_baselines_are_the_loop_and_zero() {
    let b = IdiomRefactorFamily.trivial_baselines(9);
    assert_eq!(b.len(), 2);
    assert_eq!(b[0].0, "unchanged");
    assert_eq!(b[0].1, deidiom_src(&sample(9)));
    assert_eq!(b[1].0, "const-zero");
}

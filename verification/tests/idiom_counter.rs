use rustybench::gen::idiom_counter::{deidiom_src, eval, sample, worked_examples, IdiomCounterFamily, Spec, Weight};
use rustybench::gen::idiom_refactor::ElemMap;

#[test]
fn idiom_counter_generation_is_deterministic() {
    let g = IdiomCounterFamily;
    assert_eq!(g.generate(33).prompt, g.generate(33).prompt);
    assert_eq!(g.generate(33).hidden, g.generate(33).hidden);
}

#[test]
fn idiom_counter_eval_matches_intent() {
    let mk = |weight, map| Spec { weight, map, fn_name: "f" };
    assert_eq!(eval(&mk(Weight::Linear, ElemMap::Double), &[1, 2, 3]), 28);
    assert_eq!(eval(&mk(Weight::Reverse, ElemMap::Identity), &[1, 2, 3]), 10);
    assert_eq!(eval(&mk(Weight::Parity, ElemMap::Square), &[1, 2, 3]), 6);
    assert_eq!(eval(&mk(Weight::Linear, ElemMap::Negate), &[1, 2]), -5);
}

#[test]
fn seeds_vary_weight_and_map() {
    let mut variants = std::collections::HashSet::new();
    for seed in 0..300u64 {
        let s = sample(seed);
        variants.insert(format!("{:?}/{:?}", s.weight, s.map));
    }
    assert!(variants.len() >= 10, "expected wide structural variety, got {}", variants.len());
}

#[test]
fn idiom_counter_canonical_result_is_nonzero() {
    let canonical = [3i64, 1, 4, 2];
    for &weight in &[Weight::Linear, Weight::Reverse, Weight::Parity] {
        for &map in &[ElemMap::Identity, ElemMap::Double, ElemMap::Square, ElemMap::Negate] {
            let spec = Spec { weight, map, fn_name: "f" };
            assert_ne!(eval(&spec, &canonical), 0, "canonical is zero under {weight:?}/{map:?}");
        }
    }
}

#[test]
fn idiom_counter_reference_matches_native_eval() {
    for seed in [1u64, 2, 3, 7, 42, 99, 2024] {
        let spec = sample(seed);
        let (_, cases) = worked_examples(&spec, seed);
        for (input, out) in cases {
            assert_eq!(eval(&spec, &input), out, "seed {seed}");
        }
    }
}

#[test]
fn skeleton_has_a_running_counter() {
    for weight in [Weight::Linear, Weight::Reverse, Weight::Parity] {
        let s = deidiom_src(&Spec { weight, map: ElemMap::Double, fn_name: "f" });
        assert!(s.contains("for &x in xs"), "not an element loop: {s}");
        assert!(s.contains("let mut i"), "no declared counter: {s}");
        assert!(s.contains("i += 1;"), "counter never incremented: {s}");
    }
}

#[test]
fn idiom_counter_canary_is_in_the_prompt() {
    let g = IdiomCounterFamily;
    let t = g.generate(15);
    assert!(t.prompt.contains(&t.canary));
}

#[test]
fn idiom_counter_checks_clippy_without_an_unsafe_cap() {
    let t = IdiomCounterFamily.generate(4);
    assert!(t.check_clippy);
    assert_eq!(t.max_unsafe, None);
    assert_eq!(t.weights.behavior, 30);
    assert_eq!(t.weights.constraint, 60);
}

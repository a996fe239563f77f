use rustybench::gen::string_processing::{eval, sample, worked_examples, CaseMap, Filter, Spec, StringProcessingFamily};

#[test]
fn string_processing_generation_is_deterministic() {
    let g = StringProcessingFamily;
    assert_eq!(g.generate(19).prompt, g.generate(19).prompt);
    assert_eq!(g.generate(19).hidden, g.generate(19).hidden);
}

#[test]
fn string_processing_eval_matches_intent() {
    let spec = Spec { filter: Filter::Alpha, map: CaseMap::Upper, reversed: false, fn_name: "f" };
    assert_eq!(eval(&spec, "Hello, World!"), "HELLOWORLD");

    let spec = Spec { filter: Filter::All, map: CaseMap::SwapCase, reversed: true, fn_name: "f" };
    assert_eq!(eval(&spec, "aB c"), "C bA");

    let spec = Spec { filter: Filter::NonSpace, map: CaseMap::Lower, reversed: false, fn_name: "f" };
    assert_eq!(eval(&spec, "A B\tC"), "abc");
}

#[test]
fn string_processing_seeds_vary_the_pipeline() {
    let mut variants = std::collections::HashSet::new();
    for seed in 0..300u64 {
        let s = sample(seed);
        variants.insert(format!("{:?}/{:?}/{}", s.filter, s.map, s.reversed));
    }
    assert!(variants.len() >= 18, "expected wide structural variety, got {}", variants.len());
}

#[test]
fn canonical_changes_under_every_combo() {
    let canonical = "Hello, World!";
    for &filter in &[Filter::Alpha, Filter::Alnum, Filter::NonSpace, Filter::All] {
        for &map in &[CaseMap::Upper, CaseMap::Lower, CaseMap::SwapCase] {
            for &reversed in &[false, true] {
                let spec = Spec { filter, map, reversed, fn_name: "f" };
                let out = eval(&spec, canonical);
                assert!(!out.is_empty(), "empty under {filter:?}/{map:?}/{reversed}");
                assert_ne!(out, canonical, "unchanged under {filter:?}/{map:?}/{reversed}");
            }
        }
    }
}

#[test]
fn string_processing_reference_matches_native_eval() {
    for seed in [1u64, 2, 3, 7, 42, 99, 2024] {
        let spec = sample(seed);
        let (_, cases) = worked_examples(&spec, seed);
        for (input, out) in cases {
            assert_eq!(eval(&spec, &input), out, "seed {seed}");
        }
    }
}

#[test]
fn string_processing_canary_is_in_the_prompt() {
    let g = StringProcessingFamily;
    let t = g.generate(8);
    assert!(t.prompt.contains(&t.canary));
}

#[test]
fn string_processing_alnum_keeps_digits() {
    let spec = Spec { filter: Filter::Alnum, map: CaseMap::Upper, reversed: true, fn_name: "f" };
    assert_eq!(eval(&spec, "ab1 c2!"), "2C1BA");
}

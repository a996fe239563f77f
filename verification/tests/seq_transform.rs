use rustybench::gen::seq_transform::{eval, sample, worked_examples, Filter, SeqMap, SeqTransformFamily, Spec, Terminal};

#[test]
fn seq_transform_generation_is_deterministic() {
    let g = SeqTransformFamily;
    assert_eq!(g.generate(17).prompt, g.generate(17).prompt);
    assert_eq!(g.generate(17).hidden, g.generate(17).hidden);
}

#[test]
fn seq_transform_eval_matches_intent() {
    let spec = Spec { filter: Filter::Positive, map: SeqMap::Double, terminal: Terminal::RunningSum, fn_name: "transform" };
    assert_eq!(eval(&spec, &[2, -5, 8, 0, 3]), vec![4, 20, 26]);

    let spec = Spec { filter: Filter::Even, map: SeqMap::Square, terminal: Terminal::DedupConsecutive, fn_name: "transform" };
    assert_eq!(eval(&spec, &[4, -2, 4, 6, 6]), vec![16, 4, 16, 36]);

    let spec = Spec { filter: Filter::Positive, map: SeqMap::Negate, terminal: Terminal::Collect, fn_name: "transform" };
    assert_eq!(eval(&spec, &[-3, -1, 0, -7]), Vec::<i64>::new());
}

#[test]
fn seq_transform_seeds_vary_the_pipeline() {
    let mut variants = std::collections::HashSet::new();
    for seed in 0..300u64 {
        let s = sample(seed);
        variants.insert(format!("{:?}/{:?}/{:?}", s.filter, s.map, s.terminal));
    }
    assert!(variants.len() >= 30, "expected wide structural variety, got {}", variants.len());
}

#[test]
fn canonical_case_changes_under_every_combo() {
    for &t in [-2i64, 0, 3, 5].iter() {
        for &k in &[1i64, 2, 3] {
            let filters = [Filter::Positive, Filter::Even, Filter::AboveThreshold(t), Filter::NonZero];
            let maps = [SeqMap::Double, SeqMap::Negate, SeqMap::Square, SeqMap::AddK(k)];
            for &f in &filters {
                for &m in &maps {
                    for &term in &[Terminal::Collect, Terminal::RunningSum, Terminal::DedupConsecutive] {
                        let spec = Spec { filter: f, map: m, terminal: term, fn_name: "transform" };
                        let out = eval(&spec, &[2, 5, 8]);
                        assert!(!out.is_empty(), "empty under {f:?} {m:?} {term:?} (t={t}, k={k})");
                        assert_ne!(out, vec![2, 5, 8], "unchanged under {f:?} {m:?} {term:?} (t={t}, k={k})");
                    }
                }
            }
        }
    }
}

#[test]
fn seq_transform_reference_matches_native_eval() {
    for seed in [1u64, 2, 3, 7, 42, 99, 2024] {
        let spec = sample(seed);
        let (_, cases) = worked_examples(&spec, seed);
        for (input, out) in cases {
            assert_eq!(eval(&spec, &input), out, "seed {seed}");
        }
    }
}

#[test]
fn seq_transform_canary_is_in_the_prompt() {
    let g = SeqTransformFamily;
    let t = g.generate(4);
    assert!(t.prompt.contains(&t.canary));
}

#[test]
fn seq_transform_threshold_and_add_k() {
    let spec = Spec { filter: Filter::AboveThreshold(3), map: SeqMap::AddK(2), terminal: Terminal::Collect, fn_name: "sift" };
    assert_eq!(eval(&spec, &[3, 4, -9, 9]), vec![6, 11]);
    let spec = Spec { filter: Filter::NonZero, map: SeqMap::Negate, terminal: Terminal::DedupConsecutive, fn_name: "sift" };
    assert_eq!(eval(&spec, &[1, 1, 0, 1, 2]), vec![-1, -2]);
    let spec = Spec { filter: Filter::NonZero, map: SeqMap::Double, terminal: Terminal::RunningSum, fn_name: "sift" };
    assert_eq!(eval(&spec, &[]), Vec::<i64>::new());
}

#[test]
fn seq_transform_prompt_and_tests_carry_the_examples() {
    let seed = 21u64;
    let spec = sample(seed);
    let (prose, cases) = worked_examples(&spec, seed);
    assert_eq!(cases.len(), 4);
    assert_eq!(cases[0].0, vec![2, 5, 8]);
    let t = SeqTransformFamily.generate(seed);
    assert!(t.prompt.contains(&prose));
    assert!(t.hidden[0].1.contains("fn empty_input()"));
    assert!(t.hidden[1].1.contains("fn reference(xs: &[i64]) -> Vec<i64>"));
    let b = SeqTransformFamily.trivial_baselines(seed);
    assert_eq!(b[0].0, "identity");
    assert_eq!(b[1].0, "empty");
    let sig = SeqTransformFamily.spec_signature(seed);
    assert_eq!(sig.len(), 3);
    assert!(sig[0].starts_with("filter:") && sig[1].starts_with("map:") && sig[2].starts_with("terminal:"));
}

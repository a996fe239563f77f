use rustybench::gen::dual_region::{apply, sample, worked_examples, DualRegionFamily, Op, Pairing, Spec};

fn run(op: Op, pairing: Pairing, mut v: Vec<i64>) -> (Vec<i64>, usize) {
    let spec = Spec { op, pairing, fn_name: "f" };
    let n = apply(&spec, &mut v);
    (v, n)
}

#[test]
fn dual_region_generation_is_deterministic() {
    let g = DualRegionFamily;
    assert_eq!(g.generate(21).prompt, g.generate(21).prompt);
    assert_eq!(g.generate(21).hidden, g.generate(21).hidden);
}

#[test]
fn dual_region_eval_matches_intent() {
    assert_eq!(run(Op::Swap, Pairing::Aligned, vec![6, 4, 3, 1]), (vec![3, 1, 6, 4], 2));
    assert_eq!(run(Op::SumDiff, Pairing::Aligned, vec![6, 4, 3, 1]), (vec![9, 5, 3, 3], 2));
    assert_eq!(run(Op::Swap, Pairing::Mirror, vec![6, 4, 3, 1]), (vec![1, 3, 4, 6], 2));
    assert_eq!(run(Op::Swap, Pairing::Aligned, vec![5, 1, 2]), (vec![1, 5, 2], 1));
    assert_eq!(run(Op::Swap, Pairing::Aligned, vec![9]), (vec![9], 0));
    assert_eq!(run(Op::Swap, Pairing::Aligned, vec![]), (vec![], 0));
}

#[test]
fn seeds_vary_op_and_pairing() {
    let mut variants = std::collections::HashSet::new();
    for seed in 0..300u64 {
        let s = sample(seed);
        variants.insert(format!("{:?}/{:?}", s.op, s.pairing));
    }
    assert!(variants.len() >= 10, "expected wide structural variety, got {}", variants.len());
}

#[test]
fn canonical_changes_and_counts_under_every_combo() {
    let canonical = vec![6i64, 4, 3, 1];
    for &op in &[Op::Swap, Op::SumDiff, Op::SortPair, Op::AddBoth, Op::DiffBoth, Op::MaxBoth] {
        for &pairing in &[Pairing::Aligned, Pairing::Mirror] {
            let (out, count) = run(op, pairing, canonical.clone());
            assert!(count > 0, "zero count under {op:?}/{pairing:?}");
            assert_ne!(out, canonical, "unchanged under {op:?}/{pairing:?}");
        }
    }
}

#[test]
fn dual_region_reference_matches_native_eval() {
    for seed in [1u64, 2, 3, 7, 42, 99, 2024] {
        let spec = sample(seed);
        let (_, cases) = worked_examples(&spec, seed);
        for (input, out, count) in cases {
            let mut v = input.clone();
            let c = apply(&spec, &mut v);
            assert_eq!((v, c), (out, count), "seed {seed}");
        }
    }
}

#[test]
fn dual_region_canary_is_in_the_prompt() {
    let g = DualRegionFamily;
    let t = g.generate(10);
    assert!(t.prompt.contains(&t.canary));
}

#[test]
fn dual_region_hidden_files_in_path_order() {
    let t = DualRegionFamily.generate(3);
    let names: Vec<&str> = t.hidden.iter().map(|(p, _)| p.as_str()).collect();
    assert_eq!(names, vec!["tests/alloc.rs", "tests/behavior.rs", "tests/differential.rs"]);
    assert_eq!(t.alloc_test, "alloc");
}

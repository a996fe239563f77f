use rustybench::gen::generic_select::{eval, sample, worked_examples, GenericSelectFamily, Project, Select, Spec};

#[test]
fn generic_select_generation_is_deterministic() {
    let g = GenericSelectFamily;
    assert_eq!(g.generate(27).prompt, g.generate(27).prompt);
    assert_eq!(g.generate(27).hidden, g.generate(27).hidden);
}

#[test]
fn generic_select_eval_matches_intent() {
    let mk = |select, project| Spec { select, project, fn_name: "f" };
    assert_eq!(eval(&mk(Select::Max, Project::Square), &[3, 7, 2, 5]), Some(49));
    assert_eq!(eval(&mk(Select::Min, Project::Double), &[3, 7, 2, 5]), Some(4));
    assert_eq!(eval(&mk(Select::First, Project::Identity), &[3, 7, 2, 5]), Some(3));
    assert_eq!(eval(&mk(Select::Last, Project::Abs), &[3, 7, 2, 5]), Some(5));
    assert_eq!(eval(&mk(Select::Min, Project::Abs), &[-8, 2, -3]), Some(8));
    assert_eq!(eval(&mk(Select::Max, Project::Identity), &[]), None);
}

#[test]
fn seeds_vary_select_and_project() {
    let mut variants = std::collections::HashSet::new();
    for seed in 0..300u64 {
        let s = sample(seed);
        variants.insert(format!("{:?}/{:?}", s.select, s.project));
    }
    assert!(variants.len() >= 14, "expected wide structural variety, got {}", variants.len());
}

#[test]
fn canonical_is_some_and_never_zero() {
    let canonical = [3i64, 7, 2, 5];
    for &select in &[Select::Max, Select::Min, Select::First, Select::Last] {
        for &project in &[Project::Identity, Project::Abs, Project::Double, Project::Square] {
            let spec = Spec { select, project, fn_name: "f" };
            let ans = eval(&spec, &canonical);
            assert!(matches!(ans, Some(v) if v != 0), "canonical answer {ans:?} is None or 0 under {select:?}/{project:?}");
        }
    }
}

#[test]
fn generic_select_reference_matches_native_eval() {
    for seed in [1u64, 2, 3, 7, 42, 99, 2024] {
        let spec = sample(seed);
        let (_, cases) = worked_examples(&spec, seed);
        for (ranks, out) in cases {
            assert_eq!(eval(&spec, &ranks), out, "seed {seed}");
        }
    }
}

#[test]
fn generic_select_canary_is_in_the_prompt() {
    let g = GenericSelectFamily;
    let t = g.generate(13);
    assert!(t.prompt.contains(&t.canary));
}

#[test]
fn generic_select_picks_the_first_of_ties() {
    let spec = Spec { select: Select::Max, project: Project::Identity, fn_name: "f" };
    assert_eq!(eval(&spec, &[4, 4, -1]), Some(4));
    let spec = Spec { select: Select::Last, project: Project::Square, fn_name: "f" };
    assert_eq!(eval(&spec, &[1, -3]), Some(9));
}

use rustybench::gen::grid_reduce::{eval, sample, worked_examples, Axis, GridReduceFamily, Reduction, Spec};

#[test]
fn grid_reduce_generation_is_deterministic() {
    let g = GridReduceFamily;
    assert_eq!(g.generate(5).prompt, g.generate(5).prompt);
    assert_eq!(g.generate(5).hidden, g.generate(5).hidden);
}

#[test]
fn grid_reduce_eval_matches_intent() {
    let rows_sum = Spec { axis: Axis::Rows, reduction: Reduction::Sum, fn_name: "reduce" };
    assert_eq!(eval(&rows_sum, &[vec![1, 2, 3], vec![4, 5, 6]]), vec![6, 15]);
    let cols_sum = Spec { axis: Axis::Cols, reduction: Reduction::Sum, fn_name: "reduce" };
    assert_eq!(eval(&cols_sum, &[vec![1, 2, 3], vec![4, 5, 6]]), vec![5, 7, 9]);
    assert_eq!(eval(&rows_sum, &[]), Vec::<i64>::new());
}

#[test]
fn reductions_are_correct() {
    let g = [vec![-2, 3, 0], vec![4, -1, 5]];
    let mk = |r| Spec { axis: Axis::Rows, reduction: r, fn_name: "reduce" };
    assert_eq!(eval(&mk(Reduction::Max), &g), vec![3, 5]);
    assert_eq!(eval(&mk(Reduction::Min), &g), vec![-2, -1]);
    assert_eq!(eval(&mk(Reduction::Product), &g), vec![0, -20]);
    assert_eq!(eval(&mk(Reduction::CountPositive), &g), vec![1, 2]);
    assert_eq!(eval(&mk(Reduction::Range), &g), vec![5, 6]);
}

#[test]
fn seeds_vary_axis_and_reduction() {
    let mut variants = std::collections::HashSet::new();
    for seed in 0..120u64 {
        let s = sample(seed);
        variants.insert(format!("{:?}/{:?}", s.axis, s.reduction));
    }
    assert!(variants.len() >= 10, "expected variety, got {}", variants.len());
}

#[test]
fn grid_reduce_canary_is_in_the_prompt() {
    let g = GridReduceFamily;
    let t = g.generate(2);
    assert!(t.prompt.contains(&t.canary));
}

#[test]
fn grid_reduce_examples_agree_with_eval() {
    for seed in [1u64, 2, 3, 7, 42] {
        let spec = sample(seed);
        let (_, cases) = worked_examples(&spec, seed);
        assert_eq!(cases.len(), 4);
        for (grid, out) in cases {
            assert_eq!(eval(&spec, &grid), out, "seed {seed}");
        }
    }
    let cols_range = Spec { axis: Axis::Cols, reduction: Reduction::Range, fn_name: "reduce" };
    assert_eq!(eval(&cols_range, &[vec![1, 9], vec![4, -1]]), vec![3, 10]);
}

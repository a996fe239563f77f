use rustybench::gen::stack_machine::{eval, prose_program, render_program, sample, worked_examples, Combine, Op, Reorder, Spec, StackMachineFamily, TopMap};

#[test]
fn stack_machine_generation_is_deterministic() {
    let g = StackMachineFamily;
    assert_eq!(g.generate(9).prompt, g.generate(9).prompt);
    assert_eq!(g.generate(9).hidden, g.generate(9).hidden);
}

#[test]
fn stack_machine_eval_matches_intent() {
    let spec = Spec { combine: Combine::Add, map: TopMap::Neg, reorder: Reorder::Swap, fn_name: "run" };
    assert_eq!(eval(&spec, &[Op::Push(2), Op::Push(3), Op::Combine, Op::MapTop]), vec![-5]);
    assert_eq!(eval(&spec, &[Op::Push(1), Op::Push(2), Op::Reorder]), vec![2, 1]);
    assert_eq!(eval(&spec, &[Op::Push(7), Op::Combine]), vec![7]);
}

#[test]
fn rot3_rotates_top_three() {
    let spec = Spec { combine: Combine::Add, map: TopMap::Neg, reorder: Reorder::Rot3, fn_name: "run" };
    assert_eq!(eval(&spec, &[Op::Push(1), Op::Push(2), Op::Push(3), Op::Reorder]), vec![3, 1, 2]);
}

#[test]
fn seeds_vary_the_semantics() {
    let mut variants = std::collections::HashSet::new();
    for seed in 0..200u64 {
        let s = sample(seed);
        variants.insert(format!("{:?}/{:?}/{:?}", s.combine, s.map, s.reorder));
    }
    assert!(variants.len() >= 20, "expected variety, got {}", variants.len());
}

#[test]
fn stack_machine_canary_is_in_the_prompt() {
    let g = StackMachineFamily;
    let t = g.generate(4);
    assert!(t.prompt.contains(&t.canary));
}

#[test]
fn stack_machine_examples_agree_with_eval() {
    for seed in [1u64, 2, 3, 7, 42, 99, 2024] {
        let spec = sample(seed);
        let (_, cases) = worked_examples(&spec, seed);
        for (prog, out) in cases {
            assert_eq!(eval(&spec, &prog), out, "seed {seed}");
        }
    }
}

#[test]
fn stack_machine_underflow_and_combines() {
    let spec = Spec { combine: Combine::Sub, map: TopMap::Abs, reorder: Reorder::Rot3, fn_name: "run" };
    assert_eq!(eval(&spec, &[Op::MapTop, Op::Combine, Op::Reorder]), Vec::<i64>::new());
    assert_eq!(eval(&spec, &[Op::Push(2), Op::Push(9), Op::Combine, Op::MapTop]), vec![7]);
    assert_eq!(eval(&spec, &[Op::Push(1), Op::Push(2), Op::Reorder]), vec![1, 2]);
    let spec = Spec { combine: Combine::Min, map: TopMap::Inc, reorder: Reorder::Swap, fn_name: "run" };
    assert_eq!(eval(&spec, &[Op::Push(4), Op::Push(-3), Op::Combine, Op::MapTop, Op::MapTop]), vec![-1]);
    let spec = Spec { combine: Combine::Mul, map: TopMap::Double, reorder: Reorder::Swap, fn_name: "run" };
    assert_eq!(eval(&spec, &[Op::Push(-4), Op::Push(3), Op::Combine, Op::MapTop]), vec![-24]);
}

#[test]
fn stack_machine_renders_programs() {
    let prog = [Op::Push(-3), Op::Combine, Op::MapTop, Op::Reorder];
    assert_eq!(render_program(&prog), "vec![Op::Push(-3), Op::Combine, Op::Map, Op::Reorder]");
    assert_eq!(prose_program(&prog), "[Push(-3), Combine, Map, Reorder]");
    assert_eq!(render_program(&[]), "vec![]");
}

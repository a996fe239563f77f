use rustybench::gen::checked_eval::{eval, pass_value, sample, violating_value, worked_examples, CheckedEvalFamily, Fold, Guard, Spec};

#[test]
fn checked_eval_generation_is_deterministic() {
    let g = CheckedEvalFamily;
    assert_eq!(g.generate(29).prompt, g.generate(29).prompt);
    assert_eq!(g.generate(29).hidden, g.generate(29).hidden);
}

#[test]
fn checked_eval_eval_matches_intent() {
    let mk = |fold, guard| Spec { fold, guard, fn_name: "f" };
    assert_eq!(eval(&mk(Fold::Sum, Guard::Positive), &[2, 3, 4]), Ok(9));
    assert_eq!(eval(&mk(Fold::Product, Guard::Positive), &[2, 3, 4]), Ok(24));
    assert_eq!(eval(&mk(Fold::SumSquares, Guard::Positive), &[2, 3, 4]), Ok(29));
    assert_eq!(eval(&mk(Fold::Sum, Guard::Positive), &[2, -1, 4]), Err("OutOfRange(-1)".to_string()));
    assert_eq!(
        eval(&mk(Fold::Product, Guard::NonZero), &[3_000_000_000, 3_000_000_000, 3]),
        Err("Overflow".to_string())
    );
    assert_eq!(eval(&mk(Fold::Product, Guard::Positive), &[]), Ok(1));
}

#[test]
fn seeds_vary_fold_and_guard() {
    let mut variants = std::collections::HashSet::new();
    for seed in 0..200u64 {
        let s = sample(seed);
        variants.insert(format!("{:?}/{:?}", s.fold, s.guard));
    }
    assert!(variants.len() >= 10, "expected wide structural variety, got {}", variants.len());
}

#[test]
fn canonical_is_valid_under_every_guard() {
    let canonical = [2i64, 3, 4];
    for &guard in &[
        Guard::Positive,
        Guard::NonZero,
        Guard::AtMost(50),
        Guard::AtMost(100),
        Guard::AtMost(1000),
        Guard::InRange(0, 100),
        Guard::InRange(1, 50),
        Guard::InRange(-100, 100),
    ] {
        for &fold in &[Fold::Sum, Fold::Product, Fold::SumSquares] {
            let spec = Spec { fold, guard, fn_name: "f" };
            match eval(&spec, &canonical) {
                Ok(v) => assert_ne!(v, 0, "canonical is Ok(0) under {fold:?}/{guard:?}"),
                Err(e) => panic!("canonical rejected under {fold:?}/{guard:?}: {e}"),
            }
            let gf = vec![pass_value(), violating_value(guard)];
            assert!(eval(&spec, &gf).is_err(), "guard-failure example is Ok under {fold:?}/{guard:?}");
        }
    }
}

#[test]
fn checked_eval_reference_matches_native_eval() {
    for seed in [1u64, 2, 3, 7, 42, 99, 2024] {
        let spec = sample(seed);
        let (_, cases) = worked_examples(&spec, seed);
        for (input, res) in cases {
            assert_eq!(eval(&spec, &input), res, "seed {seed}");
        }
    }
}

#[test]
fn checked_eval_canary_is_in_the_prompt() {
    let g = CheckedEvalFamily;
    let t = g.generate(14);
    assert!(t.prompt.contains(&t.canary));
}

#[test]
fn checked_eval_sum_overflow_is_reported() {
    let spec = Spec { fold: Fold::Sum, guard: Guard::NonZero, fn_name: "f" };
    assert_eq!(eval(&spec, &[i64::MAX, 1]), Err("Overflow".to_string()));
    let spec = Spec { fold: Fold::SumSquares, guard: Guard::InRange(-100, 100), fn_name: "f" };
    assert_eq!(eval(&spec, &[5, 101]), Err("OutOfRange(101)".to_string()));
}

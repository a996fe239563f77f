use rustybench::gen::error_handling::{check_items, eval, sample, worked_examples, Combine, ErrorHandlingFamily, ItemError, Rule, Spec};

#[test]
fn error_handling_generation_is_deterministic() {
    let g = ErrorHandlingFamily;
    assert_eq!(g.generate(7).prompt, g.generate(7).prompt);
    assert_eq!(g.generate(7).hidden, g.generate(7).hidden);
}

#[test]
fn seeds_vary_combine_and_rule() {
    let mut variants = std::collections::HashSet::new();
    for seed in 0..80u64 {
        let s = sample(seed);
        variants.insert(format!("{:?}/{:?}", s.combine, s.rule));
    }
    assert!(variants.len() >= 8, "expected variety, got {}", variants.len());
}

#[test]
fn error_handling_eval_matches_intent() {
    let spec = Spec { combine: Combine::Sum, rule: Rule::NonNegative, fn_name: "f" };
    assert_eq!(eval(&spec, &["1", "2", "3"]), Ok(6));
    assert_eq!(eval(&spec, &["1", "-2"]), Err("FailedRule(-2)".to_string()));
    assert_eq!(eval(&spec, &["x"]), Err("NotANumber(x)".to_string()));
    assert_eq!(eval(&spec, &[]), Ok(0));
}

#[test]
fn error_handling_canary_is_in_the_prompt() {
    let g = ErrorHandlingFamily;
    let t = g.generate(3);
    assert!(t.prompt.contains(&t.canary));
}

#[test]
fn error_handling_parses_like_i64_from_str() {
    let spec = Spec { combine: Combine::Sum, rule: Rule::NonZero, fn_name: "f" };
    assert_eq!(eval(&spec, &["+5", "-3"]), Ok(2));
    assert_eq!(eval(&spec, &[" 5"]), Err("NotANumber( 5)".to_string()));
    assert_eq!(eval(&spec, &["-"]), Err("NotANumber(-)".to_string()));
    assert_eq!(eval(&spec, &["9223372036854775808"]), Err("NotANumber(9223372036854775808)".to_string()));
    assert_eq!(eval(&spec, &["0"]), Err("FailedRule(0)".to_string()));
    assert_eq!(check_items(&spec, &["4", "oops", "0"]), Err(ItemError::NotANumber("oops".to_string())));
}

#[test]
fn error_handling_folds_and_rules() {
    let spec = Spec { combine: Combine::Product, rule: Rule::AtMost(10), fn_name: "f" };
    assert_eq!(eval(&spec, &[]), Ok(1));
    assert_eq!(eval(&spec, &["2", "-3", "4"]), Ok(-24));
    assert_eq!(eval(&spec, &["2", "11", "x"]), Err("FailedRule(11)".to_string()));
    let spec = Spec { combine: Combine::SumAbs, rule: Rule::NonZero, fn_name: "f" };
    assert_eq!(eval(&spec, &["-4", "3"]), Ok(7));
}

#[test]
fn error_handling_examples_and_files() {
    let spec = sample(11);
    let (prose, cases) = worked_examples(&spec);
    assert_eq!(cases.len(), 4);
    assert!(prose.contains("[\"7\", \"oops\", \"9\"]  ->  Err(ParseError::NotANumber(oops))"));
    assert!(prose.contains("[\"1\", \"2\", \"3\"]  ->  Ok(6)"));
    let t = ErrorHandlingFamily.generate(11);
    assert_eq!(t.forbidden_paths, vec!["unwrap".to_string(), "expect".to_string()]);
    assert!(t.hidden[0].1.contains("Err(ParseError::NotANumber(String::from(\"oops\")))"));
    let b = ErrorHandlingFamily.trivial_baselines(11);
    assert_eq!(b[0].0, "const-ok");
    assert!(b[1].1.contains(".unwrap()"));
}

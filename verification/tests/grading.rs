use rustybench::grading::{cargo_args, next_stage, Grading, Layers, Stage};
use rustybench::vocab::FailureClass;

fn layers(diff: bool, alloc: bool, ast: bool, clippy: bool) -> Layers {
    Layers {
        behavior_test: Some("behavior".to_string()),
        differential_test: if diff { Some("differential".to_string()) } else { None },
        alloc_test: if alloc { Some("alloc".to_string()) } else { None },
        max_unsafe: if ast { Some(0) } else { None },
        forbidden_paths: Vec::new(),
        check_clippy: clippy,
        clippy_allow: vec!["clippy::needless_range_loop".to_string()],
    }
}

#[test]
fn stages_run_in_order_and_skip_what_is_not_configured() {
    let l = layers(true, false, true, false);
    assert_eq!(next_stage(Stage::Build, &l), Stage::Behavior);
    assert_eq!(next_stage(Stage::Behavior, &l), Stage::Differential);
    assert_eq!(next_stage(Stage::Differential, &l), Stage::Ast);
    assert_eq!(next_stage(Stage::Ast, &l), Stage::Done);
    let l = layers(false, false, false, true);
    assert_eq!(next_stage(Stage::Behavior, &l), Stage::Clippy);
    assert_eq!(next_stage(Stage::Clippy, &l), Stage::Done);
}

#[test]
fn cargo_arguments_per_stage() {
    let l = layers(true, true, false, true);
    assert_eq!(cargo_args(Stage::Build, &l), vec!["build", "--offline", "--message-format=json"]);
    assert_eq!(cargo_args(Stage::Behavior, &l), vec!["test", "--test", "behavior", "--offline", "--quiet"]);
    assert_eq!(cargo_args(Stage::Differential, &l), vec!["test", "--test", "differential", "--offline", "--quiet"]);
    assert_eq!(
        cargo_args(Stage::Clippy, &l),
        vec!["clippy", "--lib", "--offline", "--message-format=json", "--", "-A", "clippy::needless_range_loop"]
    );
    assert!(cargo_args(Stage::Done, &l).is_empty());
}

#[test]
fn failed_build_ends_grading_and_classifies_by_code() {
    let l = layers(true, true, true, true);
    let mut g = Grading::new();
    g.record_build(false, false, vec!["E0499".to_string()], 0);
    assert_eq!(g.stage_after(Stage::Build, &l), Stage::Done);
    assert_eq!(g.failure_class(), FailureClass::Borrowck);
}

#[test]
fn behaviour_without_summary_scores_zero_and_is_logic() {
    let l = layers(false, false, false, false);
    let mut g = Grading::new();
    g.record_build(true, false, Vec::new(), 2);
    assert_eq!(g.stage_after(Stage::Build, &l), Stage::Behavior);
    g.record_behavior(false, None);
    assert_eq!(g.unit, Some((0, 1)));
    assert_eq!(g.flags, vec!["behavior:no_summary".to_string()]);
    assert_eq!(g.failure_class(), FailureClass::Logic);
}

#[test]
fn clean_pass_has_no_failure() {
    let mut g = Grading::new();
    g.record_build(true, false, Vec::new(), 0);
    g.record_behavior(false, Some((3, 3)));
    g.record_differential(false, Some((1, 1)));
    g.record_alloc(false, Some((1, 1)));
    g.record_clippy(false, Vec::new());
    assert_eq!(g.failure_class(), FailureClass::NoFailure);
    assert!(g.violations.is_empty());
}

#[test]
fn constraint_failures_are_reported() {
    let l = Layers {
        behavior_test: None,
        differential_test: None,
        alloc_test: Some("alloc".to_string()),
        max_unsafe: Some(0),
        forbidden_paths: vec!["unwrap".to_string()],
        check_clippy: true,
        clippy_allow: Vec::new(),
    };
    let mut g = Grading::new();
    g.record_build(true, false, Vec::new(), 0);
    g.record_behavior(false, Some((2, 2)));
    g.record_alloc(false, Some((0, 1)));
    g.record_ast(&l, Some(2), Some(vec!["unwrap".to_string()]));
    g.record_clippy(true, vec!["clippy::manual_map".to_string(), "clippy::x".to_string()]);
    assert_eq!(g.alloc_ok, Some(false));
    assert_eq!(g.unsafe_ok, Some(false));
    assert_eq!(g.paths_ok, Some(false));
    assert_eq!(g.clippy_clean, Some(false));
    assert!(g.violations.contains(&"alloc: hot path allocated".to_string()));
    assert!(g.violations.contains(&"unsafe: 2 usage(s), limit 0".to_string()));
    assert!(g.violations.contains(&"clippy: clippy::manual_map, clippy::x".to_string()));
    assert!(g.flags.contains(&"timeout:clippy".to_string()));
    assert_eq!(g.failure_class(), FailureClass::Constraint);
    assert_eq!(cargo_args(Stage::Behavior, &l), vec!["test", "--offline", "--quiet"]);
}

#[test]
fn typeck_errors_hide_borrow_errors() {
    let mut g = Grading::new();
    g.record_build(false, false, vec!["E0308".to_string()], 0);
    assert!(g.typeck_only());
    let mut b = Grading::new();
    b.record_build(false, false, vec!["E0499".to_string()], 0);
    assert!(!b.typeck_only());
    let mut ok = Grading::new();
    ok.record_build(true, false, vec![], 0);
    assert!(!ok.typeck_only());
}

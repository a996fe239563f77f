use rustybench::diagnostics::{parse_clippy_lints, parse_diagnostics};

#[test]
fn parses_error_codes_and_warns() {
    let json = r#"{"reason":"compiler-message","message":{"level":"error","code":{"code":"E0499"},"message":"x"}}
{"reason":"compiler-message","message":{"level":"warning","code":{"code":"unused_variables"},"message":"y"}}
{"reason":"compiler-artifact"}"#;
    let (codes, warns) = parse_diagnostics(json);
    assert_eq!(codes, vec!["E0499".to_string()]);
    assert_eq!(warns, 1);
}

#[test]
fn parses_only_clippy_warnings() {
    let json = r#"{"reason":"compiler-message","message":{"level":"warning","code":{"code":"clippy::needless_range_loop"},"message":"x"}}
{"reason":"compiler-message","message":{"level":"warning","code":{"code":"unused_variables"},"message":"y"}}
{"reason":"compiler-message","message":{"level":"warning","code":{"code":"clippy::manual_map"},"message":"z"}}
{"reason":"compiler-message","message":{"level":"warning","code":{"code":"clippy::needless_range_loop"},"message":"dup"}}
{"reason":"compiler-artifact"}"#;
    assert_eq!(
        parse_clippy_lints(json),
        vec!["clippy::manual_map".to_string(), "clippy::needless_range_loop".to_string()]
    );
    assert!(parse_clippy_lints(r#"{"reason":"compiler-artifact"}"#).is_empty());
}

#[test]
fn error_codes_are_sorted_once_and_garbage_is_skipped() {
    let out = r#"not json at all
{"reason":"compiler-message","message":{"level":"error","code":{"code":"E0502"},"message":"a"}}
{"reason":"compiler-message","message":{"level":"error","code":{"code":"E0308"},"message":"b"}}
{"reason":"compiler-message","message":{"level":"error","code":{"code":"E0502"},"message":"c"}}
{"reason":"compiler-message","message":{"level":"error","code":null,"message":"d"}}
{"reason":"compiler-message","message":{"level":"warning","message":"e"}}
{"reason":"compiler-message","message":{"level":"warning","code":null,"message":"f"}}"#;
    let (codes, warns) = parse_diagnostics(out);
    assert_eq!(codes, vec!["E0308".to_string(), "E0502".to_string()]);
    assert_eq!(warns, 2);
    let (codes, warns) = parse_diagnostics("");
    assert!(codes.is_empty());
    assert_eq!(warns, 0);
}

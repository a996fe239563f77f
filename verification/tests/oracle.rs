use rustybench::oracle::{extract_code, parse_test_summary, test_summary_fits, OracleError};

#[test]
fn extracts_fenced_rust_block() {
    let r = "Here you go:\n```rust\nfn f() {}\n```\nDone.";
    assert_eq!(extract_code(r).unwrap(), "fn f() {}");
}

#[test]
fn extracts_untagged_fence() {
    let r = "```\nfn f() {}\n```";
    assert_eq!(extract_code(r).unwrap(), "fn f() {}");
}

#[test]
fn falls_back_to_bare_code() {
    assert_eq!(extract_code("fn f() {}").unwrap(), "fn f() {}");
}

#[test]
fn empty_response_has_no_code() {
    assert!(extract_code("   \n  ").is_none());
}

#[test]
fn parses_test_summary() {
    assert_eq!(parse_test_summary("test result: ok. 3 passed; 0 failed; 0 ignored"), Some((3, 3)));
    assert_eq!(parse_test_summary("test result: FAILED. 1 passed; 2 failed; 0 ignored"), Some((1, 3)));
}

#[test]
fn sums_across_sections() {
    let out = "running 0 tests\ntest result: ok. 0 passed; 0 failed; 0 ignored\n\
               running 5 tests\ntest result: ok. 5 passed; 0 failed; 0 ignored\n\
               running 0 tests\ntest result: ok. 0 passed; 0 failed; 0 ignored";
    assert_eq!(parse_test_summary(out), Some((5, 5)));
}

#[test]
fn no_summary_is_none() {
    assert_eq!(parse_test_summary("error: could not compile"), None);
}

#[test]
fn extracts_the_first_fence_and_trims() {
    let r = "```rust\n  let x = 1;\n```\n```rust\nsecond\n```";
    assert_eq!(extract_code(r).unwrap(), "let x = 1;");
    assert_eq!(extract_code("  fn g() {}\n\n").unwrap(), "fn g() {}");
    assert!(extract_code("").is_none());
}

#[test]
fn summary_fits_guards_overflow() {
    assert!(test_summary_fits("test result: ok. 3 passed; 0 failed"));
    assert!(!test_summary_fits("test result: ok. 4294967295 passed; 1 failed"));
    let s = "test result: FAILED. 2 passed; 1 failed; 0 ignored\r\ntest result: ok. 4 passed; 0 failed";
    assert!(test_summary_fits(s));
    assert_eq!(parse_test_summary(s), Some((6, 7)));
}

#[test]
fn oracle_error_messages() {
    assert_eq!(OracleError::Io("boom".to_string()).message(), "io: boom");
    assert!(OracleError::DirtyWorkspace("/w".to_string()).message().contains("/w"));
}

#[test]
fn re_extracting_an_answer_returns_it() {
    let responses = [
        "Here:\n```rust\n  fn a() {}\n```\ntrailing",
        "   fn bare() -> u8 { 1 }  \n\n",
        "```\nunclosed\n  more ",
        "```rust\r\n\r\n  x\r\n```\r\n",
    ];
    for r in responses {
        let c = extract_code(r).unwrap();
        assert_eq!(extract_code(&c), Some(c.clone()));
    }
}

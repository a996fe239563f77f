use rustybench::records::{chat_url, completion_of, containment_for, corpus, family_part, Containment, Policy};

#[test]
fn corpus_split_arithmetic() {
    let c = corpus();
    assert_eq!(c.total, 272);
    assert_eq!(c.synthetic, 248);
    assert_eq!(c.mined, 24);
    assert_eq!(c.synthetic + c.mined, c.total);
}

#[test]
fn containment_by_platform_name() {
    assert_eq!(containment_for("macos"), Containment::Seatbelt);
    assert_eq!(containment_for("linux"), Containment::Unsupported);
    assert_eq!(containment_for("windows"), Containment::Unsupported);
    assert_eq!(containment_for("macOS"), Containment::Unsupported);
}

#[test]
fn seatbelt_profile_confines_writes() {
    let p = Policy { workspace: "/tmp/ws".to_string(), cargo_home: "/Users/x/.cargo".to_string() };
    let prof = p.seatbelt_profile().unwrap();
    assert!(prof.starts_with("(version 1)\n(allow default)\n(deny network*)\n(deny file-write*)\n"));
    assert!(prof.contains("(allow file-write* (subpath \"/tmp/ws\"))\n"));
    assert!(prof.contains("(allow file-write* (subpath \"/Users/x/.cargo\"))\n"));
    assert!(prof.ends_with("(literal \"/dev/urandom\"))\n"));
    let bad = Policy { workspace: "/tmp/\"x".to_string(), cargo_home: "/c".to_string() };
    assert!(bad.seatbelt_profile().is_none());
}

#[test]
fn chat_url_strips_trailing_slashes() {
    assert_eq!(chat_url("http://localhost:8080"), "http://localhost:8080/v1/chat/completions");
    assert_eq!(chat_url("http://localhost:8080//"), "http://localhost:8080/v1/chat/completions");
    assert_eq!(chat_url(""), "/v1/chat/completions");
}

#[test]
fn completion_takes_the_first_choice() {
    let c = completion_of(Some(("fn a() {}".to_string(), None)), 10, 20, 30).unwrap();
    assert_eq!(c.text, "fn a() {}");
    assert_eq!(c.finish_reason, "unknown");
    assert_eq!((c.prompt_tokens, c.completion_tokens, c.elapsed_ms), (10, 20, 30));
    let d = completion_of(Some(("x".to_string(), Some("stop".to_string()))), 1, 2, 3).unwrap();
    assert_eq!(d.finish_reason, "stop");
    assert!(completion_of(None, 1, 2, 3).is_none());
}

#[test]
fn family_is_derived_from_task_id() {
    assert_eq!(family_part("window-op/0000000000000007"), "window-op");
    assert_eq!(family_part("window-op/00000000000000ff"), "window-op");
    assert_eq!(family_part("borrowck/split-mut-window"), "borrowck");
    assert_eq!(family_part("frozen-task"), "frozen-task");
    assert_eq!(family_part("/x"), "");
}

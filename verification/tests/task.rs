use rustybench::gen::window_op::WindowOpFamily;
use rustybench::gen::error_handling::ErrorHandlingFamily;

#[test]
fn files_with_answer_replaces_the_answer_file() {
    let t = WindowOpFamily.generate(8);
    let f = t.files_with_answer("pub fn answer() {}\n");
    assert_eq!(f.len(), 2);
    assert_eq!(f[0], t.files[0]);
    assert_eq!(f[1], ("src/lib.rs".to_string(), "pub fn answer() {}\n".to_string()));
}

#[test]
fn files_with_answer_inserts_in_path_order() {
    let mut t = ErrorHandlingFamily.generate(8);
    t.answer_path = "src-extra/lib.rs".to_string();
    let f = t.files_with_answer("x");
    let names: Vec<&str> = f.iter().map(|(p, _)| p.as_str()).collect();
    assert_eq!(names, vec!["Cargo.toml", "src/lib.rs", "src-extra/lib.rs"]);
    t.answer_path = "A.toml".to_string();
    let f = t.files_with_answer("y");
    let names: Vec<&str> = f.iter().map(|(p, _)| p.as_str()).collect();
    assert_eq!(names, vec!["A.toml", "Cargo.toml", "src/lib.rs"]);
}

#[test]
fn instance_carries_prompt_files_and_canary() {
    let t = WindowOpFamily.generate(99);
    let i = t.instance();
    assert_eq!(i.prompt, t.prompt);
    assert_eq!(i.files, t.files);
    assert_eq!(i.hidden, t.hidden);
    assert_eq!(i.canary, t.canary);
}

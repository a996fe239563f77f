use rustybench::vocab::{classify_error_codes, FailureClass, Seed, TaskId, WorkUnit};

#[test]
fn unit_id_is_deterministic() {
    let u = WorkUnit { task_id: TaskId("borrowck/x".into()), seed: Seed(42), index: 0 };
    assert_eq!(u.unit_id(), u.unit_id());
}

#[test]
fn unit_id_separates_task_from_seed() {
    let a = WorkUnit { task_id: TaskId("a".into()), seed: Seed(0), index: 0 };
    let b = WorkUnit { task_id: TaskId("".into()), seed: Seed(0), index: 0 };
    assert_ne!(a.unit_id(), b.unit_id());
}

#[test]
fn borrowck_beats_type_bucket() {
    assert_eq!(classify_error_codes(&["E0308".into(), "E0499".into()]), FailureClass::Borrowck);
}

#[test]
fn empty_codes_is_none() {
    assert_eq!(classify_error_codes(&[]), FailureClass::NoFailure);
}

#[test]
fn unknown_code_is_other() {
    assert_eq!(classify_error_codes(&["E9999".into()]), FailureClass::Other);
}

#[test]
fn unit_id_is_blake3_hex_of_the_unit_bytes() {
    let u = WorkUnit { task_id: TaskId("t".into()), seed: Seed(1), index: 2 };
    let id = u.unit_id();
    assert!(id.0.starts_with("blake3:"));
    assert_eq!(id.0.len(), "blake3:".len() + 64);
    let mut bytes = b"t".to_vec();
    bytes.push(0);
    bytes.extend_from_slice(&1u64.to_le_bytes());
    bytes.extend_from_slice(&2u32.to_le_bytes());
    assert_eq!(id.0, format!("blake3:{}", blake3::hash(&bytes).to_hex()));
    let v = WorkUnit { task_id: TaskId("t".into()), seed: Seed(1), index: 3 };
    assert_ne!(v.unit_id(), id);
}

#[test]
fn failure_classes_by_code() {
    assert_eq!(classify_error_codes(&["E0597".into()]), FailureClass::Lifetime);
    assert_eq!(classify_error_codes(&["E0277".into()]), FailureClass::Trait);
    assert_eq!(classify_error_codes(&["E0308".into()]), FailureClass::Type);
    assert_eq!(classify_error_codes(&["E0425".into()]), FailureClass::Resolve);
    assert_eq!(classify_error_codes(&["E0277".into(), "E0597".into()]), FailureClass::Lifetime);
    assert_eq!(classify_error_codes(&["E0106".into()]), FailureClass::Other);
}

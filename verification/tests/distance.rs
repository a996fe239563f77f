use rustybench::gen::distance::{at_least_apart, shingle_overlap, shingles, tokens, K};

/// The shingle distance as a fraction, from the verified overlap counts.
fn shingle_distance(a: &str, b: &str, k: usize) -> f64 {
    let (shared, only_a, only_b) = shingle_overlap(a, b, k);
    let union = shared + only_a + only_b;
    if union == 0 {
        return 0.0;
    }
    1.0 - shared as f64 / union as f64
}

#[test]
fn identical_is_zero() {
    assert_eq!(
        shingle_distance("the quick brown fox", "the quick brown fox", 3),
        0.0
    );
}

#[test]
fn disjoint_is_one() {
    assert_eq!(
        shingle_distance("alpha beta gamma delta", "one two three four", 3),
        1.0
    );
}

#[test]
fn pure_rename_is_small_but_nonzero() {
    let shared = "for each consecutive non overlapping window of width w in v reverse the \
                  elements of the window in place any trailing elements that do not fill a \
                  full window are left untouched return the number of full windows processed \
                  operate in place do not allocate a second copy of the data do not use unsafe";
    let a = format!("implement the function reverse_windows {shared}");
    let b = format!("implement the function flip_windows {shared}");
    let d = shingle_distance(&a, &b, 3);
    assert!(d > 0.0 && d < 0.2, "rename distance should be small: {d}");
}

#[test]
fn different_logic_is_large() {
    let a = "reverse the elements of the window in place and count";
    let b = "rotate the elements of the window left by two positions wrapping";
    assert!(shingle_distance(a, b, 3) > 0.5);
}

#[test]
fn tokens_are_lowercased_word_runs() {
    assert_eq!(
        tokens("Hello, World_x 42!  fn(a)"),
        vec!["hello", "world_x", "42", "fn", "a"]
    );
    assert!(tokens("  ,;  ").is_empty());
}

#[test]
fn shingles_are_sorted_and_distinct() {
    let s = shingles("a b c a b c", 3);
    assert_eq!(s, vec!["a b c", "b c a", "c a b"]);
    // Fewer tokens than k: the tokens themselves.
    assert_eq!(shingles("y x", 3), vec!["x", "y"]);
}

#[test]
fn overlap_counts_shared_and_private_shingles() {
    // a: {p q r, q r s}; b: {p q r, q r t}
    assert_eq!(shingle_overlap("p q r s", "p q r t", K), (1, 1, 1));
}

#[test]
fn apart_compares_in_hundredths() {
    // distance 2/3 here
    assert!(at_least_apart("p q r s", "p q r t", 3, 66));
    assert!(!at_least_apart("p q r s", "p q r t", 3, 67));
    // two empty texts are 0 apart
    assert!(at_least_apart("", "", 3, 0));
    assert!(!at_least_apart("", "", 3, 1));
}

#[test]
fn distance_is_symmetric_on_examples() {
    let a = "reverse the elements of the window in place and count";
    let b = "rotate the elements of the window left by two positions wrapping";
    for pct in [0u32, 25, 50, 75, 100] {
        assert_eq!(at_least_apart(a, b, K, pct), at_least_apart(b, a, K, pct));
    }
    let (s, x, y) = shingle_overlap(a, b, K);
    let (s2, x2, y2) = shingle_overlap(b, a, K);
    assert_eq!((s, x, y), (s2, y2, x2));
}

#[test]
fn tokens_lowercase_by_unicode_mapping() {
    assert_eq!(tokens("Ä b"), vec!["ä", "b"]);
    assert_eq!(tokens("ÉCOLE Straße ΣΟΦΊΑ"), vec!["école", "straße", "σοφία"]);
    // A mapping of more than one character: 'İ' lowercases to "i\u{307}".
    assert_eq!(tokens("İx"), vec!["i\u{307}x"]);
}

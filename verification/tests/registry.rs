use rustybench::gen::registry::{family, family_ids, join_tokens, sort_tokens, spec_diversity, Family};

#[test]
fn every_family_id_resolves() {
    for id in family_ids() {
        assert!(family(id).is_some(), "FAMILY_IDS entry {id} does not resolve");
    }
}

#[test]
fn every_family_meets_the_pure_construction_invariants() {
    for id in family_ids() {
        let g = family(id).unwrap();
        assert!(!g.category().is_empty(), "{id}: empty category");
        assert!(spec_diversity(g, 4000) >= 8, "{id}: spec-diversity below the floor of 8");
        for seed in [0u64, 1, 7, 42, 1000] {
            let a = g.generate(seed);
            let b = g.generate(seed);
            assert_eq!(a.prompt, b.prompt, "{id} seed {seed}: prompt not deterministic");
            assert_eq!(a.files, b.files, "{id} seed {seed}: files not deterministic");
            assert_eq!(a.hidden, b.hidden, "{id} seed {seed}: hidden not deterministic");
            assert!(a.prompt.contains(&a.canary), "{id} seed {seed}: prompt is missing its canary");
            assert!(!g.spec_signature(seed).is_empty(), "{id} seed {seed}: empty spec_signature");
            assert_eq!(a.category, g.category(), "{id} seed {seed}: instance category disagrees with the family");
        }
    }
}

#[test]
fn spec_diversity_counts_the_structural_skills() {
    let count = |id: &str| spec_diversity(family(id).unwrap(), 4000);
    assert_eq!(count("stack-machine"), 40);
    assert_eq!(count("grid-reduce"), 12);
    assert_eq!(count("seq-transform"), 48);
    assert_eq!(count("trait-impl"), 20);
    assert_eq!(count("bit-ops"), 20);
    assert_eq!(count("raw-ptr"), 20);
    assert_eq!(count("str-transform"), 24);
    assert_eq!(count("dual-region"), 12);
    assert_eq!(count("generic-select"), 16);
    assert_eq!(count("checked-eval"), 12);
    assert_eq!(count("idiom-loop"), 16);
    assert_eq!(count("window-op"), 8);
    assert_eq!(count("error-handling"), 9);
}

#[test]
fn registry_ids_and_lookup() {
    let ids = family_ids();
    assert_eq!(ids.len(), 13);
    assert_eq!(ids[0], "window-op");
    assert_eq!(ids[12], "idiom-loop");
    assert_eq!(family("window-op"), Some(Family::WindowOp));
    assert_eq!(family("idiom-counter"), None);
    assert_eq!(family(""), None);
    for id in ids {
        assert_eq!(family(id).unwrap().id(), id);
    }
}

#[test]
fn dispatch_agrees_with_the_family() {
    let f = family("stack-machine").unwrap();
    let t = f.generate(3);
    assert_eq!(t.files[1].1, f.skeleton_code(3));
    assert!(f.reference_code(3).contains("pub enum Op"));
    assert_eq!(f.trivial_baselines(3).len(), 2);
    assert!(t.id.starts_with("stack-machine/"));
    assert_eq!(t.id.len(), "stack-machine/".len() + 16);
}

#[test]
fn diversity_keys_sort_and_join() {
    let v = vec!["map:b".to_string(), "filter:a".to_string(), "terminal:c".to_string(), "filter:a".to_string()];
    let s = sort_tokens(&v);
    assert_eq!(s, vec!["filter:a", "filter:a", "map:b", "terminal:c"]);
    assert_eq!(join_tokens(&s), "filter:a|filter:a|map:b|terminal:c");
    assert_eq!(join_tokens(&Vec::new()), "");
    assert_eq!(spec_diversity(Family::SeqTransform, 0), 0);
    assert_eq!(spec_diversity(Family::SeqTransform, 1), 1);
}

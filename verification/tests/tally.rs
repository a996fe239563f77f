use rustybench::tally::{discordant, fold_costs, UnitCost, SEGMENT_WARMUP_UNITS};

fn unit(gen_ms: u64, grade_ms: u64, completion_tokens: u32, pos: Option<u32>, core_pass: bool) -> UnitCost {
    UnitCost {
        gen_ms,
        grade_ms,
        completion_tokens,
        segment_position: pos,
        core_pass,
    }
}

#[test]
fn mcnemar_counts_and_significance() {
    // The discordant split behind the test; its p-value is the statistics
    // module's.
    let balanced = vec![(true, false), (false, true), (true, true), (false, false)];
    assert_eq!(discordant(&balanced), (1, 1));
    let lopsided: Vec<(bool, bool)> = (0..10).map(|_| (true, false)).collect();
    assert_eq!(discordant(&lopsided), (10, 0));
    assert_eq!(discordant(&[(true, true), (false, false)]), (0, 0));
}

#[test]
fn sign_test_flags_only_a_core_advantage() {
    let suspicious: Vec<(bool, bool)> = (0..10).map(|_| (true, false)).collect();
    assert_eq!(discordant(&suspicious), (10, 0));
    let honest = vec![(true, false), (false, true), (true, false), (false, true)];
    assert_eq!(discordant(&honest), (2, 2));
    let probe_better: Vec<(bool, bool)> = (0..10).map(|_| (false, true)).collect();
    assert_eq!(discordant(&probe_better), (0, 10));
}

#[test]
fn throughput_folds_cost_over_all_units() {
    // Two core units and one probe, each with timing: all three count for the
    // totals, only the passing core unit toward the passes.
    let units = vec![
        unit(2000, 500, 100, None, true),
        unit(2000, 500, 100, None, false),
        unit(2000, 500, 100, None, false),
    ];
    let t = fold_costs(&units).unwrap();
    assert_eq!(t.units, 3);
    assert_eq!(t.core_passes, 1);
    assert_eq!((t.gen_ms, t.grade_ms, t.completion_tokens), (6000, 1500, 300));
    let gen_s = t.gen_ms as f64 / 1000.0;
    let wall_s = (t.gen_ms + t.grade_ms) as f64 / 1000.0;
    assert!((t.completion_tokens as f64 / gen_s - 50.0).abs() < 1e-6);
    assert!((wall_s - 7.5).abs() < 1e-6);
    assert!((t.grade_ms as f64 / 1000.0 / wall_s - 0.2).abs() < 1e-6);
    assert!((t.units as f64 * 3600.0 / wall_s - 1440.0).abs() < 1e-3);
    assert!((t.core_passes as f64 * 3600.0 / wall_s - 480.0).abs() < 1e-3);
    // Units without timing: nothing to report.
    assert!(fold_costs(&[unit(0, 0, 0, None, true)]).is_none());
}

#[test]
fn throughput_excludes_segment_warmup() {
    assert_eq!(SEGMENT_WARMUP_UNITS, 1);
    let units = vec![
        unit(100_000, 0, 100, Some(0), true),
        unit(1000, 0, 100, Some(1), true),
        unit(1000, 0, 100, Some(2), true),
    ];
    let t = fold_costs(&units).unwrap();
    assert_eq!(t.units, 2, "the cold lead unit is excluded");
    assert_eq!(t.warmup_excluded, 1);
    assert!((t.completion_tokens as f64 / (t.gen_ms as f64 / 1000.0) - 100.0).abs() < 1e-6);

    // A one-unit segment is all warmup: it is kept rather than nothing.
    let solo = vec![unit(2000, 500, 100, Some(0), false)];
    let ts = fold_costs(&solo).unwrap();
    assert_eq!(ts.units, 1);
    assert_eq!(ts.warmup_excluded, 0);
}

#[test]
fn untimed_units_are_neither_counted_nor_excluded() {
    let units = vec![unit(0, 0, 50, Some(0), true), unit(10, 0, 5, Some(3), true)];
    let t = fold_costs(&units).unwrap();
    assert_eq!((t.units, t.warmup_excluded, t.completion_tokens), (1, 0, 5));
}

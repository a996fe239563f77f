use rustybench::gen::distance::{shingle_overlap, K};
use rustybench::gen::epoch::{model_view, plan_epoch, plan_epoch_from, view_of, MIN_INSTANCE_DISTANCE};
use rustybench::gen::registry::Family;

fn shingle_distance(a: &str, b: &str) -> f64 {
    let (shared, only_a, only_b) = shingle_overlap(a, b, K);
    let union = shared + only_a + only_b;
    if union == 0 {
        return 0.0;
    }
    1.0 - shared as f64 / union as f64
}

fn min_pairwise_distance(views: &[String]) -> f64 {
    let mut min = 1.0f64;
    for i in 0..views.len() {
        for j in (i + 1)..views.len() {
            let d = shingle_distance(&views[i], &views[j]);
            if d < min {
                min = d;
            }
        }
    }
    min
}

fn floor() -> f64 {
    MIN_INSTANCE_DISTANCE as f64 / 100.0
}

#[test]
fn plan_is_deterministic() {
    let g = Family::WindowOp;
    let a = plan_epoch(&g, "2026-08", 6, MIN_INSTANCE_DISTANCE, 400).ok().unwrap();
    let b = plan_epoch(&g, "2026-08", 6, MIN_INSTANCE_DISTANCE, 400).ok().unwrap();
    assert_eq!(a.seeds, b.seeds, "same inputs must serve the same seeds");
}

#[test]
fn accepted_set_clears_the_floor() {
    let g = Family::WindowOp;
    let plan = plan_epoch(&g, "e1", 6, MIN_INSTANCE_DISTANCE, 500).ok().unwrap();
    assert_eq!(plan.seeds.len(), 6);
    let min = min_pairwise_distance(&plan.views);
    assert!(min >= floor(), "min pairwise {} < floor {}", min, floor());
}

#[test]
fn exhaustion_is_reported_not_hidden() {
    let g = Family::ErrorHandling;
    let candidates: Vec<u64> = (0u64..1000).collect();
    let err = plan_epoch_from(&g, &candidates, 3, 100, 200).err().unwrap();
    assert!(err.accepted < err.wanted);
    assert_eq!(err.accepted, 1, "only the first seed can ever be seated");
}

#[test]
fn view_matches_prompt_plus_skeleton() {
    let g = Family::WindowOp;
    let task = g.generate(3);
    let v = view_of(&task);
    assert!(v.starts_with(&task.prompt));
    assert!(v.contains("todo!"), "view must include the skeleton body");
    assert_eq!(v, model_view(&g, 3));
    assert_eq!(v, format!("{}\n{}", task.prompt, g.skeleton_code(3)));
}

#[test]
fn rejected_counts_the_candidates_turned_away() {
    let g = Family::WindowOp;
    let mut candidates: Vec<u64> = vec![5, 5, 5];
    candidates.extend(6u64..200);
    let plan = plan_epoch_from(&g, &candidates, 2, MIN_INSTANCE_DISTANCE, 200).ok().unwrap();
    // the repeats of 5 are twins of the first and are turned away
    assert_eq!(plan.seeds.len(), 2);
    assert_eq!(plan.seeds[0], 5);
    assert!(plan.rejected() >= 2);
    assert_eq!(plan.rejected(), plan.attempts - 2);
    assert!(shingle_distance(&plan.views[0], &plan.views[1]) >= floor());
}

#[test]
fn the_budget_stops_the_search() {
    let g = Family::WindowOp;
    let candidates: Vec<u64> = vec![5, 5, 5, 6];
    let err = plan_epoch_from(&g, &candidates, 2, MIN_INSTANCE_DISTANCE, 3).err().unwrap();
    assert_eq!((err.accepted, err.wanted, err.attempts), (1, 2, 3));
}

#[test]
fn zero_wanted_is_an_empty_plan() {
    let g = Family::StackMachine;
    let plan = plan_epoch_from(&g, &[1, 2, 3], 0, MIN_INSTANCE_DISTANCE, 10).ok().unwrap();
    assert!(plan.seeds.is_empty());
    assert_eq!(plan.attempts, 0);
}

#[test]
fn sampler_beats_naive_on_the_hard_family() {
    let g = Family::ErrorHandling;

    let naive: Vec<String> = (0..6u64).map(|s| model_view(&g, s)).collect();
    let naive_min = min_pairwise_distance(&naive);
    assert!(
        naive_min < floor(),
        "precondition: raw-index 6-set should contain a near-twin (min {naive_min})"
    );

    let candidates: Vec<u64> = (0u64..2_000).collect();
    let err = plan_epoch_from(&g, &candidates, 6, MIN_INSTANCE_DISTANCE, 2_000).err().unwrap();
    assert_eq!(err.accepted, 3, "capacity at floor is 3");
    assert!(
        err.attempts > err.accepted as u32,
        "sampler must have examined and rejected collisions ({} attempts for {} seated)",
        err.attempts,
        err.accepted
    );

    let clean = plan_epoch_from(&g, &candidates, 3, MIN_INSTANCE_DISTANCE, 2_000).ok().unwrap();
    let min = min_pairwise_distance(&clean.views);
    assert!(min >= floor(), "served set must clear the floor (min {})", min);
}

#[test]
fn window_op_capacity_at_floor_is_8() {
    let g = Family::WindowOp;
    let candidates: Vec<u64> = (0u64..2_000).collect();
    let err = plan_epoch_from(&g, &candidates, 9, MIN_INSTANCE_DISTANCE, 2_000).err().unwrap();
    assert_eq!(err.accepted, 8, "window-op seats 8 distinct instances at 0.25");
}

#[test]
fn error_handling_capacity_at_floor_is_3() {
    let g = Family::ErrorHandling;
    let candidates: Vec<u64> = (0u64..2_000).collect();
    let err = plan_epoch_from(&g, &candidates, 4, MIN_INSTANCE_DISTANCE, 2_000).err().unwrap();
    assert_eq!(err.accepted, 3);
}

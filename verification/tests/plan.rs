use video_sampler::plan::plan_from_draws;
use video_sampler::plan::plan_samples;

#[test]
fn plan_reduces_and_sorts() {
    let draws = vec![5000u64, 1, 999_999];
    let plan = plan_from_draws(&draws, 1000);
    assert_eq!(plan, vec![0, 1, 999]);
}

#[test]
fn plan_keeps_duplicate_draws() {
    // Two coinciding draws give two identical timestamps; not an error.
    let draws = vec![7u64, 1007];
    let plan = plan_from_draws(&draws, 1000);
    assert_eq!(plan, vec![7, 7]);
}

#[test]
fn plan_of_no_draws_is_empty() {
    let draws: Vec<u64> = Vec::new();
    let plan = plan_from_draws(&draws, 42);
    assert!(plan.is_empty());
}

#[test]
fn plan_sorts_descending_input() {
    let draws = vec![900u64, 500, 100, 700];
    let plan = plan_from_draws(&draws, 1000);
    assert_eq!(plan, vec![100, 500, 700, 900]);
}

#[test]
fn random_plan_has_exact_count_in_range_sorted() {
    let plan = plan_samples(50, 10_000_000_000);
    assert_eq!(plan.len(), 50);
    for w in plan.windows(2) {
        assert!(w[0] <= w[1]);
    }
    for &t in &plan {
        assert!(t < 10_000_000_000);
    }
}

#[test]
fn random_plan_over_unit_duration_is_all_zero() {
    let plan = plan_samples(4, 1);
    assert_eq!(plan, vec![0, 0, 0, 0]);
}

#[test]
fn replay_with_same_draws_reproduces_plan() {
    // The plan is a function of the draws and the duration alone.
    let draws = vec![123_456_789u64, 42, 987_654_321, 42];
    let first = plan_from_draws(&draws, 360_000);
    let second = plan_from_draws(&draws, 360_000);
    assert_eq!(first, second);
}

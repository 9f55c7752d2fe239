use pageview::signal::backward_plan;
use pageview::signal::TransformPlan;

#[test]
fn plan_of_four_samples() {
    assert_eq!(backward_plan(4), Some(TransformPlan { size: 4, buffer_bytes: 64, sign: 1, flags: 64 }));
}

#[test]
fn plan_of_one_sample() {
    assert_eq!(backward_plan(1), Some(TransformPlan { size: 1, buffer_bytes: 16, sign: 1, flags: 64 }));
}

#[test]
fn no_plan_without_samples() {
    assert_eq!(backward_plan(0), None);
}

#[test]
fn no_plan_beyond_the_size_type() {
    assert_eq!(backward_plan(i32::MAX as usize + 1), None);
    assert_eq!(backward_plan(usize::MAX), None);
}

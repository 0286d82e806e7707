//! The render loop's timing rules and the sample scaling arithmetic.

use onmi::{frame_budget, scale_sample, timing_drift_warning, underrun_risk_warning};

#[test]
fn timing_drift_warns_past_the_slack() {
    // A ten-millisecond period with two milliseconds of slack.
    assert!(!timing_drift_warning(10_000_000, 10_000_000));
    assert!(!timing_drift_warning(10_000_000, 12_000_000));
    assert!(timing_drift_warning(10_000_000, 12_000_001));
    assert!(!timing_drift_warning(u64::MAX, u64::MAX));
}

#[test]
fn frame_budget_is_capacity_minus_padding() {
    assert_eq!(frame_budget(441, 0), 441);
    assert_eq!(frame_budget(441, 100), 341);
    assert_eq!(frame_budget(441, 441), 0);
}

#[test]
fn underrun_warns_after_more_than_one_productive_fill() {
    assert!(!underrun_risk_warning(0));
    assert!(!underrun_risk_warning(1));
    assert!(underrun_risk_warning(2));
    assert!(underrun_risk_warning(7));
}

#[test]
fn scaling_is_exact_fixed_point() {
    assert_eq!(scale_sample(1000, 100, 1000), 1000);
    assert_eq!(scale_sample(1000, 50, 1000), 500);
    assert_eq!(scale_sample(1000, 100, 500), 500);
    assert_eq!(scale_sample(-1000, 50, 1000), -500);
    assert_eq!(scale_sample(0, 100, 1000), 0);
    assert_eq!(scale_sample(12345, 0, 1000), 0);
    assert_eq!(scale_sample(12345, 100, 0), 0);
}

#[test]
fn scaling_truncates_towards_zero() {
    assert_eq!(scale_sample(7, 33, 333), 0);
    assert_eq!(scale_sample(-7, 33, 333), 0);
    assert_eq!(scale_sample(999, 10, 10), 0);
    assert_eq!(scale_sample(-999, 10, 10), 0);
    assert_eq!(scale_sample(1001, 100, 999), 999);
}

#[test]
fn scaling_handles_the_extremes() {
    assert_eq!(scale_sample(i32::MAX, 100, 1000), i32::MAX);
    assert_eq!(scale_sample(i32::MIN, 100, 1000), i32::MIN);
    assert_eq!(scale_sample(i32::MIN, 0, 0), 0);
}

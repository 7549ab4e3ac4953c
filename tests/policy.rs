use scaligator::decision::{decide, plan_scaling, ScalingDecision, ScalingThresholds, REPLICA_FLOOR};
use scaligator::usage::MeanCpu;

fn thresholds() -> ScalingThresholds {
    ScalingThresholds { scale_up_micros: 700_000, scale_down_micros: 200_000, interval_secs: 30 }
}

fn mean_of(micros: &[u64]) -> MeanCpu {
    let total: u128 = micros.iter().map(|m| *m as u128).sum();
    MeanCpu { total_micros: total, samples: micros.len() as u64 }
}

#[test]
fn above_up_threshold_scales_up_by_one() {
    assert_eq!(decide(1, mean_of(&[800_000]), &thresholds()), ScalingDecision::ScaleUp(2));
    assert_eq!(decide(5, mean_of(&[900_000, 950_000]), &thresholds()), ScalingDecision::ScaleUp(6));
}

#[test]
fn scale_up_ignores_down_threshold() {
    let t = ScalingThresholds { scale_up_micros: 100_000, scale_down_micros: 900_000, interval_secs: 30 };
    assert_eq!(decide(3, mean_of(&[500_000]), &t), ScalingDecision::ScaleUp(4));
}

#[test]
fn below_down_threshold_scales_down_by_one() {
    assert_eq!(decide(3, mean_of(&[100_000]), &thresholds()), ScalingDecision::ScaleDown(2));
    assert_eq!(decide(2, mean_of(&[0, 50_000]), &thresholds()), ScalingDecision::ScaleDown(1));
}

#[test]
fn floor_blocks_scale_down() {
    assert_eq!(REPLICA_FLOOR, 1);
    assert_eq!(decide(1, mean_of(&[100_000]), &thresholds()), ScalingDecision::NoOp);
    assert_eq!(decide(0, mean_of(&[0]), &thresholds()), ScalingDecision::NoOp);
}

#[test]
fn between_thresholds_is_no_op() {
    assert_eq!(decide(3, mean_of(&[500_000]), &thresholds()), ScalingDecision::NoOp);
    assert_eq!(decide(3, mean_of(&[200_000]), &thresholds()), ScalingDecision::NoOp);
    assert_eq!(decide(3, mean_of(&[700_000]), &thresholds()), ScalingDecision::NoOp);
}

#[test]
fn mean_exactly_at_up_threshold_is_no_op() {
    assert_eq!(decide(2, mean_of(&[900_000, 500_000]), &thresholds()), ScalingDecision::NoOp);
    assert_eq!(decide(2, mean_of(&[900_000, 500_001]), &thresholds()), ScalingDecision::ScaleUp(3));
}

#[test]
fn missing_replica_count_counts_as_one() {
    assert_eq!(plan_scaling(None, mean_of(&[900_000]), &thresholds()), ScalingDecision::ScaleUp(2));
    assert_eq!(plan_scaling(None, mean_of(&[0]), &thresholds()), ScalingDecision::NoOp);
    assert_eq!(plan_scaling(Some(4), mean_of(&[0]), &thresholds()), ScalingDecision::ScaleDown(3));
}

#[test]
fn largest_replica_count_is_not_scaled_up() {
    assert_eq!(plan_scaling(Some(i32::MAX), mean_of(&[900_000]), &thresholds()), ScalingDecision::NoOp);
    assert_eq!(
        plan_scaling(Some(i32::MAX), mean_of(&[0]), &thresholds()),
        ScalingDecision::ScaleDown(i32::MAX - 1)
    );
}

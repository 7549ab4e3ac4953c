//! The scaling policy: a single-step threshold controller with a replica floor.
use vstd::prelude::*;
use crate::usage::MeanCpu;

verus! {

/// The smallest replica count the policy scales down to.
pub const REPLICA_FLOOR: i32 = 1;

/// Per-process scaling configuration. Thresholds are in micro-cores.
#[derive(Clone, Copy, Debug, PartialEq, Eq, Structural)]
pub struct ScalingThresholds {
    pub scale_up_micros: u64,
    pub scale_down_micros: u64,
    pub interval_secs: u64,
}

/// The outcome of the policy for one workload.
#[derive(Clone, Copy, Debug, PartialEq, Eq, Structural)]
pub enum ScalingDecision {
    ScaleUp(i32),
    ScaleDown(i32),
    NoOp,
}

/// The mean `total / count` is strictly above `t`.
pub open spec fn mean_above(total: int, count: int, t: int) -> bool {
    total > t * count
}

/// The mean `total / count` is strictly below `t`.
pub open spec fn mean_below(total: int, count: int, t: int) -> bool {
    total < t * count
}

/// The policy, in priority order: above the scale-up threshold adds one
/// replica; else below the scale-down threshold removes one while above the
/// floor; else nothing.
pub open spec fn policy(current: int, total: int, count: int, t: ScalingThresholds) -> ScalingDecision {
    if mean_above(total, count, t.scale_up_micros as int) {
        ScalingDecision::ScaleUp((current + 1) as i32)
    } else if mean_below(total, count, t.scale_down_micros as int) && current > REPLICA_FLOOR {
        ScalingDecision::ScaleDown((current - 1) as i32)
    } else {
        ScalingDecision::NoOp
    }
}

/// The replica count used when the workload's spec carries none.
pub open spec fn replicas_or_default(read: Option<i32>) -> int {
    match read {
        Some(n) => n as int,
        None => 1,
    }
}

/// The policy applied to a freshly read replica count. A workload already at
/// the largest count the replica field can hold is not scaled up.
pub open spec fn plan(read: Option<i32>, total: int, count: int, t: ScalingThresholds) -> ScalingDecision {
    let current = replicas_or_default(read);
    if current == i32::MAX && mean_above(total, count, t.scale_up_micros as int) {
        ScalingDecision::NoOp
    } else {
        policy(current, total, count, t)
    }
}

fn exceeds(cpu: MeanCpu, t: u64) -> (r: bool)
    ensures
        r == mean_above(cpu.total_micros as int, cpu.samples as int, t as int),
{
    let ghost a = t as int;
    let ghost b = cpu.samples as int;
    proof {
        assert(0 <= a * b <= u64::MAX as int * u64::MAX as int) by (nonlinear_arith)
            requires
                0 <= a <= u64::MAX as int,
                0 <= b <= u64::MAX as int,
        ;
    }
    cpu.total_micros > (t as u128) * (cpu.samples as u128)
}

fn falls_below(cpu: MeanCpu, t: u64) -> (r: bool)
    ensures
        r == mean_below(cpu.total_micros as int, cpu.samples as int, t as int),
{
    let ghost a = t as int;
    let ghost b = cpu.samples as int;
    proof {
        assert(0 <= a * b <= u64::MAX as int * u64::MAX as int) by (nonlinear_arith)
            requires
                0 <= a <= u64::MAX as int,
                0 <= b <= u64::MAX as int,
        ;
    }
    cpu.total_micros < (t as u128) * (cpu.samples as u128)
}

/// Decides how to scale a workload with `current_replicas` replicas whose
/// mean CPU is `cpu`.
pub fn decide(current_replicas: i32, cpu: MeanCpu, thresholds: &ScalingThresholds) -> (r: ScalingDecision)
    requires
        cpu.samples > 0,
        current_replicas < i32::MAX,
    ensures
        r == policy(current_replicas as int, cpu.total_micros as int, cpu.samples as int, *thresholds),
        mean_above(cpu.total_micros as int, cpu.samples as int, thresholds.scale_up_micros as int)
            ==> r == ScalingDecision::ScaleUp((current_replicas + 1) as i32),
        mean_below(cpu.total_micros as int, cpu.samples as int, thresholds.scale_down_micros as int)
            && current_replicas > REPLICA_FLOOR && thresholds.scale_down_micros
            <= thresholds.scale_up_micros ==> r == ScalingDecision::ScaleDown((current_replicas - 1) as i32),
        current_replicas <= REPLICA_FLOOR && !mean_above(
            cpu.total_micros as int,
            cpu.samples as int,
            thresholds.scale_up_micros as int,
        ) ==> r == ScalingDecision::NoOp,
        !mean_below(cpu.total_micros as int, cpu.samples as int, thresholds.scale_down_micros as int)
            && !mean_above(cpu.total_micros as int, cpu.samples as int, thresholds.scale_up_micros as int)
            ==> r == ScalingDecision::NoOp,
{
    proof {
        let total = cpu.total_micros as int;
        let count = cpu.samples as int;
        let d = thresholds.scale_down_micros as int;
        let u = thresholds.scale_up_micros as int;
        assert(d <= u ==> d * count <= u * count) by (nonlinear_arith)
            requires
                count > 0,
        ;
    }
    if exceeds(cpu, thresholds.scale_up_micros) {
        ScalingDecision::ScaleUp(current_replicas + 1)
    } else if falls_below(cpu, thresholds.scale_down_micros) && current_replicas > REPLICA_FLOOR {
        ScalingDecision::ScaleDown(current_replicas - 1)
    } else {
        ScalingDecision::NoOp
    }
}

/// A write this decision asks for leaves at least the floor.
pub open spec fn keeps_floor(d: ScalingDecision) -> bool {
    match d {
        ScalingDecision::ScaleUp(n) => n >= REPLICA_FLOOR,
        ScalingDecision::ScaleDown(n) => n >= REPLICA_FLOOR,
        ScalingDecision::NoOp => true,
    }
}

/// A decision made on a count that is not negative never goes below the floor.
pub proof fn lemma_plan_keeps_floor(read: Option<i32>, total: int, count: int, t: ScalingThresholds)
    requires
        replicas_or_default(read) >= 0,
    ensures
        keeps_floor(plan(read, total, count, t)),
{
}

/// Decides how to scale a workload whose replica count was just read from the
/// cluster (`None`: the spec carries no count, which counts as one replica).
pub fn plan_scaling(read_replicas: Option<i32>, cpu: MeanCpu, thresholds: &ScalingThresholds) -> (r:
    ScalingDecision)
    requires
        cpu.samples > 0,
    ensures
        r == plan(read_replicas, cpu.total_micros as int, cpu.samples as int, *thresholds),
        replicas_or_default(read_replicas) >= 0 ==> keeps_floor(r),
{
    let current: i32 = match read_replicas {
        Some(n) => n,
        None => 1,
    };
    if current == i32::MAX {
        if exceeds(cpu, thresholds.scale_up_micros) {
            return ScalingDecision::NoOp;
        }
        if falls_below(cpu, thresholds.scale_down_micros) {
            return ScalingDecision::ScaleDown(current - 1);
        }
        return ScalingDecision::NoOp;
    }
    decide(current, cpu, thresholds)
}

} // verus!

use scaligator::usage::{aggregate, MeanCpu, PodSample, WorkloadUsage};

fn sample(pod: &str, cpu: u64) -> PodSample {
    PodSample { pod: pod.to_string(), cpu_micros: cpu }
}

fn names(ns: &[&str]) -> Vec<String> {
    ns.iter().map(|n| n.to_string()).collect()
}

fn summary(v: &[WorkloadUsage]) -> Vec<(String, u128, u64)> {
    v.iter().map(|u| (u.name.clone(), u.cpu.total_micros, u.cpu.samples)).collect()
}

#[test]
fn aggregates_per_workload_in_listing_order() {
    let samples = vec![
        sample("web-abc-1", 900_000),
        sample("api-x-1", 100_000),
        sample("web-abc-2", 500_000),
    ];
    let r = aggregate(&samples, &names(&["web", "api"]));
    assert_eq!(
        summary(&r),
        vec![("web".to_string(), 1_400_000, 2), ("api".to_string(), 100_000, 1)]
    );
    assert_eq!(r[0].cpu, MeanCpu { total_micros: 1_400_000, samples: 2 });
}

#[test]
fn aggregating_twice_gives_the_same_result() {
    let samples = vec![sample("web-abc-1", 300_000), sample("web-abc-2", 600_000)];
    let ws = names(&["web"]);
    let first = aggregate(&samples, &ws);
    let second = aggregate(&samples, &ws);
    assert_eq!(summary(&first), summary(&second));
}

#[test]
fn sample_order_does_not_matter() {
    let a = vec![sample("web-abc-1", 300_000), sample("db-x-1", 7), sample("web-abc-2", 600_000)];
    let b = vec![sample("web-abc-2", 600_000), sample("web-abc-1", 300_000), sample("db-x-1", 7)];
    let ws = names(&["web", "db"]);
    assert_eq!(summary(&aggregate(&a, &ws)), summary(&aggregate(&b, &ws)));
}

#[test]
fn unmatched_samples_are_ignored() {
    let samples = vec![sample("web-abc-1", 300_000), sample("orphan-q-1", 999_000)];
    let with_orphan = aggregate(&samples, &names(&["web"]));
    let without = aggregate(&samples[..1].iter().map(|s| sample(&s.pod, s.cpu_micros)).collect(), &names(&["web"]));
    assert_eq!(summary(&with_orphan), vec![("web".to_string(), 300_000, 1)]);
    assert_eq!(summary(&with_orphan), summary(&without));
}

#[test]
fn workload_without_samples_is_omitted() {
    let samples = vec![sample("web-abc-1", 300_000)];
    let r = aggregate(&samples, &names(&["idle", "web"]));
    assert_eq!(summary(&r), vec![("web".to_string(), 300_000, 1)]);
    assert!(aggregate(&Vec::new(), &names(&["web"])).is_empty());
}

#[test]
fn largest_samples_do_not_overflow() {
    let samples = vec![sample("web-a-1", u64::MAX), sample("web-a-2", u64::MAX)];
    let r = aggregate(&samples, &names(&["web"]));
    assert_eq!(summary(&r), vec![("web".to_string(), 2 * (u64::MAX as u128), 2)]);
}

use scaligator::decision::ScalingThresholds;
use scaligator::reconcile::{Action, Event, Reconciler, ScaleDirection, Stage};
use scaligator::usage::PodSample;

fn thresholds() -> ScalingThresholds {
    ScalingThresholds { scale_up_micros: 700_000, scale_down_micros: 200_000, interval_secs: 30 }
}

fn sample(pod: &str, cpu: u64) -> PodSample {
    PodSample { pod: pod.to_string(), cpu_micros: cpu }
}

fn start(namespaces: &[&str]) -> (Reconciler, Action) {
    let r = Reconciler::new(namespaces.iter().map(|n| n.to_string()).collect(), thresholds());
    let a = r.current_action();
    (r, a)
}

#[test]
fn mean_at_threshold_leaves_workload_alone() {
    let (mut r, a) = start(&["default"]);
    assert!(matches!(a, Action::ListWorkloads { ref namespace } if namespace == "default"));
    let (a, c) = r.step(Event::Listed(vec!["web".to_string()]));
    assert!(matches!(a, Action::FetchUsage { ref namespace } if namespace == "default"));
    assert_eq!(c, None);
    let (a, _) = r.step(Event::Fetched(vec![sample("web-abc-1", 900_000), sample("web-abc-2", 500_000)]));
    assert!(matches!(a, Action::ReadReplicas { ref namespace, ref workload } if namespace == "default" && workload == "web"));
    let (a, c) = r.step(Event::ReplicasRead(Some(2)));
    assert!(matches!(a, Action::Sleep { seconds: 30 }));
    assert_eq!(c, None);
    assert_eq!(r.stage, Stage::Sleeping);
}

#[test]
fn mean_above_threshold_scales_up_and_counts() {
    let (mut r, _) = start(&["default"]);
    r.step(Event::Listed(vec!["web".to_string()]));
    r.step(Event::Fetched(vec![sample("web-abc-1", 900_000), sample("web-abc-2", 950_000)]));
    let (a, c) = r.step(Event::ReplicasRead(Some(2)));
    assert!(matches!(a, Action::SetReplicas { ref namespace, ref workload, replicas: 3 } if namespace == "default" && workload == "web"));
    assert_eq!(c, None);
    let (a, c) = r.step(Event::Replaced);
    assert_eq!(c, Some(ScaleDirection::Up));
    assert!(matches!(a, Action::Sleep { seconds: 30 }));
}

#[test]
fn scale_down_counts_down() {
    let (mut r, _) = start(&["default"]);
    r.step(Event::Listed(vec!["web".to_string()]));
    r.step(Event::Fetched(vec![sample("web-abc-1", 10_000)]));
    let (a, _) = r.step(Event::ReplicasRead(Some(4)));
    assert!(matches!(a, Action::SetReplicas { replicas: 3, .. }));
    let (_, c) = r.step(Event::Replaced);
    assert_eq!(c, Some(ScaleDirection::Down));
}

#[test]
fn failed_write_is_not_counted() {
    let (mut r, _) = start(&["default", "dev"]);
    r.step(Event::Listed(vec!["web".to_string(), "api".to_string()]));
    r.step(Event::Fetched(vec![sample("web-abc-1", 900_000), sample("api-x-1", 900_000)]));
    r.step(Event::ReplicasRead(Some(2)));
    let (a, c) = r.step(Event::ReplaceFailed);
    assert_eq!(c, None);
    assert!(matches!(a, Action::ListWorkloads { ref namespace } if namespace == "dev"));
}

#[test]
fn list_failure_skips_only_that_namespace() {
    let (mut r, _) = start(&["default", "dev"]);
    let (a, _) = r.step(Event::ListFailed);
    assert!(matches!(a, Action::ListWorkloads { ref namespace } if namespace == "dev"));
    let (a, _) = r.step(Event::FetchFailed);
    assert!(matches!(a, Action::ListWorkloads { ref namespace } if namespace == "dev"));
    r.step(Event::Listed(vec![]));
    let (a, _) = r.step(Event::FetchFailed);
    assert!(matches!(a, Action::Sleep { .. }));
    let (a, _) = r.step(Event::Woke);
    assert!(matches!(a, Action::ListWorkloads { ref namespace } if namespace == "default"));
}

#[test]
fn workloads_without_samples_are_not_read() {
    let (mut r, _) = start(&["default"]);
    r.step(Event::Listed(vec!["idle".to_string(), "web".to_string()]));
    let (a, _) = r.step(Event::Fetched(vec![sample("web-abc-1", 500_000), sample("other-x-1", 900_000)]));
    assert!(matches!(a, Action::ReadReplicas { ref workload, .. } if workload == "web"));
    let (a, _) = r.step(Event::ReadFailed);
    assert!(matches!(a, Action::Sleep { .. }));
}

#[test]
fn no_namespaces_means_sleeping() {
    let (mut r, a) = start(&[]);
    assert!(matches!(a, Action::Sleep { seconds: 30 }));
    let (a, _) = r.step(Event::Woke);
    assert!(matches!(a, Action::Sleep { seconds: 30 }));
}

#[test]
fn unexpected_event_changes_nothing() {
    let (mut r, _) = start(&["default"]);
    let (a, c) = r.step(Event::Replaced);
    assert_eq!(c, None);
    assert!(matches!(a, Action::ListWorkloads { .. }));
    assert_eq!(r.stage, Stage::Listing);
}

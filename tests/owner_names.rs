use scaligator::owner::extract_deployment_name;

#[test]
fn owner_of_generated_pod_name() {
    assert_eq!(extract_deployment_name("web-7d9f8c6b5-xk2pl"), "web");
}

#[test]
fn owner_of_name_without_hyphens() {
    assert_eq!(extract_deployment_name("web"), "web");
}

#[test]
fn owner_of_name_with_one_hyphen() {
    assert_eq!(extract_deployment_name("web-abc"), "web");
}

#[test]
fn owner_keeps_hyphens_of_the_workload_name() {
    assert_eq!(extract_deployment_name("api-server-5d8f7-abcde"), "api-server");
}

#[test]
fn owner_of_empty_and_hyphen_only_names() {
    assert_eq!(extract_deployment_name(""), "");
    assert_eq!(extract_deployment_name("-"), "");
    assert_eq!(extract_deployment_name("web--"), "web");
}

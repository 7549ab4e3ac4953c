use scaligator::query::{cpu_query, query_url};
use scaligator::settings::{config_file_path, parse_namespaces, DEFAULT_CONFIG_PATH};

#[test]
fn query_text_for_namespace() {
    assert_eq!(cpu_query("default"), "rate(container_cpu_usage_seconds_total{namespace=\"default\"}[2m])");
}

#[test]
fn query_url_is_percent_encoded() {
    assert_eq!(
        query_url("http://localhost:9090", "default"),
        "http://localhost:9090/api/v1/query?query=rate%28container_cpu_usage_seconds_total%7Bnamespace%3D%22default%22%7D%5B2m%5D%29"
    );
}

#[test]
fn query_url_encodes_non_ascii_bytes() {
    let url = query_url("http://m", "é");
    assert!(url.contains("%3D%22%C3%A9%22"));
}

#[test]
fn namespace_list_is_split_on_commas() {
    assert_eq!(parse_namespaces("default, scaling, dev"), vec!["default", " scaling", " dev"]);
    assert_eq!(parse_namespaces("default"), vec!["default"]);
    assert_eq!(parse_namespaces(""), vec![""]);
    assert_eq!(parse_namespaces("a,,b,"), vec!["a", "", "b", ""]);
}

#[test]
fn config_path_prefers_existing_requested_file() {
    assert_eq!(config_file_path(Some("/etc/scaligator.toml".to_string()), true), "/etc/scaligator.toml");
    assert_eq!(config_file_path(Some("/missing.toml".to_string()), false), DEFAULT_CONFIG_PATH);
    assert_eq!(config_file_path(None, false), "./Config");
}

use zt_tunnel::telemetry::MetricsCollector;

#[test]
fn records_appear_in_export() {
    let m = MetricsCollector::new().expect("fresh registry registers both families");
    m.record_request("GET", "/tunnel");
    m.record_request("GET", "/tunnel");
    m.record_request("POST", "/admin");
    m.record_latency("/tunnel", 42);
    let text = m.export_metrics().expect("text exposition encodes");
    assert!(text.contains("http_requests"));
    assert!(text.contains("request_latency"));
    assert!(text.contains("/tunnel"));
    assert!(text.contains("42"));
    assert!(text.contains("2"));
}

#[test]
fn export_names_families_and_help_text() {
    let m = MetricsCollector::new().expect("fresh registry registers both families");
    m.record_request("GET", "/");
    m.record_latency("/", 1);
    let text = m.export_metrics().expect("text exposition encodes");
    assert!(text.contains("Total HTTP requests"));
    assert!(text.contains("Request latency in milliseconds"));
}

use rust_otel_template::config::{TelemetryConfig, DEFAULT_ENDPOINT, DEFAULT_SERVICE_NAME, SERVICE_VERSION};
use rust_otel_template::endpoint::signal_endpoint;
use rust_otel_template::resource::resource_attributes;

fn config_with_endpoint(endpoint: &str) -> TelemetryConfig {
    TelemetryConfig::resolve(Some(endpoint.to_string()), None)
}

#[test]
fn defaults_without_settings() {
    let cfg = TelemetryConfig::resolve(None, None);
    assert_eq!(cfg.endpoint, "http://localhost:4318");
    assert_eq!(cfg.service_name, "rust-otel-template");
    assert_eq!(cfg.service_version, "0.1.0");
    assert_eq!(cfg.endpoint, DEFAULT_ENDPOINT);
    assert_eq!(cfg.service_name, DEFAULT_SERVICE_NAME);
    assert_eq!(cfg.service_version, SERVICE_VERSION);
}

#[test]
fn settings_override_defaults() {
    let cfg = TelemetryConfig::resolve(
        Some("http://collector:4318".to_string()),
        Some("billing".to_string()),
    );
    assert_eq!(cfg.endpoint, "http://collector:4318");
    assert_eq!(cfg.service_name, "billing");
    assert_eq!(cfg.service_version, "0.1.0");
}

#[test]
fn empty_settings_fall_back() {
    let cfg = TelemetryConfig::resolve(Some(String::new()), Some(String::new()));
    assert_eq!(cfg.endpoint, "http://localhost:4318");
    assert_eq!(cfg.service_name, "rust-otel-template");
}

#[test]
fn resolution_is_repeatable() {
    let a = TelemetryConfig::resolve(None, Some("svc".to_string()));
    let b = TelemetryConfig::resolve(None, Some("svc".to_string()));
    assert_eq!(a.endpoint, b.endpoint);
    assert_eq!(a.service_name, b.service_name);
    assert_eq!(a.service_version, b.service_version);
}

#[test]
fn trailing_slash_is_not_doubled() {
    let cfg = config_with_endpoint("http://example.org:1234/");
    assert_eq!(cfg.traces_endpoint(), "http://example.org:1234/v1/traces");
    assert_eq!(cfg.logs_endpoint(), "http://example.org:1234/v1/logs");
}

#[test]
fn endpoint_without_slash() {
    let cfg = TelemetryConfig::resolve(None, None);
    assert_eq!(cfg.traces_endpoint(), "http://localhost:4318/v1/traces");
    assert_eq!(cfg.logs_endpoint(), "http://localhost:4318/v1/logs");
}

#[test]
fn every_trailing_slash_is_trimmed() {
    assert_eq!(signal_endpoint("http://h:1///", "/v1/traces"), "http://h:1/v1/traces");
    assert_eq!(signal_endpoint("http://h:1/base/", "/v1/logs"), "http://h:1/base/v1/logs");
    assert_eq!(signal_endpoint("///", "/v1/logs"), "/v1/logs");
}

#[test]
fn resource_attributes_of_config() {
    let cfg = TelemetryConfig::resolve(None, Some("orders".to_string()));
    let attrs = resource_attributes(&cfg, None);
    assert_eq!(
        attrs,
        vec![
            ("service.name".to_string(), "orders".to_string()),
            ("service.version".to_string(), "0.1.0".to_string()),
            ("deployment.environment".to_string(), "dev".to_string()),
        ]
    );
    let attrs = resource_attributes(&cfg, Some("prod".to_string()));
    assert_eq!(attrs[2], ("deployment.environment".to_string(), "prod".to_string()));
}

#[test]
fn empty_deployment_setting_is_kept() {
    let cfg = TelemetryConfig::resolve(None, None);
    let attrs = resource_attributes(&cfg, Some(String::new()));
    assert_eq!(attrs[2], ("deployment.environment".to_string(), String::new()));
}

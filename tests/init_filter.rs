use rust_otel_template::layers::{Capabilities, LayerKind};
use rust_otel_template::telemetry::{init_telemetry, InitOptions, TelemetryConfig, TelemetryError};

#[test]
fn valid_filter_is_installed() {
    let options = InitOptions {
        deployment_environment: Some(String::new()),
        log_filter: Some("debug,hyper=warn".to_string()),
        capabilities: Capabilities { console_log: false, otlp_log: false },
    };
    let handle = init_telemetry(TelemetryConfig::resolve(None, None), options).expect("init");
    assert_eq!(handle.filter(), "debug,hyper=warn");
    assert_eq!(handle.layers(), &[LayerKind::Filter, LayerKind::TraceForward][..]);
    assert!(!handle.exports_logs());
    handle.shutdown().expect("shutdown");
}

#[test]
fn malformed_endpoint_with_log_export_fails() {
    let options = InitOptions {
        deployment_environment: None,
        log_filter: None,
        capabilities: Capabilities { console_log: false, otlp_log: true },
    };
    let cfg = TelemetryConfig::resolve(Some("http://bad host/".to_string()), None);
    assert!(matches!(init_telemetry(cfg, options), Err(TelemetryError::ExporterBuild(_))));
}

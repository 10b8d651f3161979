use rust_otel_template::layers::{Capabilities, LayerKind};
use rust_otel_template::telemetry::{init_telemetry, InitOptions, TelemetryConfig, TelemetryError};

fn default_options() -> InitOptions {
    InitOptions {
        deployment_environment: None,
        log_filter: None,
        capabilities: Capabilities { console_log: false, otlp_log: false },
    }
}

#[test]
fn telemetry_init_works() {
    let handle = init_telemetry(TelemetryConfig::resolve(None, None), default_options())
        .expect("telemetry init");
    assert!(!handle.exports_logs());
    assert_eq!(handle.layers(), &[LayerKind::Filter, LayerKind::TraceForward][..]);
    assert_eq!(handle.console(), None);
    assert_eq!(handle.filter(), "info");
    handle.shutdown().expect("shutdown");
}

#[test]
fn malformed_endpoint_fails_construction() {
    let cfg = TelemetryConfig::resolve(Some("http://bad host:4318".to_string()), None);
    match init_telemetry(cfg, default_options()) {
        Err(TelemetryError::ExporterBuild(m)) => assert!(!m.is_empty()),
        Err(e) => panic!("unexpected error: {}", e.message()),
        Ok(_) => panic!("malformed endpoint accepted"),
    }
}

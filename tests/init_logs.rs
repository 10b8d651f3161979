use rust_otel_template::layers::{console_format, Capabilities, LayerKind};
use rust_otel_template::telemetry::{init_telemetry, shutdown, InitOptions, TelemetryConfig, TelemetryError};

fn options() -> InitOptions {
    InitOptions {
        deployment_environment: Some("test".to_string()),
        log_filter: Some("not a [valid filter".to_string()),
        capabilities: Capabilities { console_log: true, otlp_log: true },
    }
}

#[test]
fn init_with_log_export_and_reinstall() {
    let cfg = TelemetryConfig::resolve(Some("http://127.0.0.1:9/".to_string()), None);
    let handle = init_telemetry(cfg.clone(), options()).expect("telemetry init");
    assert!(handle.exports_logs());
    assert_eq!(
        handle.layers(),
        &[LayerKind::Filter, LayerKind::ConsoleFormat, LayerKind::LogBridge, LayerKind::TraceForward][..]
    );
    assert_eq!(handle.console(), Some(console_format()));
    assert_eq!(handle.filter(), "info");
    match init_telemetry(cfg, options()) {
        Err(TelemetryError::SubscriberInstall(_)) => {}
        Err(e) => panic!("unexpected error: {}", e.message()),
        Ok(_) => panic!("second subscriber installed"),
    }
    handle.shutdown().expect("shutdown");
    shutdown();
}

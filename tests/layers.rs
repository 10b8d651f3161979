use rust_otel_template::layers::{
    console_format, filter_directives, layer_plan, subscriber_layers, Capabilities, LayerKind,
};

#[test]
fn minimal_layer_stack() {
    let plan = layer_plan(Capabilities { console_log: false, otlp_log: false });
    assert_eq!(plan, vec![LayerKind::Filter, LayerKind::TraceForward]);
}

#[test]
fn full_layer_stack() {
    let plan = layer_plan(Capabilities { console_log: true, otlp_log: true });
    assert_eq!(
        plan,
        vec![
            LayerKind::Filter,
            LayerKind::ConsoleFormat,
            LayerKind::LogBridge,
            LayerKind::TraceForward
        ]
    );
}

#[test]
fn partial_layer_stacks() {
    assert_eq!(
        layer_plan(Capabilities { console_log: true, otlp_log: false }),
        vec![LayerKind::Filter, LayerKind::ConsoleFormat, LayerKind::TraceForward]
    );
    assert_eq!(
        layer_plan(Capabilities { console_log: false, otlp_log: true }),
        vec![LayerKind::Filter, LayerKind::LogBridge, LayerKind::TraceForward]
    );
}

#[test]
fn console_is_compact_without_target() {
    let f = console_format();
    assert!(!f.show_target);
    assert!(f.show_thread_ids);
    assert!(f.show_file);
    assert!(f.show_line_number);
}

#[test]
fn subscriber_layers_follow_capabilities() {
    assert_eq!(
        subscriber_layers(Capabilities { console_log: false, otlp_log: false }),
        (None, false)
    );
    assert_eq!(
        subscriber_layers(Capabilities { console_log: true, otlp_log: false }),
        (Some(console_format()), false)
    );
    assert_eq!(
        subscriber_layers(Capabilities { console_log: false, otlp_log: true }),
        (None, true)
    );
}

#[test]
fn filter_directives_choice() {
    assert_eq!(filter_directives(Some("debug,hyper=warn".to_string()), true), "debug,hyper=warn");
    assert_eq!(filter_directives(Some("not [valid".to_string()), false), "info");
    assert_eq!(filter_directives(None, false), "info");
    assert_eq!(filter_directives(None, true), "info");
}

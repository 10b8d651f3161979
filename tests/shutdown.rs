use rust_otel_template::shutdown::{join_messages, shutdown_outcome};

#[test]
fn shutdown_ok_when_nothing_failed() {
    assert!(shutdown_outcome(Ok(()), None).is_ok());
    assert!(shutdown_outcome(Ok(()), Some(Ok(()))).is_ok());
}

#[test]
fn shutdown_reports_tracer_failure() {
    let e = shutdown_outcome(Err("Shutdown already invoked".to_string()), Some(Ok(()))).unwrap_err();
    assert_eq!(e.message(), "tracer: Shutdown already invoked");
}

#[test]
fn shutdown_reports_logger_failure() {
    let e = shutdown_outcome(Ok(()), Some(Err("timed out".to_string()))).unwrap_err();
    assert_eq!(e.message(), "logger: timed out");
}

#[test]
fn shutdown_aggregates_both_failures() {
    let e = shutdown_outcome(Err("a".to_string()), Some(Err("b".to_string()))).unwrap_err();
    assert_eq!(e.message(), "tracer: a, logger: b");
    assert!(e.message().contains("tracer"));
    assert!(e.message().contains("logger"));
}

#[test]
fn join_of_messages() {
    assert_eq!(join_messages(&vec![], ", "), "");
    assert_eq!(join_messages(&vec!["x".to_string()], ", "), "x");
    assert_eq!(
        join_messages(&vec!["x".to_string(), "y".to_string(), "z".to_string()], "; "),
        "x; y; z"
    );
}

//! The OpenTelemetry SDK, OTLP exporter and subscriber calls that the
//! telemetry pipeline is assembled from, with what this library relies on.
use vstd::prelude::*;
use opentelemetry::trace::TracerProvider;
use opentelemetry::KeyValue;
use opentelemetry_appender_tracing::layer::OpenTelemetryTracingBridge;
use opentelemetry_otlp::{ExporterBuildError, LogExporter, Protocol, SpanExporter, WithExportConfig};
use opentelemetry_sdk::error::OTelSdkError;
use opentelemetry_sdk::logs::SdkLoggerProvider;
use opentelemetry_sdk::trace::SdkTracerProvider;
use opentelemetry_sdk::Resource;
use tracing_opentelemetry::OpenTelemetryLayer;
use tracing_subscriber::filter::ParseError;
use tracing_subscriber::layer::SubscriberExt;
use tracing_subscriber::util::{SubscriberInitExt, TryInitError};
use tracing_subscriber::{fmt, EnvFilter, Registry};
use crate::layers::ConsoleFormat;

verus! {

#[verifier::external_type_specification]
#[verifier::external_body]
pub struct ExResource(Resource);

#[verifier::external_type_specification]
#[verifier::external_body]
pub struct ExSpanExporter(SpanExporter);

#[verifier::external_type_specification]
#[verifier::external_body]
pub struct ExLogExporter(LogExporter);

#[verifier::external_type_specification]
#[verifier::external_body]
pub struct ExExporterBuildError(ExporterBuildError);

#[verifier::external_type_specification]
#[verifier::external_body]
pub struct ExSdkTracerProvider(SdkTracerProvider);

#[verifier::external_type_specification]
#[verifier::external_body]
pub struct ExSdkLoggerProvider(SdkLoggerProvider);

#[verifier::external_type_specification]
#[verifier::external_body]
pub struct ExOTelSdkError(OTelSdkError);

#[verifier::external_type_specification]
#[verifier::external_body]
pub struct ExEnvFilter(EnvFilter);

#[verifier::external_type_specification]
#[verifier::external_body]
pub struct ExParseError(ParseError);

#[verifier::external_type_specification]
#[verifier::external_body]
pub struct ExTryInitError(TryInitError);

/// Relies on `Resource::clone`: the trace and log providers share one resource.
pub assume_specification[ <Resource as Clone>::clone ](r: &Resource) -> Resource;

/// Relies on `Resource::builder`, `ResourceBuilder::with_attributes` and
/// `ResourceBuilder::build`: a resource carrying the given attributes, which
/// take precedence over the SDK's detected ones.
#[verifier::external_body]
pub(crate) fn build_resource(attributes: Vec<(String, String)>) -> Resource {
    Resource::builder().with_attributes(
        attributes.into_iter().map(|(key, value)| KeyValue::new(key, value)),
    ).build()
}

/// Whether the OTLP span exporter builder accepts `url` as its endpoint URI.
pub uninterp spec fn span_exporter_accepts(url: Seq<char>) -> bool;

/// Whether the OTLP log exporter builder accepts `url` as its endpoint URI.
pub uninterp spec fn log_exporter_accepts(url: Seq<char>) -> bool;

/// Whether `EnvFilter::try_new` accepts `directives`.
pub uninterp spec fn filter_directives_valid(directives: Seq<char>) -> bool;

/// Relies on the OTLP `SpanExporter` builder: an HTTP exporter (blocking
/// reqwest client) with binary (protobuf) bodies posting to `url`. With the
/// endpoint given, its only failure is an invalid URI, so success depends on
/// `url` alone; nothing is sent while building.
#[verifier::external_body]
pub(crate) fn build_span_exporter(url: String) -> (r: Result<SpanExporter, ExporterBuildError>)
    ensures
        r is Ok <==> span_exporter_accepts(url@),
{
    SpanExporter::builder().with_http().with_protocol(Protocol::HttpBinary).with_endpoint(
        url,
    ).build()
}

/// Relies on the OTLP `LogExporter` builder, as for spans, posting to `url`.
#[verifier::external_body]
pub(crate) fn build_log_exporter(url: String) -> (r: Result<LogExporter, ExporterBuildError>)
    ensures
        r is Ok <==> log_exporter_accepts(url@),
{
    LogExporter::builder().with_http().with_protocol(Protocol::HttpBinary).with_endpoint(
        url,
    ).build()
}

/// Relies on `SdkTracerProvider::builder` with `with_batch_exporter` and
/// `with_resource`: a provider that batches spans to `exporter` on a worker
/// thread and tags them with `resource`.
#[verifier::external_body]
pub(crate) fn batch_tracer_provider(exporter: SpanExporter, resource: Resource) -> SdkTracerProvider {
    SdkTracerProvider::builder().with_batch_exporter(exporter).with_resource(resource).build()
}

/// Relies on `SdkLoggerProvider::builder` with `with_batch_exporter` and
/// `with_resource`, as for spans.
#[verifier::external_body]
pub(crate) fn batch_logger_provider(exporter: LogExporter, resource: Resource) -> SdkLoggerProvider {
    SdkLoggerProvider::builder().with_batch_exporter(exporter).with_resource(resource).build()
}

/// Relies on `opentelemetry::global::set_tracer_provider`: `provider` becomes
/// the process-wide tracer source, replacing the previous one.
#[verifier::external_body]
pub(crate) fn set_global_tracer_provider(provider: &SdkTracerProvider) {
    let _previous = opentelemetry::global::set_tracer_provider(provider.clone());
}

/// Relies on `EnvFilter::try_new`: the filter for `directives`, or the parse
/// error of an invalid directive; which it is depends on `directives` alone.
#[verifier::external_body]
pub(crate) fn parse_env_filter(directives: &str) -> (r: Result<EnvFilter, ParseError>)
    ensures
        r is Ok <==> filter_directives_valid(directives@),
{
    EnvFilter::try_new(directives)
}

/// Relies on `EnvFilter::new`: the filter for `directives`, skipping invalid ones.
#[verifier::external_body]
pub(crate) fn env_filter(directives: &str) -> EnvFilter {
    EnvFilter::new(directives)
}

/// Relies on `Registry::with` and `SubscriberInitExt::try_init`: installs the
/// stack filter, console formatter (when `console` is given), log bridge to
/// `logs` (when given), span forwarder to a tracer of `traces` named `scope`,
/// as the global subscriber; fails when one is installed already.
#[verifier::external_body]
pub(crate) fn install_subscriber(
    filter: EnvFilter,
    console: Option<ConsoleFormat>,
    logs: Option<&SdkLoggerProvider>,
    traces: &SdkTracerProvider,
    scope: &str,
) -> Result<(), TryInitError> {
    let console_layer = console.map(|f| fmt::layer().with_target(f.show_target).with_thread_ids(
        f.show_thread_ids).with_file(f.show_file).with_line_number(f.show_line_number).compact());
    let bridge_layer = logs.map(OpenTelemetryTracingBridge::new);
    let trace_layer = OpenTelemetryLayer::new(traces.tracer(scope.to_string()));
    Registry::default().with(filter).with(console_layer).with(bridge_layer).with(
        trace_layer,
    ).try_init()
}

/// Relies on `SdkTracerProvider::shutdown`: flushes and stops the provider,
/// reporting a failure (already shut down, timed out, or export errors).
#[verifier::external_body]
pub(crate) fn shutdown_tracer_provider(provider: &SdkTracerProvider) -> Result<(), OTelSdkError> {
    provider.shutdown()
}

/// Relies on `SdkLoggerProvider::shutdown`, as for spans.
#[verifier::external_body]
pub(crate) fn shutdown_logger_provider(provider: &SdkLoggerProvider) -> Result<(), OTelSdkError> {
    provider.shutdown()
}

} // verus!

//! Telemetry initialization: builds the exporters and providers, installs the
//! global tracer source and subscriber, and returns the handle that shuts
//! them down.
use vstd::prelude::*;
use opentelemetry_sdk::logs::SdkLoggerProvider;
use opentelemetry_sdk::trace::SdkTracerProvider;
use tracing_subscriber::EnvFilter;
pub use crate::config::TelemetryConfig;
pub use crate::layers::{Capabilities, LayerKind};
pub use crate::shutdown::ShutdownError;
use crate::config::opt_view;
use crate::endpoint::{logs_path, signal_url, traces_path};
use crate::layers::{
    console_for, filter_choice, filter_directives, layer_plan, planned_layers, subscriber_layers,
    ConsoleFormat,
};
use crate::outside::{
    batch_logger_provider, batch_tracer_provider, build_log_exporter, build_resource,
    build_span_exporter, env_filter, filter_directives_valid, install_subscriber,
    log_exporter_accepts, parse_env_filter, set_global_tracer_provider, shutdown_logger_provider,
    shutdown_tracer_provider, span_exporter_accepts,
};
use crate::resource::resource_attributes;
use crate::shutdown::{failures, join, separator, shutdown_outcome};

verus! {

/// Name of the tracer that receives the forwarded spans.
pub const INSTRUMENTATION_SCOPE: &'static str = "rust-otel-template";

/// Settings of an initialization besides the configuration: values read from
/// the environment, and the optional capabilities.
#[derive(Clone, Debug)]
pub struct InitOptions {
    /// Reported as `deployment.environment` (absent: "dev").
    pub deployment_environment: Option<String>,
    /// Event filter directives (absent or invalid: "info").
    pub log_filter: Option<String>,
    pub capabilities: Capabilities,
}

/// Why initialization failed.
#[derive(Debug)]
pub enum TelemetryError {
    /// An exporter could not be built (for instance, an invalid endpoint).
    ExporterBuild(String),
    /// A global subscriber was installed already.
    SubscriberInstall(String),
}

impl TelemetryError {
    /// A human-readable description.
    pub fn message(&self) -> (r: String)
        ensures
            r@ == match self {
                TelemetryError::ExporterBuild(m) => m@,
                TelemetryError::SubscriberInstall(m) => m@,
            },
    {
        match self {
            TelemetryError::ExporterBuild(m) => m.clone(),
            TelemetryError::SubscriberInstall(m) => m.clone(),
        }
    }
}

impl ShutdownError {
    /// A human-readable description.
    pub fn message(&self) -> (r: String)
        ensures
            r@ == self.message@,
    {
        self.message.clone()
    }
}

/// The outcome of an aggregated shutdown, its failure as a message.
pub open spec fn shutdown_view(r: Result<(), ShutdownError>) -> Result<(), Seq<char>> {
    match r {
        Ok(()) => Ok(()),
        Err(e) => Err(e.message@),
    }
}

/// What aggregating the given provider outcomes yields.
pub open spec fn aggregated(trace: Result<(), Seq<char>>, log: Option<Result<(), Seq<char>>>) -> Result<
    (),
    Seq<char>,
> {
    if failures(trace, log).len() == 0 {
        Ok(())
    } else {
        Err(join(failures(trace, log), separator()))
    }
}

/// The filter directives installed for the configured ones: those when
/// present and valid, else "info".
pub open spec fn installed_filter(configured: Option<Seq<char>>) -> Seq<char> {
    filter_choice(
        configured,
        configured is Some && filter_directives_valid(configured->Some_0),
    )
}

/// Whether initialization with endpoint `endpoint` fails to build an exporter:
/// the span exporter, or the log exporter when log export is enabled.
pub open spec fn exporter_build_fails(endpoint: Seq<char>, caps: Capabilities) -> bool {
    !span_exporter_accepts(signal_url(endpoint, traces_path())) || (caps.otlp_log
        && !log_exporter_accepts(signal_url(endpoint, logs_path())))
}

/// Owns the providers of one initialization, and records what was handed to
/// the subscriber; consumed by its shutdown.
pub struct TelemetryHandle {
    tracer_provider: SdkTracerProvider,
    logger_provider: Option<SdkLoggerProvider>,
    layers: Vec<LayerKind>,
    console: Option<ConsoleFormat>,
    filter: String,
}

impl TelemetryHandle {
    /// Whether the handle owns a log provider.
    pub closed spec fn exports_logs_spec(&self) -> bool {
        self.logger_provider is Some
    }

    /// The layer stack of what was handed to the subscriber.
    pub closed spec fn layers_spec(&self) -> Seq<LayerKind> {
        self.layers@
    }

    /// The console rendering handed to the subscriber, if any.
    pub closed spec fn console_spec(&self) -> Option<ConsoleFormat> {
        self.console
    }

    /// The filter directives handed to the subscriber.
    pub closed spec fn filter_spec(&self) -> Seq<char> {
        self.filter@
    }

    /// The console rendering handed to the subscriber, if any.
    pub fn console(&self) -> (r: Option<ConsoleFormat>)
        ensures
            r == self.console_spec(),
    {
        self.console
    }

    /// The filter directives handed to the subscriber.
    pub fn filter(&self) -> (r: &str)
        ensures
            r@ == self.filter_spec(),
    {
        self.filter.as_str()
    }

    /// Whether log records are exported.
    pub fn exports_logs(&self) -> (r: bool)
        ensures
            r == self.exports_logs_spec(),
    {
        self.logger_provider.is_some()
    }

    /// The installed layer stack, in order: the stack of the console rendering
    /// and log provider that were handed to the subscriber.
    pub fn layers(&self) -> (r: &[LayerKind])
        ensures
            r@ == self.layers_spec(),
    {
        self.layers.as_slice()
    }

    /// Flushes and shuts down the trace provider, then the log provider when
    /// there is one, attempting each whatever the other reported. Succeeds when
    /// neither failed; otherwise the error joins a labelled message for each
    /// failing provider.
    pub fn shutdown(self) -> (r: Result<(), ShutdownError>)
        ensures
            exists|trace: Result<(), Seq<char>>, log: Option<Result<(), Seq<char>>>|
                (log is Some <==> self.exports_logs_spec()) && shutdown_view(r) == #[trigger] aggregated(
                    trace,
                    log,
                ),
    {
        let trace = match shutdown_tracer_provider(&self.tracer_provider) {
            Ok(()) => Ok(()),
            Err(e) => Err(e.to_string()),
        };
        let log = match &self.logger_provider {
            Some(p) => Some(
                match shutdown_logger_provider(p) {
                    Ok(()) => Ok(()),
                    Err(e) => Err(e.to_string()),
                },
            ),
            None => None,
        };
        let r = shutdown_outcome(trace, log);
        proof {
            let tv = crate::shutdown::outcome_view(trace);
            let lv = crate::shutdown::opt_outcome_view(log);
            assert(shutdown_view(r) == aggregated(tv, lv));
        }
        r
    }
}

/// The event filter and its directives: the configured directives when
/// present and valid, else "info".
fn event_filter(configured: Option<String>) -> (r: (EnvFilter, String))
    ensures
        r.1@ == installed_filter(opt_view(configured)),
{
    match configured {
        Some(d) => match parse_env_filter(d.as_str()) {
            Ok(f) => (f, filter_directives(Some(d), true)),
            Err(_) => {
                let directives = filter_directives(Some(d), false);
                (env_filter(directives.as_str()), directives)
            },
        },
        None => {
            let directives = filter_directives(None, false);
            (env_filter(directives.as_str()), directives)
        },
    }
}

/// Initializes tracing, and log export when enabled: exports to the
/// configuration's per-signal endpoints, registers the trace provider as the
/// global tracer source and installs the layer stack for the capabilities as
/// the global subscriber. Fails with `ExporterBuild` exactly when an exporter
/// cannot be built from its URL. On success the handle owns a log provider
/// exactly when log export is enabled, and records the stack, console
/// rendering and filter directives that were installed.
pub fn init_telemetry(cfg: TelemetryConfig, options: InitOptions) -> (r: Result<
    TelemetryHandle,
    TelemetryError,
>)
    ensures
        (r matches Err(TelemetryError::ExporterBuild(_))) <==> exporter_build_fails(
            cfg.endpoint@,
            options.capabilities,
        ),
        r matches Ok(h) ==> {
            &&& h.layers_spec() == planned_layers(options.capabilities)
            &&& h.exports_logs_spec() <==> options.capabilities.otlp_log
            &&& h.console_spec() == console_for(options.capabilities)
            &&& h.filter_spec() == installed_filter(opt_view(options.log_filter))
        },
{
    let (console, bridge) = subscriber_layers(options.capabilities);
    let resource = build_resource(resource_attributes(&cfg, options.deployment_environment));

    let span_exporter = match build_span_exporter(cfg.traces_endpoint()) {
        Ok(e) => e,
        Err(e) => {
            return Err(TelemetryError::ExporterBuild(e.to_string()));
        },
    };
    let log_exporter = if bridge {
        match build_log_exporter(cfg.logs_endpoint()) {
            Ok(e) => Some(e),
            Err(e) => {
                return Err(TelemetryError::ExporterBuild(e.to_string()));
            },
        }
    } else {
        None
    };

    let tracer_provider = batch_tracer_provider(span_exporter, resource.clone());
    set_global_tracer_provider(&tracer_provider);
    let logger_provider = match log_exporter {
        Some(e) => Some(batch_logger_provider(e, resource)),
        None => None,
    };

    let (filter, directives) = event_filter(options.log_filter);
    let installed = install_subscriber(
        filter,
        console,
        logger_provider.as_ref(),
        &tracer_provider,
        INSTRUMENTATION_SCOPE,
    );
    if let Err(e) = installed {
        return Err(TelemetryError::SubscriberInstall(e.to_string()));
    }
    let layers = layer_plan(
        Capabilities { console_log: console.is_some(), otlp_log: logger_provider.is_some() },
    );
    Ok(TelemetryHandle { tracer_provider, logger_provider, layers, console, filter: directives })
}

/// Kept for callers of earlier versions; does nothing. Shutdown goes through
/// [`TelemetryHandle::shutdown`].
pub fn shutdown() {
}

} // verus!

//! Configuration values and their resolution from optional environment input.
use vstd::prelude::*;

verus! {

/// Base endpoint used when no collector endpoint is configured.
pub const DEFAULT_ENDPOINT: &'static str = "http://localhost:4318";

/// Service name used when none is configured.
pub const DEFAULT_SERVICE_NAME: &'static str = "rust-otel-template";

/// Version of this package, reported as `service.version`.
pub const SERVICE_VERSION: &'static str = "0.1.0";

pub open spec fn default_endpoint() -> Seq<char> {
    "http://localhost:4318"@
}

pub open spec fn default_service_name() -> Seq<char> {
    "rust-otel-template"@
}

pub open spec fn service_version() -> Seq<char> {
    "0.1.0"@
}

/// The view of an optional string.
pub open spec fn opt_view(o: Option<String>) -> Option<Seq<char>> {
    match o {
        Some(s) => Some(s@),
        None => None,
    }
}

/// A configured value, or the fallback when the value is absent or empty.
pub open spec fn setting_or(value: Option<Seq<char>>, fallback: Seq<char>) -> Seq<char> {
    match value {
        Some(s) => if s.len() > 0 { s } else { fallback },
        None => fallback,
    }
}

/// Mathematical model of a configuration.
pub struct ConfigModel {
    pub endpoint: Seq<char>,
    pub service_name: Seq<char>,
    pub service_version: Seq<char>,
}

/// The configuration that resolution yields for the given endpoint and
/// service-name settings.
pub open spec fn resolved(endpoint: Option<Seq<char>>, service_name: Option<Seq<char>>) -> ConfigModel {
    ConfigModel {
        endpoint: setting_or(endpoint, default_endpoint()),
        service_name: setting_or(service_name, default_service_name()),
        service_version: service_version(),
    }
}

/// Configuration used when initializing telemetry.
#[derive(Clone, Debug)]
pub struct TelemetryConfig {
    /// Base collector endpoint, without the per-signal path.
    pub endpoint: String,
    /// Reported as `service.name`.
    pub service_name: String,
    /// Reported as `service.version`.
    pub service_version: String,
}

impl View for TelemetryConfig {
    type V = ConfigModel;

    open spec fn view(&self) -> ConfigModel {
        ConfigModel {
            endpoint: self.endpoint@,
            service_name: self.service_name@,
            service_version: self.service_version@,
        }
    }
}

impl TelemetryConfig {
    /// Every field is non-empty.
    pub open spec fn well_formed(&self) -> bool {
        &&& self.endpoint@.len() > 0
        &&& self.service_name@.len() > 0
        &&& self.service_version@.len() > 0
    }

    /// Resolves a configuration from the collector-endpoint and service-name
    /// settings (as read from the environment); an absent or empty setting
    /// falls back to its default. The version is always this package's own.
    pub fn resolve(endpoint: Option<String>, service_name: Option<String>) -> (r: Self)
        ensures
            r@ == resolved(opt_view(endpoint), opt_view(service_name)),
            r.well_formed(),
    {
        proof {
            reveal_strlit("http://localhost:4318");
            reveal_strlit("rust-otel-template");
            reveal_strlit("0.1.0");
        }
        let endpoint = setting_or_default(endpoint, DEFAULT_ENDPOINT);
        let service_name = setting_or_default(service_name, DEFAULT_SERVICE_NAME);
        TelemetryConfig {
            endpoint,
            service_name,
            service_version: String::from_str(SERVICE_VERSION),
        }
    }
}

/// The given setting when present and non-empty, else the fallback.
pub fn setting_or_default(value: Option<String>, fallback: &str) -> (r: String)
    ensures
        r@ == setting_or(opt_view(value), fallback@),
{
    match value {
        Some(s) => {
            if s.as_str().is_empty() {
                String::from_str(fallback)
            } else {
                s
            }
        },
        None => String::from_str(fallback),
    }
}

/// Resolution is a function of its settings alone: resolving twice from the
/// same settings gives field-for-field equal configurations, each well formed.
pub proof fn resolve_is_repeatable(
    endpoint: Option<Seq<char>>,
    service_name: Option<Seq<char>>,
    first: TelemetryConfig,
    second: TelemetryConfig,
)
    requires
        first@ == resolved(endpoint, service_name),
        second@ == resolved(endpoint, service_name),
    ensures
        first@ == second@,
        first.endpoint@ == second.endpoint@,
        first.service_name@ == second.service_name@,
        first.service_version@ == second.service_version@,
{
}

/// Without any setting, resolution yields the documented defaults.
pub proof fn resolve_defaults()
    ensures
        resolved(None, None) == (ConfigModel {
            endpoint: default_endpoint(),
            service_name: default_service_name(),
            service_version: service_version(),
        }),
{
}

} // verus!

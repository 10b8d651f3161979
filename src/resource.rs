//! The attributes that identify the emitting service on every exported record.
use vstd::prelude::*;
use crate::config::{opt_view, TelemetryConfig};

verus! {

/// Deployment environment used when none is configured.
pub const DEFAULT_DEPLOYMENT_ENVIRONMENT: &'static str = "dev";

pub const SERVICE_NAME_KEY: &'static str = "service.name";

pub const SERVICE_VERSION_KEY: &'static str = "service.version";

pub const DEPLOYMENT_ENVIRONMENT_KEY: &'static str = "deployment.environment";

/// The deployment environment: the setting when present, else "dev".
pub open spec fn deployment_or_default(deployment: Option<Seq<char>>) -> Seq<char> {
    match deployment {
        Some(d) => d,
        None => "dev"@,
    }
}

/// The view of a list of key/value attributes.
pub open spec fn attribute_views(v: Seq<(String, String)>) -> Seq<(Seq<char>, Seq<char>)> {
    v.map_values(|a: (String, String)| (a.0@, a.1@))
}

/// The resource attributes of a service with configuration `cfg`, deployed in
/// the environment given by the `deployment` setting.
pub open spec fn service_attributes(
    cfg: crate::config::ConfigModel,
    deployment: Option<Seq<char>>,
) -> Seq<(Seq<char>, Seq<char>)> {
    seq![
        ("service.name"@, cfg.service_name),
        ("service.version"@, cfg.service_version),
        ("deployment.environment"@, deployment_or_default(deployment)),
    ]
}

/// The resource attributes for `cfg`: its service name and version, and the
/// deployment environment from `deployment` (absent: "dev").
pub fn resource_attributes(cfg: &TelemetryConfig, deployment: Option<String>) -> (r: Vec<
    (String, String),
>)
    ensures
        attribute_views(r@) == service_attributes(cfg@, opt_view(deployment)),
{
    proof {
        reveal_strlit("dev");
        reveal_strlit("service.name");
        reveal_strlit("service.version");
        reveal_strlit("deployment.environment");
    }
    let environment = match deployment {
        Some(d) => d,
        None => String::from_str(DEFAULT_DEPLOYMENT_ENVIRONMENT),
    };
    let mut attrs: Vec<(String, String)> = Vec::new();
    attrs.push((String::from_str(SERVICE_NAME_KEY), cfg.service_name.clone()));
    attrs.push((String::from_str(SERVICE_VERSION_KEY), cfg.service_version.clone()));
    attrs.push((String::from_str(DEPLOYMENT_ENVIRONMENT_KEY), environment));
    assert(attribute_views(attrs@) =~= service_attributes(cfg@, opt_view(deployment)));
    attrs
}

} // verus!

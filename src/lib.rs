//! Telemetry bootstrap for services: resolves the collector configuration,
//! plans the event-processing layers, installs tracing and optional log export
//! over OpenTelemetry, and aggregates provider shutdown failures.
pub mod config;
pub mod endpoint;
pub mod shutdown;
pub mod layers;
pub mod resource;
pub mod outside;
pub mod telemetry;

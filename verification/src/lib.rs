//! Telemetry for HTTP services: request span and metric attributes,
//! trace-context header maps, and the setup of trace and metric pipelines.

pub mod attributes;
pub mod config;
pub mod error;
pub mod headers;
pub mod http;
pub mod metrics;
pub mod middleware;
pub mod sdk;
pub mod text;
pub mod tracing_setup;

pub use config::{MetricsConfig, MetricsExporter, TelemetryConfig, TracingConfig, TracingExporter};
pub use error::{TelemetryError, TelemetryResult};
pub use headers::{HeaderExtractor, HeaderInjector, HeaderMap};
pub use metrics::{finish_metrics, get_meter, install_meter_provider, plan_metrics, shutdown_metrics};
pub use middleware::TelemetryMiddleware;
pub use tracing_setup::{
    finish_tracing, get_tracer, install_propagator, install_tracer_provider, plan_tracing,
    shutdown_tracing,
};

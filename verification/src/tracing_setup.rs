//! Setting up, and shutting down, the trace pipeline.

use crate::attributes::{attrs_view, Attribute};
use crate::config::{
    resource_attrs, resource_has_attrs, resource_from_attributes, ExportTarget, SpecExportTarget, TelemetryConfig,
    TracingExporter,
};
use crate::error::{shutdown_outcome, TelemetryError, TelemetryResult};
use opentelemetry_otlp::{ExporterBuildError, SpanExporter};
use crate::sdk;
use crate::sdk::{
    exporter_error_message, tracer_builder_processor_count, tracer_builder_resource,
    tracer_provider_processor_count, tracer_provider_resource, tracer_provider_sampler,
    tracer_provider_span_limits,
};
use opentelemetry::global::BoxedTracer;
use opentelemetry_sdk::trace::{Sampler, SdkTracerProvider, TracerProviderBuilder};
use opentelemetry_sdk::Resource;
use vstd::prelude::*;

verus! {

/// The message for a configuration with tracing disabled.
pub open spec fn tracing_disabled_message() -> Seq<char> {
    "Tracing is not enabled"@
}

/// The message for an OTLP span exporter without an endpoint.
pub open spec fn tracing_endpoint_missing_message() -> Seq<char> {
    "OTLP endpoint not configured"@
}

/// The message for the discontinued Jaeger exporter.
pub open spec fn jaeger_discontinued_message() -> Seq<char> {
    "Jaeger exporter is discontinued. Use OTLP with a Jaeger collector instead. See: https://www.jaegertracing.io/docs/1.35/apis/#opentelemetry-protocol-stable"@
}

/// The message for the Zipkin exporter, which this build does not include.
pub open spec fn zipkin_unavailable_message() -> Seq<char> {
    "Tracing exporter Zipkin not available (feature not enabled)"@
}

/// The configuration error that tracing setup reports for `c`, if any.
pub open spec fn tracing_config_error(c: TelemetryConfig) -> Option<Seq<char>> {
    if !c.enable_tracing {
        Some(tracing_disabled_message())
    } else {
        match c.tracing.exporter {
            TracingExporter::Otlp => if c.tracing.otlp_endpoint is None {
                Some(tracing_endpoint_missing_message())
            } else {
                None
            },
            TracingExporter::Jaeger => Some(jaeger_discontinued_message()),
            TracingExporter::Zipkin => Some(zipkin_unavailable_message()),
            TracingExporter::NoExporter => None,
        }
    }
}

/// Installs the W3C Trace Context propagator as the process-wide text-map
/// propagator, so that inbound `traceparent`/`tracestate` headers are
/// parsed. Installing it again has no further effect.
pub fn install_propagator() {
    sdk::set_text_map_propagator(sdk::trace_context_propagator());
}

/// Installs `provider` as the process-wide tracer provider.
pub fn install_tracer_provider(provider: &SdkTracerProvider) {
    sdk::set_tracer_provider(sdk::clone_tracer_provider(provider));
}

/// The exporter that tracing is set up with for `c`, when `c` is valid.
pub open spec fn tracing_target(c: TelemetryConfig) -> SpecExportTarget {
    match (c.tracing.exporter, c.tracing.otlp_endpoint) {
        (TracingExporter::Otlp, Some(e)) => SpecExportTarget::Otlp(e@),
        _ => SpecExportTarget::NoExporter,
    }
}

/// With tracing enabled, an OTLP exporter with an endpoint `e` is set up to
/// export to exactly `e`; without an exporter, none is set up; and exactly
/// these two settings are accepted, while disabled tracing, a missing OTLP
/// endpoint, Jaeger and Zipkin are refused.
pub proof fn law_tracing_target(c: TelemetryConfig)
    ensures
        (c.enable_tracing && c.tracing.exporter == TracingExporter::Otlp
            && c.tracing.otlp_endpoint is Some) ==> (tracing_config_error(c) is None
            && tracing_target(c) == SpecExportTarget::Otlp(c.tracing.otlp_endpoint->0@)),
        (c.enable_tracing && c.tracing.exporter == TracingExporter::NoExporter) ==> (tracing_config_error(c) is None
            && tracing_target(c) == SpecExportTarget::NoExporter),
        tracing_config_error(c) is None <==> (c.enable_tracing && (c.tracing.exporter
            == TracingExporter::NoExporter || (c.tracing.exporter == TracingExporter::Otlp
            && c.tracing.otlp_endpoint is Some))),
{
}

/// How the tracer provider is to be built, as plain values.
pub struct TracingPlan {
    /// The span exporter to build.
    pub exporter: ExportTarget,
    /// The attributes of the provider's resource.
    pub resource: Vec<Attribute>,
    /// The most attributes a span keeps.
    pub max_attributes_per_span: u32,
    /// The most events a span keeps.
    pub max_events_per_span: u32,
}

/// The first step of tracing setup: whether the W3C propagator is installed,
/// and either the plan of the provider or the configuration error.
pub struct TracingStart {
    pub install_propagator: bool,
    pub plan: Result<TracingPlan, TelemetryError>,
}

/// Decides the first step of tracing setup for `config`.
///
/// Setup proceeds in this order: it stops at once, having done nothing, if
/// tracing is disabled; otherwise it installs the W3C propagator, then
/// either stops with a configuration error (exactly when
/// `tracing_config_error` gives one) or goes on with the plan: the exporter
/// for the configured endpoint, the service's resource attributes and the
/// configured span limits.
pub fn plan_tracing(config: &TelemetryConfig) -> (s: TracingStart)
    ensures
        s.install_propagator == config.enable_tracing,
        tracing_config_error(*config) matches Some(m) ==> s.plan matches Err(
            TelemetryError::Config(e),
        ) && e@ == m,
        tracing_config_error(*config) is None ==> (s.plan matches Ok(p) && p.exporter@
            == tracing_target(*config) && attrs_view(p.resource@) == resource_attrs(*config)
            && p.max_attributes_per_span == config.tracing.max_attributes_per_span
            && p.max_events_per_span == config.tracing.max_events_per_span),
        (config.enable_tracing && config.tracing.exporter == TracingExporter::Otlp
            && config.tracing.otlp_endpoint is Some) ==> (s.plan matches Ok(p)
            && p.exporter matches ExportTarget::Otlp(x)
            && x@ == config.tracing.otlp_endpoint->0@),
        (config.enable_tracing && config.tracing.exporter == TracingExporter::NoExporter) ==> (
        s.plan matches Ok(p) && p.exporter is NoExporter),
{
    if !config.enable_tracing {
        return TracingStart {
            install_propagator: false,
            plan: Err(TelemetryError::Config("Tracing is not enabled".to_owned())),
        };
    }
    let exporter = match config.tracing.exporter {
        TracingExporter::Otlp => match &config.tracing.otlp_endpoint {
            Some(e) => ExportTarget::Otlp(e.clone()),
            None => {
                return TracingStart {
                    install_propagator: true,
                    plan: Err(TelemetryError::Config("OTLP endpoint not configured".to_owned())),
                };
            },
        },
        TracingExporter::Jaeger => {
            return TracingStart {
                install_propagator: true,
                plan: Err(
                    TelemetryError::Config(
                        "Jaeger exporter is discontinued. Use OTLP with a Jaeger collector instead. See: https://www.jaegertracing.io/docs/1.35/apis/#opentelemetry-protocol-stable".to_owned(),
                    ),
                ),
            };
        },
        TracingExporter::Zipkin => {
            return TracingStart {
                install_propagator: true,
                plan: Err(
                    TelemetryError::Config(
                        "Tracing exporter Zipkin not available (feature not enabled)".to_owned(),
                    ),
                ),
            };
        },
        TracingExporter::NoExporter => ExportTarget::NoExporter,
    };
    TracingStart {
        install_propagator: true,
        plan: Ok(
            TracingPlan {
                exporter,
                resource: config.resource_attributes(),
                max_attributes_per_span: config.tracing.max_attributes_per_span,
                max_events_per_span: config.tracing.max_events_per_span,
            },
        ),
    }
}

/// Applies the resource, sampler, random span ids and span limits to a
/// tracer provider builder, and builds the provider.
fn configured_tracer_provider(
    b: TracerProviderBuilder,
    resource: Resource,
    sampler: Sampler,
    max_attributes_per_span: u32,
    max_events_per_span: u32,
) -> (p: SdkTracerProvider)
    ensures
        tracer_provider_span_limits(p) == (max_attributes_per_span, max_events_per_span),
        tracer_provider_sampler(p) == sampler,
        tracer_builder_resource(b) is None ==> tracer_provider_resource(p) == Some(resource),
        tracer_provider_processor_count(p) == tracer_builder_processor_count(b),
{
    let b = sdk::tracer_provider_with_resource(b, resource);
    let b = sdk::tracer_provider_with_sampler(b, sampler);
    let b = sdk::tracer_provider_with_id_generator(b, sdk::random_id_generator());
    let b = sdk::tracer_provider_with_max_attributes_per_span(b, max_attributes_per_span);
    let b = sdk::tracer_provider_with_max_events_per_span(b, max_events_per_span);
    sdk::build_tracer_provider(b)
}

/// The last step of tracing setup: builds the tracer provider that `plan`
/// describes, with `sampler` deciding which traces are recorded.
/// `exporter` is the outcome of building the plan's span exporter:
/// `Ok(None)` when the plan has none. A failed build is reported as an
/// exporter error carrying the build error's message; otherwise the result
/// is the provider, which the caller installs with `install_tracer_provider`.
pub fn finish_tracing(
    plan: TracingPlan,
    sampler: Sampler,
    exporter: Result<Option<SpanExporter>, ExporterBuildError>,
) -> (r: TelemetryResult<SdkTracerProvider>)
    ensures
        r is Ok <==> exporter is Ok,
        exporter matches Err(e) ==> r matches Err(TelemetryError::Exporter(t)) && t@
            == exporter_error_message(e),
        r matches Ok(p) ==> {
            &&& tracer_provider_span_limits(p) == (
                plan.max_attributes_per_span,
                plan.max_events_per_span,
            )
            &&& tracer_provider_sampler(p) == sampler
            &&& tracer_provider_resource(p) matches Some(res) && resource_has_attrs(
                res,
                attrs_view(plan.resource@),
            )
            &&& tracer_provider_processor_count(p) == (if exporter matches Ok(Some(_)) {
                1nat
            } else {
                0nat
            })
        },
{
    let exporter = match exporter {
        Ok(exporter) => exporter,
        Err(e) => {
            return Err(TelemetryError::Exporter(sdk::exporter_build_error_text(&e)));
        },
    };
    let resource = resource_from_attributes(plan.resource);
    let b = sdk::tracer_provider_builder();
    let b = match exporter {
        Some(exporter) => sdk::tracer_provider_with_batch_exporter(b, exporter),
        None => b,
    };
    Ok(
        configured_tracer_provider(
            b,
            resource,
            sampler,
            plan.max_attributes_per_span,
            plan.max_events_per_span,
        ),
    )
}

/// Shuts the tracer provider down, flushing what it holds. A failure is
/// reported as a shutdown error carrying the SDK's message.
pub fn shutdown_tracing(provider: SdkTracerProvider) -> (r: TelemetryResult<()>)
    ensures
        r is Ok || r matches Err(TelemetryError::Shutdown(_)),
        r matches Err(TelemetryError::Shutdown(m)) ==> exists|e: opentelemetry_sdk::error::OTelSdkError|
            m@ == sdk::sdk_error_message(e),
{
    shutdown_outcome(sdk::shutdown_tracer_provider(&provider))
}

/// A tracer named `name` from the process-wide tracer provider.
pub fn get_tracer(name: &'static str) -> (t: BoxedTracer)
    ensures
        name@.len() > 0 ==> sdk::tracer_name(t) == name@,
{
    sdk::global_tracer(name.to_owned())
}

} // verus!

//! Setting up, and shutting down, the metrics pipeline, and the attributes
//! recorded with each HTTP request.

use crate::attributes::{attrs_view, retired_attribute_name, int_attribute, str_attribute, Attribute, SpecValue};
use crate::config::{
    resource_attrs, resource_has_attrs, resource_from_attributes, ExportTarget, MetricsExporter, SpecExportTarget,
    TelemetryConfig,
};
use crate::error::{shutdown_outcome, TelemetryError, TelemetryResult};
use opentelemetry_otlp::{ExporterBuildError, MetricExporter};
use crate::sdk;
use crate::sdk::{
    duration_of_secs, exporter_error_message, meter_provider_readers, meter_provider_resource,
};
use opentelemetry::metrics::Meter;
use opentelemetry_sdk::metrics::SdkMeterProvider;
use vstd::prelude::*;

verus! {

/// The message for a configuration with metrics disabled.
pub open spec fn metrics_disabled_message() -> Seq<char> {
    "Metrics are not enabled"@
}

/// The message for an OTLP metric exporter without an endpoint.
pub open spec fn metrics_endpoint_missing_message() -> Seq<char> {
    "OTLP endpoint not configured for metrics"@
}

/// The message for the discontinued Prometheus exporter.
pub open spec fn prometheus_discontinued_message() -> Seq<char> {
    "Prometheus exporter is discontinued. Use OTLP with a Prometheus remote-write endpoint or an OpenTelemetry Collector with Prometheus exporter instead."@
}

/// The configuration error that metrics setup reports for `c`, if any.
pub open spec fn metrics_config_error(c: TelemetryConfig) -> Option<Seq<char>> {
    if !c.enable_metrics {
        Some(metrics_disabled_message())
    } else {
        match c.metrics.exporter {
            MetricsExporter::Otlp => if c.metrics.otlp_endpoint is None {
                Some(metrics_endpoint_missing_message())
            } else {
                None
            },
            MetricsExporter::Prometheus => Some(prometheus_discontinued_message()),
            MetricsExporter::NoExporter => None,
        }
    }
}

/// The exporter that metrics are set up with for `c`, when `c` is valid.
pub open spec fn metrics_target(c: TelemetryConfig) -> SpecExportTarget {
    match (c.metrics.exporter, c.metrics.otlp_endpoint) {
        (MetricsExporter::Otlp, Some(e)) => SpecExportTarget::Otlp(e@),
        _ => SpecExportTarget::NoExporter,
    }
}

/// With metrics enabled, an OTLP exporter with an endpoint `e` is set up to
/// export to exactly `e`; without an exporter, none is set up; and exactly
/// these two settings are accepted, while disabled metrics, a missing OTLP
/// endpoint and the Prometheus exporter are refused.
pub proof fn law_metrics_target(c: TelemetryConfig)
    ensures
        (c.enable_metrics && c.metrics.exporter == MetricsExporter::Otlp
            && c.metrics.otlp_endpoint is Some) ==> (metrics_config_error(c) is None
            && metrics_target(c) == SpecExportTarget::Otlp(c.metrics.otlp_endpoint->0@)),
        (c.enable_metrics && c.metrics.exporter == MetricsExporter::NoExporter) ==> (metrics_config_error(c) is None
            && metrics_target(c) == SpecExportTarget::NoExporter),
        metrics_config_error(c) is None <==> (c.enable_metrics && (c.metrics.exporter
            == MetricsExporter::NoExporter || (c.metrics.exporter == MetricsExporter::Otlp
            && c.metrics.otlp_endpoint is Some))),
{
}

/// How the meter provider is to be built, as plain values.
pub struct MetricsPlan {
    /// The metric exporter to build.
    pub exporter: ExportTarget,
    /// The attributes of the provider's resource.
    pub resource: Vec<Attribute>,
    /// Seconds between two reads of the exporter (zero keeps the SDK's
    /// default).
    pub collection_interval_secs: u64,
}

/// Decides metrics setup for `config`: a configuration error exactly when
/// `metrics_config_error` gives one, otherwise the plan: the exporter for the
/// configured endpoint, the service's resource attributes and the configured
/// collection interval. Metrics setup touches no process-wide state before
/// this decision.
pub fn plan_metrics(config: &TelemetryConfig) -> (r: TelemetryResult<MetricsPlan>)
    ensures
        metrics_config_error(*config) matches Some(m) ==> r matches Err(TelemetryError::Config(e))
            && e@ == m,
        metrics_config_error(*config) is None ==> (r matches Ok(p) && p.exporter@
            == metrics_target(*config) && attrs_view(p.resource@) == resource_attrs(*config)
            && p.collection_interval_secs == config.metrics.collection_interval_secs),
        (config.enable_metrics && config.metrics.exporter == MetricsExporter::Otlp
            && config.metrics.otlp_endpoint is Some) ==> (r matches Ok(p)
            && p.exporter matches ExportTarget::Otlp(x)
            && x@ == config.metrics.otlp_endpoint->0@),
        (config.enable_metrics && config.metrics.exporter == MetricsExporter::NoExporter) ==> (
        r matches Ok(p) && p.exporter is NoExporter),
{
    if !config.enable_metrics {
        return Err(TelemetryError::Config("Metrics are not enabled".to_owned()));
    }
    let exporter = match config.metrics.exporter {
        MetricsExporter::Otlp => match &config.metrics.otlp_endpoint {
            Some(e) => ExportTarget::Otlp(e.clone()),
            None => {
                return Err(
                    TelemetryError::Config("OTLP endpoint not configured for metrics".to_owned()),
                );
            },
        },
        MetricsExporter::Prometheus => {
            return Err(
                TelemetryError::Config(
                    "Prometheus exporter is discontinued. Use OTLP with a Prometheus remote-write endpoint or an OpenTelemetry Collector with Prometheus exporter instead.".to_owned(),
                ),
            );
        },
        MetricsExporter::NoExporter => ExportTarget::NoExporter,
    };
    Ok(
        MetricsPlan {
            exporter,
            resource: config.resource_attributes(),
            collection_interval_secs: config.metrics.collection_interval_secs,
        },
    )
}

/// The last step of metrics setup: builds the meter provider that `plan`
/// describes. `exporter` is the outcome of building the plan's metric
/// exporter: `Ok(None)` when the plan has none. An exporter is read
/// periodically, every `collection_interval_secs` seconds. A failed build is
/// reported as an exporter error carrying the build error's message;
/// otherwise the result is the provider, which the caller installs with
/// `install_meter_provider`.
pub fn finish_metrics(
    plan: MetricsPlan,
    exporter: Result<Option<MetricExporter>, ExporterBuildError>,
) -> (r: TelemetryResult<SdkMeterProvider>)
    ensures
        r is Ok <==> exporter is Ok,
        exporter matches Err(e) ==> r matches Err(TelemetryError::Exporter(t)) && t@
            == exporter_error_message(e),
        r matches Ok(p) ==> {
            &&& meter_provider_resource(p) matches Some(res) && resource_has_attrs(
                res,
                attrs_view(plan.resource@),
            )
            &&& (exporter matches Ok(None)) ==> meter_provider_readers(p).len() == 0
            &&& (exporter matches Ok(Some(_))) ==> meter_provider_readers(p).len() == 1
            &&& ((exporter matches Ok(Some(_))) && plan.collection_interval_secs != 0)
                ==> meter_provider_readers(p)[0] == duration_of_secs(
                plan.collection_interval_secs,
            )
        },
{
    let exporter = match exporter {
        Ok(exporter) => exporter,
        Err(e) => {
            return Err(TelemetryError::Exporter(sdk::exporter_build_error_text(&e)));
        },
    };
    let resource = resource_from_attributes(plan.resource);
    let b = sdk::meter_provider_with_resource(sdk::meter_provider_builder(), resource);
    let b = match exporter {
        Some(exporter) => {
            let rb = sdk::periodic_reader_builder(exporter);
            let rb = sdk::periodic_reader_with_interval(
                rb,
                sdk::duration_from_secs(plan.collection_interval_secs),
            );
            sdk::meter_provider_with_reader(b, sdk::build_periodic_reader(rb))
        },
        None => b,
    };
    Ok(sdk::build_meter_provider(b))
}

/// Installs `provider` as the process-wide meter provider.
pub fn install_meter_provider(provider: &SdkMeterProvider) {
    sdk::set_meter_provider(sdk::clone_meter_provider(provider));
}

/// Shuts the meter provider down, flushing what it holds. A failure is
/// reported as a shutdown error carrying the SDK's message.
pub fn shutdown_metrics(provider: SdkMeterProvider) -> (r: TelemetryResult<()>)
    ensures
        r is Ok || r matches Err(TelemetryError::Shutdown(_)),
        r matches Err(TelemetryError::Shutdown(m)) ==> exists|e: opentelemetry_sdk::error::OTelSdkError|
            m@ == sdk::sdk_error_message(e),
{
    shutdown_outcome(sdk::shutdown_meter_provider(&provider))
}

/// A meter named `name` from the process-wide meter provider.
pub fn get_meter(name: &'static str) -> (m: Meter)
    ensures
        name@.len() > 0 ==> sdk::meter_name(m) == name@,
{
    sdk::global_meter(name)
}

/// The attributes recorded with one request: its method, its route and its
/// status code, under the stable HTTP semantic-convention names.
pub open spec fn request_metric_attrs(method: Seq<char>, route: Seq<char>, status: u16) -> Seq<
    (Seq<char>, SpecValue),
> {
    seq![
        ("http.request.method"@, SpecValue::Str(method)),
        ("http.route"@, SpecValue::Str(route)),
        ("http.response.status_code"@, SpecValue::Int(status as i64)),
    ]
}

/// Request metrics carry exactly the method, route and status, under the
/// stable names, and never a retired one.
pub proof fn law_metric_attrs_use_stable_names(method: Seq<char>, route: Seq<char>, status: u16)
    ensures
        request_metric_attrs(method, route, status).len() == 3,
        forall|i: int|
            0 <= i < 3 ==> !retired_attribute_name(
                #[trigger] request_metric_attrs(method, route, status)[i].0,
            ),
{
    reveal_strlit("http.request.method");
    reveal_strlit("http.route");
    reveal_strlit("http.response.status_code");
    reveal_strlit("http.method");
    reveal_strlit("http.target");
    reveal_strlit("http.host");
    reveal_strlit("http.scheme");
    reveal_strlit("http.user_agent");
    reveal_strlit("http.status_code");
    reveal_strlit("http.response_content_length");
    let a = request_metric_attrs(method, route, status);
    assert(a[0].0 == "http.request.method"@);
    assert(a[1].0 == "http.route"@);
    assert(a[2].0 == "http.response.status_code"@);
    assert(!retired_attribute_name(a[0].0));
    assert(!retired_attribute_name(a[1].0));
    assert(!retired_attribute_name(a[2].0));
}

/// The attributes to record a request with. `route` is meant to be a
/// low-cardinality route: a route template, or at least a path without its
/// query string.
pub fn request_metric_attributes(method: &str, route: &str, status: u16) -> (r: Vec<Attribute>)
    ensures
        attrs_view(r@) == request_metric_attrs(method@, route@, status),
        r@.len() == 3,
        attrs_view(r@)[0] == ("http.request.method"@, SpecValue::Str(method@)),
        attrs_view(r@)[1] == ("http.route"@, SpecValue::Str(route@)),
        attrs_view(r@)[2] == ("http.response.status_code"@, SpecValue::Int(status as i64)),
{
    let mut r: Vec<Attribute> = Vec::new();
    r.push(str_attribute("http.request.method", method));
    r.push(str_attribute("http.route", route));
    r.push(int_attribute("http.response.status_code", status as i64));
    assert(attrs_view(r@) =~= request_metric_attrs(method@, route@, status));
    r
}

} // verus!

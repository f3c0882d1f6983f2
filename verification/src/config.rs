//! Telemetry configuration: the service's identity, which signals are
//! enabled, and where they are exported.

use crate::attributes::{attrs_view, key_value_of, str_attribute, Attribute, SpecValue};
use crate::sdk::{key_value_key, last_with_its_key, resource_holds};
use opentelemetry_sdk::Resource;
use vstd::prelude::*;

verus! {

/// Where spans are exported.
#[derive(Debug, Clone, Copy, PartialEq, Eq, Structural)]
pub enum TracingExporter {
    /// OTLP over gRPC.
    Otlp,
    /// The discontinued Jaeger exporter.
    Jaeger,
    /// Zipkin, which this build does not include.
    Zipkin,
    /// No exporter: spans are created but not exported.
    NoExporter,
}

/// Where metrics are exported.
#[derive(Debug, Clone, Copy, PartialEq, Eq, Structural)]
pub enum MetricsExporter {
    /// OTLP over gRPC.
    Otlp,
    /// The discontinued Prometheus exporter.
    Prometheus,
    /// No exporter: metrics are aggregated but not exported.
    NoExporter,
}

/// The exporter that a pipeline is set up with.
pub enum ExportTarget {
    /// OTLP over gRPC to the given endpoint.
    Otlp(String),
    /// No exporter.
    NoExporter,
}

/// The mathematical value of an export target.
pub enum SpecExportTarget {
    Otlp(Seq<char>),
    NoExporter,
}

impl View for ExportTarget {
    type V = SpecExportTarget;

    open spec fn view(&self) -> SpecExportTarget {
        match self {
            ExportTarget::Otlp(e) => SpecExportTarget::Otlp(e@),
            ExportTarget::NoExporter => SpecExportTarget::NoExporter,
        }
    }
}

/// Tracing settings.
pub struct TracingConfig {
    pub exporter: TracingExporter,
    pub otlp_endpoint: Option<String>,
    pub zipkin_endpoint: Option<String>,
    pub max_attributes_per_span: u32,
    pub max_events_per_span: u32,
}

/// Metrics settings.
pub struct MetricsConfig {
    pub exporter: MetricsExporter,
    pub otlp_endpoint: Option<String>,
    pub collection_interval_secs: u64,
}

/// The whole telemetry configuration.
pub struct TelemetryConfig {
    pub service_name: String,
    pub service_version: Option<String>,
    pub service_namespace: Option<String>,
    pub environment: Option<String>,
    pub enable_tracing: bool,
    pub enable_metrics: bool,
    pub tracing: TracingConfig,
    pub metrics: MetricsConfig,
}

/// The view of an optional string.
pub open spec fn opt_view(o: Option<String>) -> Option<Seq<char>> {
    match o {
        Some(s) => Some(s@),
        None => None,
    }
}

/// A one-attribute list when `value` is present, else an empty list.
pub open spec fn optional_attr(key: Seq<char>, value: Option<String>) -> Seq<(Seq<char>, SpecValue)> {
    match value {
        Some(v) => seq![(key, SpecValue::Str(v@))],
        None => seq![],
    }
}

/// The resource attributes that describe the service.
pub open spec fn resource_attrs(c: TelemetryConfig) -> Seq<(Seq<char>, SpecValue)> {
    seq![("service.name"@, SpecValue::Str(c.service_name@))] + optional_attr(
        "service.version"@,
        c.service_version,
    ) + optional_attr("service.namespace"@, c.service_namespace) + optional_attr(
        "deployment.environment.name"@,
        c.environment,
    )
}

/// The resource maps each key of `attrs` to the value of its last pair.
pub open spec fn resource_has_attrs(r: Resource, attrs: Seq<(Seq<char>, SpecValue)>) -> bool {
    forall|i: int|
        0 <= i < attrs.len() && (forall|j: int| i < j < attrs.len() ==> #[trigger] attrs[j].0 != attrs[i].0)
            ==> resource_holds(r, #[trigger] key_value_of(attrs[i]))
}

/// No key occurs twice among the service's resource attributes.
pub proof fn lemma_resource_attrs_distinct(c: TelemetryConfig)
    ensures
        forall|i: int, j: int|
            0 <= i < j < resource_attrs(c).len() ==> #[trigger] resource_attrs(c)[i].0
                != #[trigger] resource_attrs(c)[j].0,
{
    reveal_strlit("service.name");
    reveal_strlit("service.version");
    reveal_strlit("service.namespace");
    reveal_strlit("deployment.environment.name");
    let a = resource_attrs(c);
    let v = optional_attr("service.version"@, c.service_version);
    let n = optional_attr("service.namespace"@, c.service_namespace);
    let e = optional_attr("deployment.environment.name"@, c.environment);
    let first = seq![("service.name"@, SpecValue::Str(c.service_name@))];
    assert(a == first + v + n + e);
    assert forall|i: int| 0 <= i < a.len() implies #[trigger] a[i].0.len() == (if i == 0 {
        12int
    } else if i < 1 + v.len() {
        15int
    } else if i < 1 + v.len() + n.len() {
        17int
    } else {
        27int
    }) by {
        if i == 0 {
        } else if i < 1 + v.len() {
            assert(a[i] == v[i - 1]);
        } else if i < 1 + v.len() + n.len() {
            assert(a[i] == n[i - 1 - v.len()]);
        } else {
            assert(a[i] == e[i - 1 - v.len() - n.len()]);
        }
    }
    assert(v.len() <= 1 && n.len() <= 1 && e.len() <= 1);
    assert forall|i: int, j: int| 0 <= i < j < a.len() implies #[trigger] a[i].0 != #[trigger] a[j].0 by {
        assert(a[i].0.len() < a[j].0.len());
    }
}

/// `attrs` gives `key` the string `v` when `value` is `Some(v)`: an entry
/// holds that pair and no entry gives the key another value; and no entry has
/// `key` when `value` is `None`.
pub open spec fn carries_attr(attrs: Seq<(Seq<char>, SpecValue)>, key: Seq<char>, value: Option<Seq<char>>) -> bool {
    match value {
        Some(v) => {
            &&& attrs.contains((key, SpecValue::Str(v)))
            &&& forall|i: int| 0 <= i < attrs.len() && #[trigger] attrs[i].0 == key ==> attrs[i].1 == SpecValue::Str(v)
        },
        None => forall|i: int| 0 <= i < attrs.len() ==> #[trigger] attrs[i].0 != key,
    }
}

/// The service's resource starts with its name, under `service.name`, and
/// gives the configured version, namespace and environment each under its own
/// key (`service.version`, `service.namespace`,
/// `deployment.environment.name`) when it is set, and no such key when it is
/// not; nothing else is in it.
pub proof fn law_resource_attrs_fields(c: TelemetryConfig)
    ensures
        resource_attrs(c).len() == 1 + (if c.service_version is Some { 1int } else { 0int }) + (
        if c.service_namespace is Some { 1int } else { 0int }) + (if c.environment is Some {
            1int
        } else {
            0int
        }),
        resource_attrs(c)[0] == ("service.name"@, SpecValue::Str(c.service_name@)),
        carries_attr(resource_attrs(c), "service.name"@, Some(c.service_name@)),
        carries_attr(resource_attrs(c), "service.version"@, opt_view(c.service_version)),
        carries_attr(resource_attrs(c), "service.namespace"@, opt_view(c.service_namespace)),
        carries_attr(resource_attrs(c), "deployment.environment.name"@, opt_view(c.environment)),
{
    reveal_strlit("service.name");
    reveal_strlit("service.version");
    reveal_strlit("service.namespace");
    reveal_strlit("deployment.environment.name");
    let a = resource_attrs(c);
    let v = optional_attr("service.version"@, c.service_version);
    let n = optional_attr("service.namespace"@, c.service_namespace);
    let e = optional_attr("deployment.environment.name"@, c.environment);
    let first = seq![("service.name"@, SpecValue::Str(c.service_name@))];
    assert(a == first + v + n + e);
    assert(v.len() <= 1 && n.len() <= 1 && e.len() <= 1);
    let kv: int = 1 + v.len() as int;
    let kn: int = 1 + v.len() as int + n.len() as int;
    assert forall|i: int| 0 <= i < a.len() implies #[trigger] a[i].0.len() == (if i == 0 {
        12int
    } else if i < kv {
        15int
    } else if i < kn {
        17int
    } else {
        27int
    }) && (i == 0 ==> a[i] == first[0]) && (0 < i < kv ==> a[i] == v[0]) && (kv <= i < kn
        ==> a[i] == n[0]) && (kn <= i ==> a[i] == e[0]) by {
        if i == 0 {
        } else if i < kv {
            assert(a[i] == v[i - 1]);
        } else if i < kn {
            assert(a[i] == n[i - kv]);
        } else {
            assert(a[i] == e[i - kn]);
        }
    }
    assert forall|i: int| 0 <= i < a.len() && #[trigger] a[i].0 == "service.name"@ implies i == 0 by {
        assert(a[i].0.len() == 12);
    }
    assert forall|i: int| 0 <= i < a.len() && #[trigger] a[i].0 == "service.version"@ implies 0 < i < kv by {
        assert(a[i].0.len() == 15);
    }
    assert forall|i: int| 0 <= i < a.len() && #[trigger] a[i].0 == "service.namespace"@ implies kv <= i < kn by {
        assert(a[i].0.len() == 17);
    }
    assert forall|i: int| 0 <= i < a.len() && #[trigger] a[i].0 == "deployment.environment.name"@ implies kn <= i by {
        assert(a[i].0.len() == 27);
    }
    assert(a[0] == first[0]);
    assert(a.contains(a[0]));
    if c.service_version is Some {
        assert(a[1] == v[0]);
        assert(a.contains(a[1]));
    }
    if c.service_namespace is Some {
        assert(a[kv] == n[0]);
        assert(a.contains(a[kv]));
    }
    if c.environment is Some {
        assert(a[kn] == e[0]);
        assert(a.contains(a[kn]));
    }
}

fn push_optional(out: &mut Vec<Attribute>, key: &str, value: &Option<String>)
    ensures
        attrs_view(final(out)@) == attrs_view(old(out)@) + optional_attr(key@, *value),
{
    match value {
        Some(v) => {
            let a = str_attribute(key, v.as_str());
            out.push(a);
            assert(attrs_view(out@) =~= attrs_view(old(out)@) + optional_attr(key@, *value));
        },
        None => {
            assert(attrs_view(out@) =~= attrs_view(old(out)@) + optional_attr(key@, *value));
        },
    }
}

impl TracingConfig {
    /// Defaults: OTLP to a local collector, the SDK's span limits.
    pub fn new() -> (c: TracingConfig)
        ensures
            c.exporter == TracingExporter::Otlp,
            opt_view(c.otlp_endpoint) == Some("http://localhost:4317"@),
            c.zipkin_endpoint is None,
            c.max_attributes_per_span == 128,
            c.max_events_per_span == 128,
    {
        TracingConfig {
            exporter: TracingExporter::Otlp,
            otlp_endpoint: Some("http://localhost:4317".to_owned()),
            zipkin_endpoint: None,
            max_attributes_per_span: 128,
            max_events_per_span: 128,
        }
    }
}

impl MetricsConfig {
    /// Defaults: OTLP to a local collector, collected every minute.
    pub fn new() -> (c: MetricsConfig)
        ensures
            c.exporter == MetricsExporter::Otlp,
            opt_view(c.otlp_endpoint) == Some("http://localhost:4317"@),
            c.collection_interval_secs == 60,
    {
        MetricsConfig {
            exporter: MetricsExporter::Otlp,
            otlp_endpoint: Some("http://localhost:4317".to_owned()),
            collection_interval_secs: 60,
        }
    }
}

impl TelemetryConfig {
    /// A configuration for `service_name` with tracing and metrics enabled
    /// and no version, namespace or environment.
    pub fn new(service_name: &str) -> (c: TelemetryConfig)
        ensures
            c.service_name@ == service_name@,
            c.service_version is None,
            c.service_namespace is None,
            c.environment is None,
            c.enable_tracing,
            c.enable_metrics,
            c.tracing.exporter == TracingExporter::Otlp,
            opt_view(c.tracing.otlp_endpoint) == Some("http://localhost:4317"@),
            c.tracing.zipkin_endpoint is None,
            c.tracing.max_attributes_per_span == 128,
            c.tracing.max_events_per_span == 128,
            c.metrics.exporter == MetricsExporter::Otlp,
            opt_view(c.metrics.otlp_endpoint) == Some("http://localhost:4317"@),
            c.metrics.collection_interval_secs == 60,
    {
        TelemetryConfig {
            service_name: service_name.to_owned(),
            service_version: None,
            service_namespace: None,
            environment: None,
            enable_tracing: true,
            enable_metrics: true,
            tracing: TracingConfig::new(),
            metrics: MetricsConfig::new(),
        }
    }

    /// Sets the service version.
    pub fn with_version(self, version: &str) -> (c: TelemetryConfig)
        ensures
            opt_view(c.service_version) == Some(version@),
            c == (TelemetryConfig { service_version: c.service_version, ..self }),
    {
        TelemetryConfig { service_version: Some(version.to_owned()), ..self }
    }

    /// Sets the service namespace.
    pub fn with_namespace(self, namespace: &str) -> (c: TelemetryConfig)
        ensures
            opt_view(c.service_namespace) == Some(namespace@),
            c == (TelemetryConfig { service_namespace: c.service_namespace, ..self }),
    {
        TelemetryConfig { service_namespace: Some(namespace.to_owned()), ..self }
    }

    /// Sets the deployment environment.
    pub fn with_environment(self, environment: &str) -> (c: TelemetryConfig)
        ensures
            opt_view(c.environment) == Some(environment@),
            c == (TelemetryConfig { environment: c.environment, ..self }),
    {
        TelemetryConfig { environment: Some(environment.to_owned()), ..self }
    }

    /// Enables or disables tracing.
    pub fn with_tracing(self, enabled: bool) -> (c: TelemetryConfig)
        ensures
            c == (TelemetryConfig { enable_tracing: enabled, ..self }),
    {
        TelemetryConfig { enable_tracing: enabled, ..self }
    }

    /// Enables or disables metrics.
    pub fn with_metrics(self, enabled: bool) -> (c: TelemetryConfig)
        ensures
            c == (TelemetryConfig { enable_metrics: enabled, ..self }),
    {
        TelemetryConfig { enable_metrics: enabled, ..self }
    }

    /// The attributes that describe the service: its name, then its version,
    /// namespace and environment where they are set.
    pub fn resource_attributes(&self) -> (r: Vec<Attribute>)
        ensures
            attrs_view(r@) == resource_attrs(*self),
            attrs_view(r@)[0] == ("service.name"@, SpecValue::Str(self.service_name@)),
            carries_attr(attrs_view(r@), "service.name"@, Some(self.service_name@)),
            carries_attr(attrs_view(r@), "service.version"@, opt_view(self.service_version)),
            carries_attr(attrs_view(r@), "service.namespace"@, opt_view(self.service_namespace)),
            carries_attr(attrs_view(r@), "deployment.environment.name"@, opt_view(self.environment)),
    {
        let mut r: Vec<Attribute> = Vec::new();
        r.push(str_attribute("service.name", self.service_name.as_str()));
        push_optional(&mut r, "service.version", &self.service_version);
        push_optional(&mut r, "service.namespace", &self.service_namespace);
        push_optional(&mut r, "deployment.environment.name", &self.environment);
        assert(attrs_view(r@) =~= resource_attrs(*self));
        proof {
            law_resource_attrs_fields(*self);
        }
        r
    }

    /// The resource that describes the service, built from
    /// `resource_attributes` on top of the SDK's default resource.
    pub fn create_resource(&self) -> (r: Resource)
        ensures
            forall|i: int|
                0 <= i < resource_attrs(*self).len() ==> resource_holds(
                    r,
                    #[trigger] key_value_of(resource_attrs(*self)[i]),
                ),
            resource_holds(r, key_value_of(("service.name"@, SpecValue::Str(self.service_name@)))),
            self.service_version is Some ==> resource_holds(
                r,
                key_value_of(("service.version"@, SpecValue::Str(self.service_version->0@))),
            ),
            self.service_namespace is Some ==> resource_holds(
                r,
                key_value_of(("service.namespace"@, SpecValue::Str(self.service_namespace->0@))),
            ),
            self.environment is Some ==> resource_holds(
                r,
                key_value_of(
                    ("deployment.environment.name"@, SpecValue::Str(self.environment->0@)),
                ),
            ),
    {
        let r = resource_from_attributes(self.resource_attributes());
        proof {
            lemma_resource_attrs_distinct(*self);
            let a = resource_attrs(*self);
            assert forall|i: int| 0 <= i < a.len() implies resource_holds(
                r,
                #[trigger] key_value_of(a[i]),
            ) by {
                assert forall|j: int| i < j < a.len() implies #[trigger] a[j].0 != a[i].0 by {}
            }
            law_resource_attrs_fields(*self);
            let pairs = seq![
                ("service.name"@, SpecValue::Str(self.service_name@)),
                ("service.version"@, SpecValue::Str(self.service_version->0@)),
                ("service.namespace"@, SpecValue::Str(self.service_namespace->0@)),
                ("deployment.environment.name"@, SpecValue::Str(self.environment->0@)),
            ];
            assert forall|k: int| 0 <= k < 4 && #[trigger] a.contains(pairs[k]) implies resource_holds(
                r,
                key_value_of(pairs[k]),
            ) by {
                let i = choose|i: int| 0 <= i < a.len() && a[i] == pairs[k];
                assert(resource_holds(r, key_value_of(a[i])));
            }
            assert(a.contains(pairs[0]));
            if self.service_version is Some {
                assert(a.contains(pairs[1]));
            }
            if self.service_namespace is Some {
                assert(a.contains(pairs[2]));
            }
            if self.environment is Some {
                assert(a.contains(pairs[3]));
            }
        }
        r
    }
}

/// A resource with the given attributes on top of the SDK's default
/// resource, whose detectors read the process's environment.
pub fn resource_from_attributes(attrs: Vec<Attribute>) -> (r: Resource)
    ensures
        resource_has_attrs(r, attrs_view(attrs@)),
{
    let ghost a = attrs_view(attrs@);
    let kvs = crate::attributes::to_key_values(attrs);
    let b = crate::sdk::resource_builder();
    let b = crate::sdk::resource_with_attributes(b, kvs);
    let r = crate::sdk::build_resource(b);
    proof {
        assert forall|i: int|
            0 <= i < a.len() && (forall|j: int| i < j < a.len() ==> #[trigger] a[j].0 != a[i].0)
            implies resource_holds(r, #[trigger] key_value_of(a[i])) by {
            assert(kvs@[i] == key_value_of(a[i]));
            assert forall|j: int| i < j < kvs@.len() implies key_value_key(#[trigger] kvs@[j])
                != key_value_key(kvs@[i]) by {
                assert(a[j].0 != a[i].0);
            }
            assert(last_with_its_key(kvs@, i));
        }
    }
    r
}

} // verus!

use armature_opentelemetry::attributes::{Attribute, AttributeValue};
use armature_opentelemetry::config::{MetricsExporter, TelemetryConfig, TracingExporter};
use armature_opentelemetry::error::TelemetryError;
use armature_opentelemetry::headers::HeaderMap;
use armature_opentelemetry::http::{HandlerError, HttpRequest, HttpResponse};
use armature_opentelemetry::config::ExportTarget;
use armature_opentelemetry::metrics::{
    finish_metrics, plan_metrics, request_metric_attributes, shutdown_metrics,
};
use armature_opentelemetry::middleware::{SpanStatus, TelemetryMiddleware};
use armature_opentelemetry::text::push_decimal;
use armature_opentelemetry::tracing_setup::{finish_tracing, plan_tracing, shutdown_tracing};
use opentelemetry_sdk::trace::Sampler;
use std::sync::Arc;

fn key_of(a: &Attribute) -> &str {
    a.key.as_str()
}

fn str_value(a: &Attribute) -> Option<&str> {
    match &a.value {
        AttributeValue::Str(s) => Some(s.as_str()),
        AttributeValue::Int(_) => None,
    }
}

fn int_value(a: &Attribute) -> Option<i64> {
    match &a.value {
        AttributeValue::Str(_) => None,
        AttributeValue::Int(i) => Some(*i),
    }
}

fn config_message(e: TelemetryError) -> String {
    match e {
        TelemetryError::Config(m) => m,
        _ => panic!("expected a configuration error"),
    }
}

#[test]
fn path_only_strips_the_query_string() {
    let a = HttpRequest::new("GET", "/search?q=alpha&page=1".to_string());
    let b = HttpRequest::new("GET", "/search?q=beta&page=9".to_string());
    assert_eq!(a.path_only(), "/search");
    assert_eq!(b.path_only(), "/search");
    let plain = HttpRequest::new("GET", "/users/42".to_string());
    assert_eq!(plain.path_only(), "/users/42");
    let only_query = HttpRequest::new("GET", "?x=1".to_string());
    assert_eq!(only_query.path_only(), "");
    let twice = HttpRequest::new("GET", "/a?b?c".to_string());
    assert_eq!(twice.path_only(), "/a");
    let again = HttpRequest::new("GET", a.path_only().to_string());
    assert_eq!(again.path_only(), a.path_only());
}

#[test]
fn begin_request_names_span_and_drops_query() {
    let mw = TelemetryMiddleware::<()>::new("test-service");
    let mut req = HttpRequest::new("GET", "/orders?id=7".to_string());
    req.headers.insert("host", "example.com".to_string());
    req.headers.insert("user-agent", "curl/8".to_string());
    let plan = mw.begin_request(&req);
    assert_eq!(plan.method, "GET");
    assert_eq!(plan.route, "/orders");
    assert_eq!(plan.span_name, "GET /orders");
    let keys: Vec<&str> = plan.attributes.iter().map(key_of).collect();
    assert_eq!(
        keys,
        vec![
            "http.request.method",
            "url.path",
            "url.scheme",
            "server.address",
            "user_agent.original"
        ]
    );
    assert_eq!(str_value(&plan.attributes[1]), Some("/orders"));
    assert_eq!(str_value(&plan.attributes[2]), Some("http"));
    assert_eq!(str_value(&plan.attributes[3]), Some("example.com"));
    assert_eq!(str_value(&plan.attributes[4]), Some("curl/8"));
}

#[test]
fn extract_attributes_without_optional_headers() {
    let mw = TelemetryMiddleware::<()>::new("svc");
    let req = HttpRequest::new("POST", "/checkout".to_string());
    let attrs = mw.extract_attributes(&req);
    assert_eq!(attrs.len(), 3);
    assert!(attrs.iter().all(|a| a.key != "http.method" && a.key != "http.target"));
}

#[test]
fn finish_request_marks_failure_statuses() {
    let mw = TelemetryMiddleware::<()>::new("svc");
    let mut res = HttpResponse::new(404);
    res.body = vec![1, 2, 3];
    let out = mw.finish_request(&Ok(res));
    match &out.status {
        SpanStatus::Error(m) => assert_eq!(m, "HTTP 404"),
        SpanStatus::Success => panic!("404 must end the span in error"),
    }
    assert!(!out.record_error);
    assert_eq!(key_of(&out.attributes[0]), "http.response.status_code");
    assert_eq!(int_value(&out.attributes[0]), Some(404));
    assert_eq!(key_of(&out.attributes[1]), "http.response.body.size");
    assert_eq!(int_value(&out.attributes[1]), Some(3));

    let ok = mw.finish_request(&Ok(HttpResponse::ok()));
    assert!(matches!(ok.status, SpanStatus::Success));

    let edge = mw.finish_request(&Ok(HttpResponse::new(399)));
    assert!(matches!(edge.status, SpanStatus::Success));
    let edge = mw.finish_request(&Ok(HttpResponse::new(400)));
    match &edge.status {
        SpanStatus::Error(m) => assert_eq!(m, "HTTP 400"),
        SpanStatus::Success => panic!("400 must end the span in error"),
    }
}

#[test]
fn finish_request_records_handler_errors() {
    let mw = TelemetryMiddleware::<()>::new("svc");
    let out = mw.finish_request(&Err(HandlerError::new("boom")));
    assert!(out.record_error);
    assert!(out.attributes.is_empty());
    match &out.status {
        SpanStatus::Error(m) => assert_eq!(m, "boom"),
        SpanStatus::Success => panic!("a handler error must end the span in error"),
    }
}

#[test]
fn with_metrics_keeps_service_name() {
    let mw = TelemetryMiddleware::new("svc").with_metrics(Arc::new(7u32));
    assert_eq!(mw.service_name(), "svc");
    assert_eq!(mw.metrics().as_deref(), Some(&7u32));
}

#[test]
fn metric_attributes_use_stable_names() {
    let attrs = request_metric_attributes("GET", "/users/42", 201);
    let keys: Vec<&str> = attrs.iter().map(key_of).collect();
    assert_eq!(keys, vec!["http.request.method", "http.route", "http.response.status_code"]);
    assert_eq!(str_value(&attrs[0]), Some("GET"));
    assert_eq!(str_value(&attrs[1]), Some("/users/42"));
    assert_eq!(int_value(&attrs[2]), Some(201));
    assert!(!keys.contains(&"http.method"));
    assert!(!keys.contains(&"http.status_code"));
}

#[test]
fn decimal_rendering() {
    let mut s = String::from("n=");
    push_decimal(&mut s, 0);
    assert_eq!(s, "n=0");
    let mut s = String::new();
    push_decimal(&mut s, 1234567890);
    assert_eq!(s, "1234567890");
    let mut s = String::new();
    push_decimal(&mut s, u64::MAX);
    assert_eq!(s, u64::MAX.to_string());
}

#[test]
fn config_builders_set_one_field_each() {
    let config = TelemetryConfig::new("my-service");
    assert_eq!(config.service_name, "my-service");
    assert!(config.enable_tracing);
    assert!(config.enable_metrics);

    let custom = TelemetryConfig::new("api-service")
        .with_version("1.0.0")
        .with_environment("production")
        .with_namespace("backend")
        .with_tracing(true)
        .with_metrics(false);
    assert_eq!(custom.service_name, "api-service");
    assert_eq!(custom.service_version, Some("1.0.0".to_string()));
    assert_eq!(custom.environment, Some("production".to_string()));
    assert_eq!(custom.service_namespace, Some("backend".to_string()));
    assert!(custom.enable_tracing);
    assert!(!custom.enable_metrics);

    let metrics_only = TelemetryConfig::new("metrics-service")
        .with_tracing(false)
        .with_metrics(true);
    assert!(!metrics_only.enable_tracing);
    assert!(metrics_only.enable_metrics);
}

#[test]
fn resource_attributes_describe_the_service() {
    let config = TelemetryConfig::new("user-api")
        .with_version("2.1.0")
        .with_environment("staging");
    let attrs = config.resource_attributes();
    let keys: Vec<&str> = attrs.iter().map(key_of).collect();
    assert_eq!(keys, vec!["service.name", "service.version", "deployment.environment.name"]);
    assert_eq!(str_value(&attrs[0]), Some("user-api"));
    assert_eq!(str_value(&attrs[1]), Some("2.1.0"));
    assert_eq!(str_value(&attrs[2]), Some("staging"));
}

fn tracing_error(config: &TelemetryConfig) -> String {
    match plan_tracing(config).plan {
        Err(e) => config_message(e),
        Ok(_) => panic!("expected a configuration error"),
    }
}

#[test]
fn plan_tracing_reports_configuration_errors() {
    let disabled = TelemetryConfig::new("svc").with_tracing(false);
    assert!(!plan_tracing(&disabled).install_propagator);
    assert_eq!(tracing_error(&disabled), "Tracing is not enabled");

    let mut jaeger = TelemetryConfig::new("svc");
    jaeger.tracing.exporter = TracingExporter::Jaeger;
    assert!(plan_tracing(&jaeger).install_propagator);
    assert!(tracing_error(&jaeger).starts_with("Jaeger exporter is discontinued."));

    let mut zipkin = TelemetryConfig::new("svc");
    zipkin.tracing.exporter = TracingExporter::Zipkin;
    assert_eq!(
        tracing_error(&zipkin),
        "Tracing exporter Zipkin not available (feature not enabled)"
    );

    let mut no_endpoint = TelemetryConfig::new("svc");
    no_endpoint.tracing.otlp_endpoint = None;
    assert_eq!(tracing_error(&no_endpoint), "OTLP endpoint not configured");
}

#[test]
fn plan_tracing_carries_the_configuration() {
    let mut config = TelemetryConfig::new("svc").with_version("1.2");
    config.tracing.otlp_endpoint = Some("http://collector:4317".to_string());
    config.tracing.max_attributes_per_span = 7;
    config.tracing.max_events_per_span = 9;
    let start = plan_tracing(&config);
    assert!(start.install_propagator);
    let plan = start.plan.ok().unwrap();
    assert!(matches!(&plan.exporter, ExportTarget::Otlp(e) if e == "http://collector:4317"));
    assert_eq!(plan.max_attributes_per_span, 7);
    assert_eq!(plan.max_events_per_span, 9);
    let keys: Vec<&str> = plan.resource.iter().map(key_of).collect();
    assert_eq!(keys, vec!["service.name", "service.version"]);
}

#[test]
fn tracing_shuts_down_once() {
    let mut config = TelemetryConfig::new("svc");
    config.tracing.exporter = TracingExporter::NoExporter;
    let plan = plan_tracing(&config).plan.ok().unwrap();
    assert!(matches!(plan.exporter, ExportTarget::NoExporter));
    let provider = finish_tracing(plan, Sampler::AlwaysOff, Ok(None)).ok().unwrap();
    let again = provider.clone();
    assert!(shutdown_tracing(provider).is_ok());
    match shutdown_tracing(again) {
        Err(TelemetryError::Shutdown(m)) => assert_eq!(m, "Shutdown already invoked"),
        _ => panic!("a second shutdown must report a shutdown error"),
    }
}

#[test]
fn finish_tracing_reports_exporter_build_failures() {
    let config = TelemetryConfig::new("svc");
    let plan = plan_tracing(&config).plan.ok().unwrap();
    let failed = opentelemetry_otlp::ExporterBuildError::InternalFailure("no channel".to_string());
    match finish_tracing(plan, Sampler::AlwaysOn, Err(failed)) {
        Err(TelemetryError::Exporter(m)) => {
            assert_eq!(m, "exporter initialization failed: no channel")
        }
        _ => panic!("a failed exporter build must be an exporter error"),
    }
}

fn metrics_error(config: &TelemetryConfig) -> String {
    match plan_metrics(config) {
        Err(e) => config_message(e),
        Ok(_) => panic!("expected a configuration error"),
    }
}

#[test]
fn plan_metrics_reports_configuration_errors() {
    let disabled = TelemetryConfig::new("svc").with_metrics(false);
    assert_eq!(metrics_error(&disabled), "Metrics are not enabled");

    let mut prometheus = TelemetryConfig::new("svc");
    prometheus.metrics.exporter = MetricsExporter::Prometheus;
    assert!(metrics_error(&prometheus).starts_with("Prometheus exporter is discontinued."));

    let mut no_endpoint = TelemetryConfig::new("svc");
    no_endpoint.metrics.otlp_endpoint = None;
    assert_eq!(metrics_error(&no_endpoint), "OTLP endpoint not configured for metrics");

    let mut none = TelemetryConfig::new("svc");
    none.metrics.exporter = MetricsExporter::NoExporter;
    none.metrics.collection_interval_secs = 5;
    let plan = plan_metrics(&none).ok().unwrap();
    assert!(matches!(plan.exporter, ExportTarget::NoExporter));
    assert_eq!(plan.collection_interval_secs, 5);
    let provider = finish_metrics(plan, Ok(None)).ok().unwrap();
    assert!(shutdown_metrics(provider).is_ok());
}

#[test]
fn error_messages_and_conversions() {
    let e = TelemetryError::from("boom".to_string());
    assert_eq!(e.message(), "Telemetry error: boom");
    let e = TelemetryError::from("bang");
    assert!(matches!(&e, TelemetryError::Other(s) if s == "bang"));
    assert_eq!(
        TelemetryError::Config("x".to_string()).message(),
        "Configuration error: x"
    );
    assert_eq!(
        TelemetryError::Shutdown("y".to_string()).message(),
        "Shutdown error: y"
    );
    let t = TelemetryError::from(opentelemetry_sdk::error::OTelSdkError::AlreadyShutdown);
    assert_eq!(t.message(), "Trace error: Shutdown already invoked");
}

#[test]
fn header_map_keeps_first_insertion_order() {
    let mut headers = HeaderMap::new();
    assert_eq!(headers.insert("a", "1".to_string()), None);
    assert_eq!(headers.insert("b", "2".to_string()), None);
    assert_eq!(headers.insert("a", "3".to_string()), Some("1".to_string()));
    assert_eq!(headers.keys(), vec!["a", "b"]);
    assert_eq!(headers.get("a"), Some("3"));
    assert!(headers.contains_key("b"));
    assert!(!headers.contains_key("c"));
}

#[test]
fn end_request_balances_the_in_flight_count() {
    let plain = TelemetryMiddleware::<u32>::new("svc");
    let req = HttpRequest::new("GET", "/a?b=1".to_string());
    let plan = plain.begin_request(&req);
    assert!(!plan.track_active);
    let end = TelemetryMiddleware::<u32>::end_request(&plan, &Ok(HttpResponse::ok()));
    assert!(!end.decrement_active);
    assert!(end.record.is_none());

    let metered = TelemetryMiddleware::new("svc").with_metrics(Arc::new(0u32));
    let plan = metered.begin_request(&req);
    assert!(plan.track_active);
    let end = TelemetryMiddleware::<u32>::end_request(&plan, &Err(HandlerError::new("x")));
    assert!(end.decrement_active);
    assert_eq!(end.record, Some(("GET".to_string(), "/a".to_string(), 500)));
}

#[test]
fn create_resource_holds_the_service_attributes() {
    let config = TelemetryConfig::new("user-api")
        .with_version("2.1.0")
        .with_environment("staging");
    let resource = config.create_resource();
    let get = |k: &'static str| resource.get(&opentelemetry::Key::from_static_str(k));
    assert_eq!(get("service.name"), Some(opentelemetry::Value::from("user-api")));
    assert_eq!(get("service.version"), Some(opentelemetry::Value::from("2.1.0")));
    assert_eq!(
        get("deployment.environment.name"),
        Some(opentelemetry::Value::from("staging"))
    );
    assert_eq!(get("service.namespace"), None);
}

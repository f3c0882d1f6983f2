use armature_opentelemetry::config::{TelemetryConfig, TracingExporter};
use armature_opentelemetry::tracing_setup::{
    finish_tracing, install_propagator, install_tracer_provider, plan_tracing,
};
use opentelemetry::global;
use opentelemetry::propagation::Extractor;
use opentelemetry::trace::TraceContextExt;
use opentelemetry_sdk::trace::Sampler;
use std::collections::HashMap;

struct MapExtractor(HashMap<String, String>);

impl Extractor for MapExtractor {
    fn get(&self, key: &str) -> Option<&str> {
        self.0.get(key).map(|s| s.as_str())
    }
    fn keys(&self) -> Vec<&str> {
        self.0.keys().map(|k| k.as_str()).collect()
    }
}

#[test]
fn init_tracing_installs_w3c_propagator_that_parses_traceparent() {
    let mut config = TelemetryConfig::new("propagation-test");
    config.tracing.exporter = TracingExporter::NoExporter;
    config.enable_metrics = false;
    let start = plan_tracing(&config);
    assert!(start.install_propagator);
    install_propagator();
    let plan = match start.plan {
        Ok(p) => p,
        Err(_) => panic!("init_tracing should succeed"),
    };
    let _provider = match finish_tracing(plan, Sampler::AlwaysOn, Ok(None)) {
        Ok(p) => p,
        Err(_) => panic!("init_tracing should succeed"),
    };
    install_tracer_provider(&_provider);

    let mut headers = HashMap::new();
    headers.insert(
        "traceparent".to_string(),
        "00-0af7651916cd43dd8448eb211c80319c-b7ad6b7169203331-01".to_string(),
    );

    let extractor = MapExtractor(headers);
    let cx = global::get_text_map_propagator(|p| p.extract(&extractor));
    let span_ctx = cx.span().span_context().clone();

    assert!(
        span_ctx.is_valid(),
        "propagator did not parse the traceparent header into a valid parent context"
    );
    assert_eq!(
        span_ctx.trace_id().to_string(),
        "0af7651916cd43dd8448eb211c80319c",
        "parsed trace id did not match the inbound traceparent"
    );
}

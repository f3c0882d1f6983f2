# armature_opentelemetry

OpenTelemetry integration for HTTP services, written in Verus.

`src/` is the verified library:

- `headers` — header maps, and the injector and extractor through which
  trace context is written and read;
- `http` — the request, response and handler failure as telemetry sees them,
  and the query-less path of a request target;
- `middleware` — the middleware's decisions: span name and attributes, the
  status a span ends with, and what is recorded per request;
- `metrics`, `tracing_setup` — setting the metric and trace pipelines up from
  a `config::TelemetryConfig` in steps: a plan of plain values (exporter
  endpoint, resource attributes, span limits or collection interval, whether
  the propagator is installed), then the provider built from the plan and
  the outcome of the exporter build; and shutting the pipelines down;
- `error`, `attributes`, `text` — errors, attributes, decimal rendering;
- `sdk` — the outside OpenTelemetry types and the trusted wrappers around the
  outside functions the library calls.

`app/` runs what cannot be verified: the async request loop and setup
sequence, the OTLP exporter builds (they need the Tokio runtime), the metric
instruments (they record floating-point durations), the sampler chosen from a
floating-point ratio, error `Display`, and span helper macros.

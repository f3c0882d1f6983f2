//! The boundary with the OpenTelemetry crates: the outside types that the
//! library carries, and one small trusted wrapper per outside function that
//! it calls. Every value of these types is opaque here; the wrappers state
//! nothing of a result that the outside source leaves to the process's
//! environment or to global state.

use opentelemetry::global::BoxedTracer;
use opentelemetry::metrics::Meter;
use opentelemetry::KeyValue;
use opentelemetry_otlp::{ExporterBuildError, MetricExporter, SpanExporter};
use opentelemetry_sdk::error::OTelSdkError;
use opentelemetry_sdk::metrics::{
    MeterProviderBuilder, PeriodicReader, PeriodicReaderBuilder, SdkMeterProvider,
};
use opentelemetry_sdk::propagation::TraceContextPropagator;
use opentelemetry_sdk::resource::ResourceBuilder;
use opentelemetry_sdk::trace::{RandomIdGenerator, Sampler, SdkTracerProvider, TracerProviderBuilder};
use opentelemetry_sdk::Resource;
use std::time::Duration;
use vstd::prelude::*;

verus! {

#[verifier::external_type_specification]
#[verifier::external_body]
pub struct ExBoxedTracer(BoxedTracer);

#[verifier::external_type_specification]
#[verifier::external_body]
pub struct ExMeter(Meter);

#[verifier::external_type_specification]
#[verifier::external_body]
pub struct ExKeyValue(KeyValue);

#[verifier::external_type_specification]
#[verifier::external_body]
pub struct ExResource(Resource);

#[verifier::external_type_specification]
#[verifier::external_body]
pub struct ExResourceBuilder(ResourceBuilder);

#[verifier::external_type_specification]
#[verifier::external_body]
pub struct ExOTelSdkError(OTelSdkError);

#[verifier::external_type_specification]
#[verifier::external_body]
pub struct ExExporterBuildError(ExporterBuildError);

#[verifier::external_type_specification]
#[verifier::external_body]
pub struct ExTraceContextPropagator(TraceContextPropagator);

#[verifier::external_type_specification]
#[verifier::external_body]
pub struct ExSampler(Sampler);

#[verifier::external_type_specification]
#[verifier::external_body]
pub struct ExRandomIdGenerator(RandomIdGenerator);

#[verifier::external_type_specification]
#[verifier::external_body]
pub struct ExTracerProviderBuilder(TracerProviderBuilder);

#[verifier::external_type_specification]
#[verifier::external_body]
pub struct ExSdkTracerProvider(SdkTracerProvider);

#[verifier::external_type_specification]
#[verifier::external_body]
pub struct ExSpanExporter(SpanExporter);

#[verifier::external_type_specification]
#[verifier::external_body]
pub struct ExMetricExporter(MetricExporter);

#[verifier::external_type_specification]
#[verifier::external_body]
#[verifier::reject_recursive_types(E)]
pub struct ExPeriodicReaderBuilder<E>(PeriodicReaderBuilder<E>);

/// A periodic metric reader over the OTLP metric exporter.
///
/// `PeriodicReader` bounds its parameter by an outside trait, and Verus
/// refuses a declaration of it; the reader is held here, opaque, instead.
#[verifier::external_body]
pub struct MetricReader {
    reader: PeriodicReader<MetricExporter>,
}

#[verifier::external_type_specification]
#[verifier::external_body]
pub struct ExMeterProviderBuilder(MeterProviderBuilder);

#[verifier::external_type_specification]
#[verifier::external_body]
pub struct ExSdkMeterProvider(SdkMeterProvider);

// ---------------------------------------------------------------- global state
/// The name a tracer was requested under from its provider.
pub uninterp spec fn tracer_name(t: BoxedTracer) -> Seq<char>;

/// The name a meter was requested under from its provider.
pub uninterp spec fn meter_name(m: Meter) -> Seq<char>;

/// Calls `opentelemetry::global::tracer`: a tracer named `name` from the
/// globally installed tracer provider (an empty name makes the provider use
/// a default one). Which provider that is depends on global state, which is
/// not stated.
#[verifier::external_body]
pub(crate) fn global_tracer(name: String) -> (t: BoxedTracer)
    ensures
        name@.len() > 0 ==> tracer_name(t) == name@,
{
    opentelemetry::global::tracer(name)
}

/// Calls `opentelemetry::global::meter`: a meter named `name` from the
/// globally installed meter provider. Which provider that is depends on
/// global state, which is not stated.
#[verifier::external_body]
pub(crate) fn global_meter(name: &'static str) -> (m: Meter)
    ensures
        name@.len() > 0 ==> meter_name(m) == name@,
{
    opentelemetry::global::meter(name)
}

/// Calls `opentelemetry::global::set_text_map_propagator`, which replaces
/// the process-wide propagator.
#[verifier::external_body]
pub(crate) fn set_text_map_propagator(propagator: TraceContextPropagator) {
    opentelemetry::global::set_text_map_propagator(propagator)
}

/// Calls `opentelemetry::global::set_tracer_provider`, which replaces the
/// process-wide tracer provider.
#[verifier::external_body]
pub(crate) fn set_tracer_provider(provider: SdkTracerProvider) {
    opentelemetry::global::set_tracer_provider(provider);
}

/// Calls `opentelemetry::global::set_meter_provider`, which replaces the
/// process-wide meter provider.
#[verifier::external_body]
pub(crate) fn set_meter_provider(provider: SdkMeterProvider) {
    opentelemetry::global::set_meter_provider(provider)
}

// ---------------------------------------------------------------- attributes
/// What `opentelemetry::KeyValue::new` gives for a key and a string value.
pub uninterp spec fn string_key_value(key: Seq<char>, value: Seq<char>) -> KeyValue;

/// What `opentelemetry::KeyValue::new` gives for a key and an integer value.
pub uninterp spec fn i64_key_value(key: Seq<char>, value: i64) -> KeyValue;

/// The text of a key-value pair's key.
pub uninterp spec fn key_value_key(kv: KeyValue) -> Seq<char>;

/// Calls `opentelemetry::KeyValue::new` with a string value. The pair is a
/// function of the key's and the value's text alone, and its key is `key`.
#[verifier::external_body]
pub(crate) fn key_value_str(key: String, value: String) -> (kv: KeyValue)
    ensures
        kv == string_key_value(key@, value@),
        key_value_key(kv) == key@,
{
    KeyValue::new(key, value)
}

/// Calls `opentelemetry::KeyValue::new` with an integer value. The pair is a
/// function of the key's text and the value alone, and its key is `key`.
#[verifier::external_body]
pub(crate) fn key_value_i64(key: String, value: i64) -> (kv: KeyValue)
    ensures
        kv == i64_key_value(key@, value),
        key_value_key(kv) == key@,
{
    KeyValue::new(key, value)
}

// ---------------------------------------------------------------- resources
/// Whether the resource being built maps the pair's key to the pair's value.
pub uninterp spec fn resource_builder_holds(b: ResourceBuilder, kv: KeyValue) -> bool;

/// Whether the resource maps the pair's key to the pair's value.
pub uninterp spec fn resource_holds(r: Resource, kv: KeyValue) -> bool;

/// No pair after position `i` of `kvs` has the key of the pair at `i`.
pub open spec fn last_with_its_key(kvs: Seq<KeyValue>, i: int) -> bool {
    forall|j: int| i < j < kvs.len() ==> key_value_key(#[trigger] kvs[j]) != key_value_key(kvs[i])
}

/// Calls `opentelemetry_sdk::Resource::builder`, which starts from the
/// SDK's default detectors (they read the process's environment), so
/// nothing is stated of what it holds.
#[verifier::external_body]
pub(crate) fn resource_builder() -> (b: ResourceBuilder) {
    Resource::builder()
}

/// Calls `ResourceBuilder::with_attributes`, which merges the pairs into the
/// resource being built, each pair overriding an earlier value of its key:
/// every pair that is the last with its key is held afterwards.
#[verifier::external_body]
pub(crate) fn resource_with_attributes(b: ResourceBuilder, kvs: Vec<KeyValue>) -> (r:
    ResourceBuilder)
    ensures
        forall|i: int|
            0 <= i < kvs@.len() && last_with_its_key(kvs@, i) ==> resource_builder_holds(
                r,
                #[trigger] kvs@[i],
            ),
{
    b.with_attributes(kvs)
}

/// Calls `ResourceBuilder::build`, which hands over the resource built.
#[verifier::external_body]
pub(crate) fn build_resource(b: ResourceBuilder) -> (r: Resource)
    ensures
        forall|kv: KeyValue| resource_builder_holds(b, kv) ==> #[trigger] resource_holds(r, kv),
{
    b.build()
}

// ---------------------------------------------------------------- errors
/// The text that `Display` renders for an exporter build error.
pub uninterp spec fn exporter_error_message(e: ExporterBuildError) -> Seq<char>;

/// The text that `Display` renders for an SDK error.
pub uninterp spec fn sdk_error_message(e: OTelSdkError) -> Seq<char>;

/// Calls `ToString::to_string` on an `ExporterBuildError`: its `Display`
/// text, a function of the error alone.
#[verifier::external_body]
pub(crate) fn exporter_build_error_text(e: &ExporterBuildError) -> (s: String)
    ensures
        s@ == exporter_error_message(*e),
{
    e.to_string()
}

/// Calls `ToString::to_string` on an `OTelSdkError`: its `Display` text, a
/// function of the error alone.
#[verifier::external_body]
pub(crate) fn sdk_error_text(e: &OTelSdkError) -> (s: String)
    ensures
        s@ == sdk_error_message(*e),
{
    e.to_string()
}

// ---------------------------------------------------------------- propagation
/// Calls `TraceContextPropagator::new`: the W3C Trace Context propagator.
#[verifier::external_body]
pub(crate) fn trace_context_propagator() -> (p: TraceContextPropagator) {
    TraceContextPropagator::new()
}

// ---------------------------------------------------------------- tracing
/// The span limits a tracer provider builder holds: the most attributes,
/// then the most events, per span.
pub uninterp spec fn tracer_builder_span_limits(b: TracerProviderBuilder) -> (u32, u32);

/// The resource a tracer provider builder holds, if one was given.
pub uninterp spec fn tracer_builder_resource(b: TracerProviderBuilder) -> Option<Resource>;

/// The sampler a tracer provider builder holds.
pub uninterp spec fn tracer_builder_sampler(b: TracerProviderBuilder) -> Sampler;

/// The number of span processors a tracer provider builder holds.
pub uninterp spec fn tracer_builder_processor_count(b: TracerProviderBuilder) -> nat;

/// The span limits of a tracer provider: the most attributes, then the
/// most events, per span.
pub uninterp spec fn tracer_provider_span_limits(p: SdkTracerProvider) -> (u32, u32);

/// The resource a tracer provider was built with, if one was given (it
/// falls back on the SDK's default otherwise).
pub uninterp spec fn tracer_provider_resource(p: SdkTracerProvider) -> Option<Resource>;

/// The sampler of a tracer provider.
pub uninterp spec fn tracer_provider_sampler(p: SdkTracerProvider) -> Sampler;

/// The number of span processors of a tracer provider.
pub uninterp spec fn tracer_provider_processor_count(p: SdkTracerProvider) -> nat;

/// Calls `SdkTracerProvider::builder`: a builder with no span processor and
/// no resource. Its span limits and sampler are the SDK's defaults, read in
/// part from the environment, so they are not stated.
#[verifier::external_body]
pub(crate) fn tracer_provider_builder() -> (b: TracerProviderBuilder)
    ensures
        tracer_builder_processor_count(b) == 0,
        tracer_builder_resource(b) is None,
{
    SdkTracerProvider::builder()
}

/// Calls `TracerProviderBuilder::with_batch_exporter`, which adds one batch
/// span processor over the exporter and changes nothing else. The batch
/// processor spawns a thread and panics if the thread cannot be spawned;
/// that condition of the machine is not stated here.
#[verifier::external_body]
pub(crate) fn tracer_provider_with_batch_exporter(
    b: TracerProviderBuilder,
    exporter: SpanExporter,
) -> (r: TracerProviderBuilder)
    ensures
        tracer_builder_processor_count(r) == tracer_builder_processor_count(b) + 1,
        tracer_builder_span_limits(r) == tracer_builder_span_limits(b),
        tracer_builder_resource(r) == tracer_builder_resource(b),
        tracer_builder_sampler(r) == tracer_builder_sampler(b),
{
    b.with_batch_exporter(exporter)
}

/// Calls `TracerProviderBuilder::with_resource`, which sets the resource
/// (merging it into one given before, a case not stated here) and changes
/// nothing else.
#[verifier::external_body]
pub(crate) fn tracer_provider_with_resource(b: TracerProviderBuilder, resource: Resource) -> (r:
    TracerProviderBuilder)
    ensures
        tracer_builder_resource(b) is None ==> tracer_builder_resource(r) == Some(resource),
        tracer_builder_processor_count(r) == tracer_builder_processor_count(b),
        tracer_builder_span_limits(r) == tracer_builder_span_limits(b),
        tracer_builder_sampler(r) == tracer_builder_sampler(b),
{
    b.with_resource(resource)
}

/// Calls `TracerProviderBuilder::with_sampler`, which sets the sampler and
/// changes nothing else.
#[verifier::external_body]
pub(crate) fn tracer_provider_with_sampler(b: TracerProviderBuilder, sampler: Sampler) -> (r:
    TracerProviderBuilder)
    ensures
        tracer_builder_sampler(r) == sampler,
        tracer_builder_processor_count(r) == tracer_builder_processor_count(b),
        tracer_builder_span_limits(r) == tracer_builder_span_limits(b),
        tracer_builder_resource(r) == tracer_builder_resource(b),
{
    b.with_sampler(sampler)
}

/// Calls `RandomIdGenerator::default`.
#[verifier::external_body]
pub(crate) fn random_id_generator() -> (g: RandomIdGenerator) {
    RandomIdGenerator::default()
}

/// Calls `TracerProviderBuilder::with_id_generator`, which sets the id
/// generator and changes nothing else.
#[verifier::external_body]
pub(crate) fn tracer_provider_with_id_generator(
    b: TracerProviderBuilder,
    generator: RandomIdGenerator,
) -> (r: TracerProviderBuilder)
    ensures
        tracer_builder_processor_count(r) == tracer_builder_processor_count(b),
        tracer_builder_span_limits(r) == tracer_builder_span_limits(b),
        tracer_builder_resource(r) == tracer_builder_resource(b),
        tracer_builder_sampler(r) == tracer_builder_sampler(b),
{
    b.with_id_generator(generator)
}

/// Calls `TracerProviderBuilder::with_max_attributes_per_span`, which sets
/// that limit and changes nothing else.
#[verifier::external_body]
pub(crate) fn tracer_provider_with_max_attributes_per_span(
    b: TracerProviderBuilder,
    max: u32,
) -> (r: TracerProviderBuilder)
    ensures
        tracer_builder_span_limits(r) == (max, tracer_builder_span_limits(b).1),
        tracer_builder_processor_count(r) == tracer_builder_processor_count(b),
        tracer_builder_resource(r) == tracer_builder_resource(b),
        tracer_builder_sampler(r) == tracer_builder_sampler(b),
{
    b.with_max_attributes_per_span(max)
}

/// Calls `TracerProviderBuilder::with_max_events_per_span`, which sets that
/// limit and changes nothing else.
#[verifier::external_body]
pub(crate) fn tracer_provider_with_max_events_per_span(
    b: TracerProviderBuilder,
    max: u32,
) -> (r: TracerProviderBuilder)
    ensures
        tracer_builder_span_limits(r) == (tracer_builder_span_limits(b).0, max),
        tracer_builder_processor_count(r) == tracer_builder_processor_count(b),
        tracer_builder_resource(r) == tracer_builder_resource(b),
        tracer_builder_sampler(r) == tracer_builder_sampler(b),
{
    b.with_max_events_per_span(max)
}

/// Calls `TracerProviderBuilder::build`: a provider with the builder's span
/// limits, sampler, resource and span processors.
#[verifier::external_body]
pub(crate) fn build_tracer_provider(b: TracerProviderBuilder) -> (p: SdkTracerProvider)
    ensures
        tracer_provider_span_limits(p) == tracer_builder_span_limits(b),
        tracer_provider_sampler(p) == tracer_builder_sampler(b),
        tracer_provider_resource(p) == tracer_builder_resource(b),
        tracer_provider_processor_count(p) == tracer_builder_processor_count(b),
{
    b.build()
}

/// Calls `Clone::clone` on an `SdkTracerProvider`: a second handle on the
/// same shared provider.
#[verifier::external_body]
pub(crate) fn clone_tracer_provider(p: &SdkTracerProvider) -> (c: SdkTracerProvider) {
    p.clone()
}

/// Calls `SdkTracerProvider::shutdown`. Whether it fails depends on the
/// provider's history (an earlier shutdown) and on its exporters, so
/// nothing is stated of the outcome.
#[verifier::external_body]
pub(crate) fn shutdown_tracer_provider(p: &SdkTracerProvider) -> (r: Result<(), OTelSdkError>) {
    p.shutdown()
}

// ---------------------------------------------------------------- metrics
/// What `std::time::Duration::from_secs` gives for a number of seconds.
pub uninterp spec fn duration_of_secs(secs: u64) -> Duration;

/// The interval a periodic reader builder holds.
pub uninterp spec fn reader_builder_interval(b: PeriodicReaderBuilder<MetricExporter>) -> Duration;

/// The interval of a periodic metric reader.
pub uninterp spec fn metric_reader_interval(r: MetricReader) -> Duration;

/// The resource a meter provider builder holds, if one was given.
pub uninterp spec fn meter_builder_resource(b: MeterProviderBuilder) -> Option<Resource>;

/// The intervals of the periodic readers a meter provider builder holds, in
/// order.
pub uninterp spec fn meter_builder_readers(b: MeterProviderBuilder) -> Seq<Duration>;

/// The resource a meter provider was built with, if one was given (it falls
/// back on the SDK's default otherwise).
pub uninterp spec fn meter_provider_resource(p: SdkMeterProvider) -> Option<Resource>;

/// The intervals of the periodic readers of a meter provider, in order.
pub uninterp spec fn meter_provider_readers(p: SdkMeterProvider) -> Seq<Duration>;

/// Calls `std::time::Duration::from_secs`: a function of `secs`, zero
/// exactly when `secs` is.
#[verifier::external_body]
pub(crate) fn duration_from_secs(secs: u64) -> (d: Duration)
    ensures
        d == duration_of_secs(secs),
        secs != 0 ==> d != duration_of_secs(0),
{
    Duration::from_secs(secs)
}

/// Calls `PeriodicReader::builder` on an OTLP metric exporter. Its interval
/// is read from the environment or defaults to a minute, so it is not
/// stated.
#[verifier::external_body]
pub(crate) fn periodic_reader_builder(exporter: MetricExporter) -> (b: PeriodicReaderBuilder<
    MetricExporter,
>) {
    PeriodicReader::builder(exporter)
}

/// Calls `PeriodicReaderBuilder::with_interval`, which sets the interval
/// unless it is zero, in which case the builder keeps the one it has.
#[verifier::external_body]
pub(crate) fn periodic_reader_with_interval(
    b: PeriodicReaderBuilder<MetricExporter>,
    interval: Duration,
) -> (r: PeriodicReaderBuilder<MetricExporter>)
    ensures
        interval != duration_of_secs(0) ==> reader_builder_interval(r) == interval,
        interval == duration_of_secs(0) ==> reader_builder_interval(r) == reader_builder_interval(
            b,
        ),
{
    b.with_interval(interval)
}

/// Calls `PeriodicReaderBuilder::build`: a reader reading at the builder's
/// interval. The reader spawns a thread; its failure is not stated here.
#[verifier::external_body]
pub(crate) fn build_periodic_reader(b: PeriodicReaderBuilder<MetricExporter>) -> (r:
    MetricReader)
    ensures
        metric_reader_interval(r) == reader_builder_interval(b),
{
    MetricReader { reader: b.build() }
}

/// Calls `SdkMeterProvider::builder`: a builder with no reader and no
/// resource.
#[verifier::external_body]
pub(crate) fn meter_provider_builder() -> (b: MeterProviderBuilder)
    ensures
        meter_builder_resource(b) is None,
        meter_builder_readers(b) == Seq::<Duration>::empty(),
{
    SdkMeterProvider::builder()
}

/// Calls `MeterProviderBuilder::with_resource`, which sets the resource
/// (merging it into one given before, a case not stated here) and keeps
/// the readers.
#[verifier::external_body]
pub(crate) fn meter_provider_with_resource(b: MeterProviderBuilder, resource: Resource) -> (r:
    MeterProviderBuilder)
    ensures
        meter_builder_resource(b) is None ==> meter_builder_resource(r) == Some(resource),
        meter_builder_readers(r) == meter_builder_readers(b),
{
    b.with_resource(resource)
}

/// Calls `MeterProviderBuilder::with_reader`, which appends the reader and
/// keeps the resource.
#[verifier::external_body]
pub(crate) fn meter_provider_with_reader(b: MeterProviderBuilder, reader: MetricReader) -> (r:
    MeterProviderBuilder)
    ensures
        meter_builder_readers(r) == meter_builder_readers(b).push(metric_reader_interval(reader)),
        meter_builder_resource(r) == meter_builder_resource(b),
{
    b.with_reader(reader.reader)
}

/// Calls `MeterProviderBuilder::build`: a provider with the builder's
/// resource and readers.
#[verifier::external_body]
pub(crate) fn build_meter_provider(b: MeterProviderBuilder) -> (p: SdkMeterProvider)
    ensures
        meter_provider_resource(p) == meter_builder_resource(b),
        meter_provider_readers(p) == meter_builder_readers(b),
{
    b.build()
}

/// Calls `Clone::clone` on an `SdkMeterProvider`: a second handle on the
/// same shared provider.
#[verifier::external_body]
pub(crate) fn clone_meter_provider(p: &SdkMeterProvider) -> (c: SdkMeterProvider) {
    p.clone()
}

/// Calls `SdkMeterProvider::shutdown`. Nothing is stated of the outcome.
#[verifier::external_body]
pub(crate) fn shutdown_meter_provider(p: &SdkMeterProvider) -> (r: Result<(), OTelSdkError>) {
    p.shutdown()
}

} // verus!

use armature_opentelemetry::headers::{HeaderExtractor, HeaderInjector, HeaderMap};
use armature_opentelemetry::http::{HandlerError, HttpResponse};
use armature_opentelemetry::middleware::TelemetryMiddleware;

#[test]
fn test_telemetry_middleware_creation() {
    let middleware = TelemetryMiddleware::<()>::new("test-service");
    assert_eq!(middleware.service_name(), "test-service");
    assert!(middleware.metrics().is_none());
}

#[test]
fn recording_uses_real_request_dimensions_not_literals() {
    let res: Result<HttpResponse, HandlerError> = Ok(HttpResponse::new(201));
    let (method, route, status) = TelemetryMiddleware::<()>::recording("GET", "/users/42", &res);

    assert_eq!(method, "GET");
    assert_eq!(route, "/users/42");
    assert_eq!(status, 201);
    assert_ne!(method, "method");
    assert_ne!(route, "path");
}

#[test]
fn recording_counts_error_path_requests() {
    let res: Result<HttpResponse, HandlerError> = Err(HandlerError::new("boom"));
    let (method, route, status) = TelemetryMiddleware::<()>::recording("POST", "/checkout", &res);

    assert_eq!(method, "POST");
    assert_eq!(route, "/checkout");
    assert_eq!(status, 500);
}

#[test]
fn test_header_extractor() {
    let mut headers = HeaderMap::new();
    headers.insert("traceparent", "00-123-456-01".to_string());

    let extractor = HeaderExtractor(&headers);
    assert_eq!(extractor.get("traceparent"), Some("00-123-456-01"));
    assert_eq!(extractor.get("non-existent"), None);

    let keys = extractor.keys();
    assert_eq!(keys.len(), 1);
    assert_eq!(keys[0], "traceparent");
}

#[test]
fn test_header_injector() {
    let mut headers = HeaderMap::new();
    let mut injector = HeaderInjector(&mut headers);

    injector.set("traceparent", "00-789-012-01".to_string());

    assert_eq!(headers.get("traceparent"), Some("00-789-012-01"));
}

#[test]
fn test_header_extractor_multiple_keys() {
    let mut headers = HeaderMap::new();
    headers.insert("key1", "value1".to_string());
    headers.insert("key2", "value2".to_string());

    let extractor = HeaderExtractor(&headers);
    assert_eq!(extractor.keys().len(), 2);
}

#[test]
fn test_header_injector_multiple_sets() {
    let mut headers = HeaderMap::new();
    let mut injector = HeaderInjector(&mut headers);

    injector.set("key1", "value1".to_string());
    injector.set("key2", "value2".to_string());

    assert_eq!(headers.len(), 2);
    assert_eq!(headers.get("key1"), Some("value1"));
    assert_eq!(headers.get("key2"), Some("value2"));
}

#[test]
fn test_header_injector_overwrite() {
    let mut headers = HeaderMap::new();
    let mut injector = HeaderInjector(&mut headers);

    injector.set("key", "value1".to_string());
    injector.set("key", "value2".to_string());

    assert_eq!(headers.len(), 1);
    assert_eq!(headers.get("key"), Some("value2"));
}

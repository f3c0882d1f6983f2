//! The decisions of the request-instrumenting middleware: what the request
//! span is named and carries, what status and attributes it ends with, and
//! what is recorded in the request metrics. Running the request and talking
//! to the tracer and meters is left to the caller, which hands the outcome
//! back here.

use crate::attributes::{attrs_view, retired_attribute_name, int_attribute, str_attribute, Attribute, SpecValue};
use crate::headers::HeaderMap;
use crate::http::{query_less, HandlerError, HttpRequest, HttpResponse};
use crate::sdk;
use crate::text::{decimal, push_decimal};
use opentelemetry::global::BoxedTracer;
use std::sync::Arc;
use vstd::prelude::*;

verus! {

/// The name of a request span: the method and the route, separated by a
/// space.
pub open spec fn span_name(method: Seq<char>, route: Seq<char>) -> Seq<char> {
    method + " "@ + route
}

/// The attribute for header `name`, under `key`, when the header is present.
pub open spec fn header_attr(headers: Map<Seq<char>, Seq<char>>, name: Seq<char>, key: Seq<char>) -> Seq<
    (Seq<char>, SpecValue),
> {
    if headers.contains_key(name) {
        seq![(key, SpecValue::Str(headers[name]))]
    } else {
        seq![]
    }
}

/// The attributes a request span starts with: the method, the path without
/// its query string, the scheme, then the `host` and `user-agent` headers
/// where present. The query string is left out: it is unbounded and often
/// carries credentials.
pub open spec fn request_span_attrs(
    method: Seq<char>,
    target: Seq<char>,
    headers: Map<Seq<char>, Seq<char>>,
) -> Seq<(Seq<char>, SpecValue)> {
    seq![
        ("http.request.method"@, SpecValue::Str(method)),
        ("url.path"@, SpecValue::Str(query_less(target))),
        ("url.scheme"@, SpecValue::Str("http"@)),
    ] + header_attr(headers, "host"@, "server.address"@) + header_attr(
        headers,
        "user-agent"@,
        "user_agent.original"@,
    )
}

/// The attributes a request span gains from a response: its status code and
/// the size of its body.
pub open spec fn response_span_attrs(status: u16, body_len: nat) -> Seq<(Seq<char>, SpecValue)> {
    seq![
        ("http.response.status_code"@, SpecValue::Int(status as i64)),
        ("http.response.body.size"@, SpecValue::Int(body_len as i64)),
    ]
}

/// The status a request span ends with.
pub enum SpanStatus {
    Success,
    Error(String),
}

/// The mathematical value of a span status.
pub enum SpecSpanStatus {
    Success,
    Error(Seq<char>),
}

impl View for SpanStatus {
    type V = SpecSpanStatus;

    open spec fn view(&self) -> SpecSpanStatus {
        match self {
            SpanStatus::Success => SpecSpanStatus::Success,
            SpanStatus::Error(m) => SpecSpanStatus::Error(m@),
        }
    }
}

/// The span status for a response: an error naming the status for a client
/// or server error (400 and above), otherwise success.
pub open spec fn response_span_status(status: u16) -> SpecSpanStatus {
    if status >= 400 {
        SpecSpanStatus::Error("HTTP "@ + decimal(status as nat))
    } else {
        SpecSpanStatus::Success
    }
}

/// The status recorded for a finished request: the response's status, or
/// 500 when the handler failed.
pub open spec fn recorded_status(result: Result<HttpResponse, HandlerError>) -> u16 {
    match result {
        Ok(res) => res.status,
        Err(_) => 500,
    }
}

/// Request spans carry no retired attribute name, whatever the request and
/// response.
pub proof fn law_span_attrs_use_stable_names(
    method: Seq<char>,
    target: Seq<char>,
    headers: Map<Seq<char>, Seq<char>>,
    status: u16,
    body_len: nat,
)
    ensures
        forall|i: int|
            0 <= i < request_span_attrs(method, target, headers).len() ==> !retired_attribute_name(
                #[trigger] request_span_attrs(method, target, headers)[i].0,
            ),
        forall|i: int|
            0 <= i < response_span_attrs(status, body_len).len() ==> !retired_attribute_name(
                #[trigger] response_span_attrs(status, body_len)[i].0,
            ),
{
    reveal_strlit("http.request.method");
    reveal_strlit("url.path");
    reveal_strlit("url.scheme");
    reveal_strlit("server.address");
    reveal_strlit("user_agent.original");
    reveal_strlit("http.response.status_code");
    reveal_strlit("http.response.body.size");
    reveal_strlit("http.method");
    reveal_strlit("http.target");
    reveal_strlit("http.host");
    reveal_strlit("http.scheme");
    reveal_strlit("http.user_agent");
    reveal_strlit("http.status_code");
    reveal_strlit("http.response_content_length");
    let a = request_span_attrs(method, target, headers);
    let h = header_attr(headers, "host"@, "server.address"@);
    let u = header_attr(headers, "user-agent"@, "user_agent.original"@);
    let base = seq![
        ("http.request.method"@, SpecValue::Str(method)),
        ("url.path"@, SpecValue::Str(query_less(target))),
        ("url.scheme"@, SpecValue::Str("http"@)),
    ];
    assert(a == base + h + u);
    assert(h.len() <= 1 && u.len() <= 1);
    assert forall|i: int| 0 <= i < a.len() implies !retired_attribute_name(#[trigger] a[i].0) by {
        if i == 0 {
            assert(a[i].0 == "http.request.method"@);
            assert(!retired_attribute_name("http.request.method"@));
        } else if i == 1 {
            assert(a[i].0 == "url.path"@);
            assert(!retired_attribute_name("url.path"@));
        } else if i == 2 {
            assert(a[i].0 == "url.scheme"@);
            assert(!retired_attribute_name("url.scheme"@));
        } else if i < 3 + h.len() {
            assert((base + h)[i] == h[i - 3]);
            assert(a[i] == h[i - 3]);
            assert(a[i].0 == "server.address"@);
            assert(!retired_attribute_name("server.address"@));
        } else {
            assert(a[i] == u[i - 3 - h.len()]);
            assert(a[i].0 == "user_agent.original"@);
            assert(!retired_attribute_name("user_agent.original"@));
        }
        assert(!retired_attribute_name(a[i].0));
    }
    let b = response_span_attrs(status, body_len);
    assert(b[0].0 == "http.response.status_code"@);
    assert(b[1].0 == "http.response.body.size"@);
    assert(!retired_attribute_name(b[0].0));
    assert(!retired_attribute_name(b[1].0));
}

/// A request span ends in error exactly when the response status is 400 or
/// above, and the error names the status.
pub proof fn law_span_error_iff_failure_status(status: u16)
    ensures
        (response_span_status(status) is Error) == (status >= 400),
        status >= 400 ==> response_span_status(status) == SpecSpanStatus::Error(
            "HTTP "@ + decimal(status as nat),
        ),
{
}

/// A request span starts with the request's own method, its path without the
/// query string and the scheme, in that order; then the value of the `host`
/// header under `server.address` and that of the `user-agent` header under
/// `user_agent.original`, each only when the header is present.
pub proof fn law_request_span_attrs(
    method: Seq<char>,
    target: Seq<char>,
    headers: Map<Seq<char>, Seq<char>>,
)
    ensures
        request_span_attrs(method, target, headers).len() == 3 + (if headers.contains_key(
            "host"@,
        ) {
            1int
        } else {
            0int
        }) + (if headers.contains_key("user-agent"@) {
            1int
        } else {
            0int
        }),
        request_span_attrs(method, target, headers)[0] == ("http.request.method"@, SpecValue::Str(
            method,
        )),
        request_span_attrs(method, target, headers)[1] == ("url.path"@, SpecValue::Str(
            query_less(target),
        )),
        request_span_attrs(method, target, headers)[2] == ("url.scheme"@, SpecValue::Str("http"@)),
        headers.contains_key("host"@) ==> request_span_attrs(method, target, headers)[3] == (
            "server.address"@,
            SpecValue::Str(headers["host"@]),
        ),
        headers.contains_key("user-agent"@) ==> request_span_attrs(method, target, headers).last()
            == ("user_agent.original"@, SpecValue::Str(headers["user-agent"@])),
{
    let a = request_span_attrs(method, target, headers);
    let h = header_attr(headers, "host"@, "server.address"@);
    let u = header_attr(headers, "user-agent"@, "user_agent.original"@);
    let base = seq![
        ("http.request.method"@, SpecValue::Str(method)),
        ("url.path"@, SpecValue::Str(query_less(target))),
        ("url.scheme"@, SpecValue::Str("http"@)),
    ];
    assert(a == base + h + u);
    assert(a[0] == base[0]);
    assert(a[1] == base[1]);
    assert(a[2] == base[2]);
    if headers.contains_key("host"@) {
        assert(a[3] == h[0]);
    }
    if headers.contains_key("user-agent"@) {
        assert(a.last() == u[0]);
    }
}

/// A request that the handler answered is recorded with the response's own
/// status, whatever it is (a client or server error too); only a request
/// whose handler failed is recorded as 500.
pub proof fn law_recorded_status(result: Result<HttpResponse, HandlerError>)
    ensures
        result matches Ok(res) ==> recorded_status(result) == res.status,
        result is Err ==> recorded_status(result) == 500,
{
}

/// What the middleware does when a request arrives.
pub struct RequestPlan {
    /// The request method, recorded in the metrics.
    pub method: String,
    /// The route recorded in the metrics: the path without its query.
    pub route: String,
    /// The name of the request span.
    pub span_name: String,
    /// The attributes the request span starts with.
    pub attributes: Vec<Attribute>,
    /// Whether the in-flight request count is raised for this request.
    pub track_active: bool,
}

/// What the middleware does once the request has been handled.
pub struct RequestEnd {
    /// Whether the in-flight request count is lowered again.
    pub decrement_active: bool,
    /// The `(method, route, status)` to record, if requests are recorded.
    pub record: Option<(String, String, u16)>,
}

/// What the middleware does to the request span when the handler returns.
pub struct SpanOutcome {
    /// Attributes to add to the span.
    pub attributes: Vec<Attribute>,
    /// The status to end the span with.
    pub status: SpanStatus,
    /// Whether the handler's error is recorded on the span.
    pub record_error: bool,
}

/// Middleware that traces each request in a server span and, when given
/// request metrics of type `M`, records them.
#[verifier::reject_recursive_types(M)]
pub struct TelemetryMiddleware<M> {
    service_name: String,
    tracer: BoxedTracer,
    metrics: Option<Arc<M>>,
}

impl<M> TelemetryMiddleware<M> {
    /// The service name the middleware was made with.
    pub closed spec fn spec_service_name(&self) -> Seq<char> {
        self.service_name@
    }

    /// The tracer resolved when the middleware was made.
    pub closed spec fn spec_tracer(&self) -> BoxedTracer {
        self.tracer
    }

    /// The request metrics, if any.
    pub closed spec fn spec_metrics(&self) -> Option<Arc<M>> {
        self.metrics
    }

    /// Middleware for `service_name`, without metrics. Its tracer, named
    /// after the service, is taken once, here, from the process-wide tracer
    /// provider and reused for every request (`with_metrics` keeps it and
    /// `tracer` hands it out).
    pub fn new(service_name: &str) -> (m: Self)
        ensures
            m.spec_service_name() == service_name@,
            m.spec_metrics() is None,
            service_name@.len() > 0 ==> sdk::tracer_name(m.spec_tracer()) == service_name@,
    {
        let name = service_name.to_owned();
        let tracer = sdk::global_tracer(name.clone());
        TelemetryMiddleware { service_name: name, tracer, metrics: None }
    }

    /// The service name the middleware was made with.
    pub fn service_name(&self) -> (s: &str)
        ensures
            s@ == self.spec_service_name(),
    {
        self.service_name.as_str()
    }

    /// The same middleware, recording into `metrics`.
    pub fn with_metrics(self, metrics: Arc<M>) -> (m: Self)
        ensures
            m.spec_service_name() == self.spec_service_name(),
            m.spec_tracer() == self.spec_tracer(),
            m.spec_metrics() == Some(metrics),
    {
        TelemetryMiddleware { metrics: Some(metrics), ..self }
    }

    /// The request metrics, if any.
    pub fn metrics(&self) -> (r: &Option<Arc<M>>)
        ensures
            *r == self.spec_metrics(),
    {
        &self.metrics
    }

    /// The tracer request spans are started with: the one resolved when the
    /// middleware was made.
    pub fn tracer(&self) -> (t: &BoxedTracer)
        ensures
            *t == self.spec_tracer(),
    {
        &self.tracer
    }

    /// The attributes a request span starts with.
    pub fn extract_attributes(&self, req: &HttpRequest) -> (r: Vec<Attribute>)
        ensures
            attrs_view(r@) == request_span_attrs(req.method@, req.path@, req.headers@),
            r@.len() >= 3,
            attrs_view(r@)[0] == ("http.request.method"@, SpecValue::Str(req.method@)),
            attrs_view(r@)[1] == ("url.path"@, SpecValue::Str(query_less(req.path@))),
            attrs_view(r@)[2] == ("url.scheme"@, SpecValue::Str("http"@)),
            req.headers@.contains_key("host"@) ==> attrs_view(r@)[3] == (
                "server.address"@,
                SpecValue::Str(req.headers@["host"@]),
            ),
            req.headers@.contains_key("user-agent"@) ==> attrs_view(r@).last() == (
                "user_agent.original"@,
                SpecValue::Str(req.headers@["user-agent"@]),
            ),
    {
        let mut r: Vec<Attribute> = Vec::new();
        r.push(str_attribute("http.request.method", req.method_str()));
        r.push(str_attribute("url.path", req.path_only()));
        r.push(str_attribute("url.scheme", "http"));
        push_header(&mut r, &req.headers, "host", "server.address");
        push_header(&mut r, &req.headers, "user-agent", "user_agent.original");
        assert(attrs_view(r@) =~= request_span_attrs(req.method@, req.path@, req.headers@));
        proof {
            law_request_span_attrs(req.method@, req.path@, req.headers@);
        }
        r
    }

    /// The attributes a request span gains from a response.
    pub fn extract_response_attributes(&self, res: &HttpResponse) -> (r: Vec<Attribute>)
        ensures
            attrs_view(r@) == response_span_attrs(res.status, res.body@.len()),
            r@.len() == 2,
            attrs_view(r@)[0] == ("http.response.status_code"@, SpecValue::Int(res.status as i64)),
            attrs_view(r@)[1] == ("http.response.body.size"@, SpecValue::Int(res.body@.len() as i64)),
    {
        let mut r: Vec<Attribute> = Vec::new();
        r.push(int_attribute("http.response.status_code", res.status as i64));
        r.push(int_attribute("http.response.body.size", res.body.len() as i64));
        assert(attrs_view(r@) =~= response_span_attrs(res.status, res.body@.len()));
        r
    }

    /// The `(method, route, status)` recorded for a finished request: the
    /// request's own method and route, and the response's status, or 500
    /// when the handler failed.
    pub fn recording(method: &str, route: &str, result: &Result<HttpResponse, HandlerError>) -> (r: (
        String,
        String,
        u16,
    ))
        ensures
            r.0@ == method@,
            r.1@ == route@,
            r.2 == recorded_status(*result),
            result matches Ok(res) ==> r.2 == res.status,
            result is Err ==> r.2 == 500,
    {
        let status = match result {
            Ok(res) => res.status,
            Err(_) => 500,
        };
        (method.to_owned(), route.to_owned(), status)
    }

    /// What to do when a request arrives: the method and route to record,
    /// and the name and attributes of its span.
    pub fn begin_request(&self, req: &HttpRequest) -> (p: RequestPlan)
        ensures
            p.method@ == req.method@,
            p.route@ == query_less(req.path@),
            p.span_name@ == span_name(req.method@, query_less(req.path@)),
            p.span_name@ == req.method@ + " "@ + p.route@,
            attrs_view(p.attributes@) == request_span_attrs(req.method@, req.path@, req.headers@),
            p.attributes@.len() >= 3,
            attrs_view(p.attributes@)[0] == ("http.request.method"@, SpecValue::Str(req.method@)),
            attrs_view(p.attributes@)[1] == ("url.path"@, SpecValue::Str(query_less(req.path@))),
            p.track_active == self.spec_metrics() is Some,
    {
        let method = req.method_str().to_owned();
        let route = req.path_only().to_owned();
        let mut name = method.clone();
        name.append(" ");
        name.append(route.as_str());
        let attributes = self.extract_attributes(req);
        let track_active = self.metrics.is_some();
        RequestPlan { method, route, span_name: name, attributes, track_active }
    }

    /// What to do once the request of `plan` has been handled, successfully
    /// or not: a request that raised the in-flight count lowers it exactly
    /// once, and is recorded with its own method and route and the status of
    /// `result` (500 for a failure).
    pub fn end_request(plan: &RequestPlan, result: &Result<HttpResponse, HandlerError>) -> (e:
        RequestEnd)
        ensures
            e.decrement_active == plan.track_active,
            e.record is Some <==> plan.track_active,
            e.record matches Some(t) ==> t.0@ == plan.method@ && t.1@ == plan.route@ && t.2
                == recorded_status(*result),
            (e.record is Some && result is Ok) ==> (e.record->0).2 == result->Ok_0.status,
            (e.record is Some && result is Err) ==> (e.record->0).2 == 500,
    {
        if plan.track_active {
            let t = Self::recording(plan.method.as_str(), plan.route.as_str(), result);
            RequestEnd { decrement_active: true, record: Some(t) }
        } else {
            RequestEnd { decrement_active: false, record: None }
        }
    }

    /// What to do to the request span when the handler returns: for a
    /// response, add its attributes and end in its status; for a failure,
    /// end in error with the failure's message and record the failure.
    pub fn finish_request(&self, result: &Result<HttpResponse, HandlerError>) -> (o: SpanOutcome)
        ensures
            match result {
                Ok(res) => {
                    &&& attrs_view(o.attributes@) == response_span_attrs(res.status, res.body@.len())
                    &&& o.status@ == response_span_status(res.status)
                    &&& !o.record_error
                },
                Err(e) => {
                    &&& o.attributes@.len() == 0
                    &&& o.status@ == SpecSpanStatus::Error(e.message@)
                    &&& o.record_error
                },
            },
    {
        match result {
            Ok(res) => {
                let attributes = self.extract_response_attributes(res);
                let status = http_status(res.status);
                SpanOutcome { attributes, status, record_error: false }
            },
            Err(e) => SpanOutcome {
                attributes: Vec::new(),
                status: SpanStatus::Error(e.message.clone()),
                record_error: true,
            },
        }
    }
}

/// Appends the attribute for header `name`, under `key`, when it is present.
fn push_header(out: &mut Vec<Attribute>, headers: &HeaderMap, name: &str, key: &str)
    ensures
        attrs_view(final(out)@) == attrs_view(old(out)@) + header_attr(headers@, name@, key@),
{
    match headers.get(name) {
        Some(v) => {
            out.push(str_attribute(key, v));
        },
        None => {},
    }
    assert(attrs_view(out@) =~= attrs_view(old(out)@) + header_attr(headers@, name@, key@));
}

/// The span status for a response status.
fn http_status(status: u16) -> (s: SpanStatus)
    ensures
        s@ == response_span_status(status),
{
    if status >= 400 {
        let mut m = "HTTP ".to_owned();
        push_decimal(&mut m, status as u64);
        SpanStatus::Error(m)
    } else {
        SpanStatus::Success
    }
}

} // verus!

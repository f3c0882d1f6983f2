//! The parts of an HTTP exchange that telemetry reads: the request's method,
//! target and headers, the response's status and body, and a failed
//! handler's message.

use crate::headers::HeaderMap;
use vstd::prelude::*;

verus! {

/// The number of characters of `t` before its first `?`, or its length if
/// it holds none.
pub open spec fn path_len(t: Seq<char>) -> nat
    decreases t.len(),
{
    if t.len() == 0 {
        0
    } else if t[0] == '?' {
        0
    } else {
        1 + path_len(t.drop_first())
    }
}

/// The path of a request target: everything before the first `?`.
pub open spec fn query_less(t: Seq<char>) -> Seq<char> {
    t.take(path_len(t) as int)
}

/// `path_len` is the index of the first `?`, or the length where there is none.
pub proof fn lemma_path_len(t: Seq<char>, n: int)
    requires
        0 <= n <= t.len(),
        forall|j: int| 0 <= j < n ==> t[j] != '?',
        n == t.len() || t[n] == '?',
    ensures
        path_len(t) == n,
    decreases t.len(),
{
    if t.len() > 0 && n > 0 {
        let u = t.drop_first();
        assert forall|j: int| 0 <= j < n - 1 implies u[j] != '?' by {
            assert(u[j] == t[j + 1]);
        }
        if n < t.len() {
            assert(u[n - 1] == t[n]);
        }
        lemma_path_len(u, n - 1);
    }
}

/// `path_len` counts the characters before the first `?`.
pub proof fn lemma_path_len_props(t: Seq<char>)
    ensures
        path_len(t) <= t.len(),
        forall|j: int| 0 <= j < path_len(t) ==> t[j] != '?',
        path_len(t) == t.len() || t[path_len(t) as int] == '?',
    decreases t.len(),
{
    if t.len() > 0 && t[0] != '?' {
        let u = t.drop_first();
        lemma_path_len_props(u);
        assert forall|j: int| 0 <= j < path_len(t) implies t[j] != '?' by {
            if j > 0 {
                assert(t[j] == u[j - 1]);
            }
        }
        if path_len(t) < t.len() {
            assert(t[path_len(t) as int] == u[path_len(u) as int]);
        }
    }
}

/// The path never holds a `?`, and it is a prefix of the target: no part of
/// the query string reaches it.
pub proof fn lemma_query_less_has_no_query(t: Seq<char>)
    ensures
        !query_less(t).contains('?'),
        query_less(t).is_prefix_of(t),
{
    lemma_path_len_props(t);
    let p = query_less(t);
    assert forall|j: int| 0 <= j < p.len() implies p[j] != '?' by {
        assert(p[j] == t[j]);
    }
}

/// A target without a `?` is its own path.
pub proof fn lemma_query_less_of_path(p: Seq<char>)
    requires
        !p.contains('?'),
    ensures
        query_less(p) == p,
{
    assert forall|j: int| 0 <= j < p.len() implies p[j] != '?' by {
        if p[j] == '?' {
            assert(p.contains('?'));
        }
    }
    lemma_path_len(p, p.len() as int);
    assert(query_less(p) =~= p);
}

/// Taking the path twice gives the path.
pub proof fn lemma_query_less_idempotent(t: Seq<char>)
    ensures
        query_less(query_less(t)) == query_less(t),
{
    lemma_query_less_has_no_query(t);
    lemma_query_less_of_path(query_less(t));
}

/// Targets that differ only in their query string have the same path: the
/// part before the `?`.
pub proof fn lemma_query_less_ignores_query(p: Seq<char>, q1: Seq<char>, q2: Seq<char>)
    requires
        !p.contains('?'),
    ensures
        query_less(p + seq!['?'] + q1) == p,
        query_less(p + seq!['?'] + q1) == query_less(p + seq!['?'] + q2),
{
    assert forall|q: Seq<char>| #[trigger] query_less(p + seq!['?'] + q) == p by {
        let t = p + seq!['?'] + q;
        assert forall|j: int| 0 <= j < p.len() implies t[j] != '?' by {
            assert(t[j] == p[j]);
            if p[j] == '?' {
                assert(p.contains('?'));
            }
        }
        assert(t[p.len() as int] == '?');
        lemma_path_len(t, p.len() as int);
        assert(query_less(t) =~= p);
    }
    assert(query_less(p + seq!['?'] + q1) == p);
    assert(query_less(p + seq!['?'] + q2) == p);
}

/// A request, as telemetry sees it.
pub struct HttpRequest {
    /// The request method, such as `GET`.
    pub method: String,
    /// The raw request target: the path and any query string.
    pub path: String,
    /// The request headers.
    pub headers: HeaderMap,
}

impl HttpRequest {
    /// A request with the given method and target and no headers.
    pub fn new(method: &str, path: String) -> (r: HttpRequest)
        ensures
            r.method@ == method@,
            r.path@ == path@,
            r.headers@ == Map::<Seq<char>, Seq<char>>::empty(),
    {
        HttpRequest { method: method.to_owned(), path, headers: HeaderMap::new() }
    }

    /// The request method.
    pub fn method_str(&self) -> (r: &str)
        ensures
            r@ == self.method@,
    {
        self.method.as_str()
    }

    /// The path of the target, without its query string.
    pub fn path_only(&self) -> (r: &str)
        ensures
            r@ == query_less(self.path@),
    {
        let t = self.path.as_str();
        let len = t.unicode_len();
        let mut n: usize = 0;
        let mut found = false;
        for c in iter: t.chars()
            invariant
                len == t@.len(),
                iter.seq() == t@,
                n <= iter.index() <= len,
                forall|j: int| 0 <= j < n ==> t@[j] != '?',
                found ==> n < len && t@[n as int] == '?',
                !found ==> n == iter.index(),
        {
            if !found {
                if c == '?' {
                    found = true;
                } else {
                    n = n + 1;
                }
            }
        }
        proof {
            lemma_path_len(t@, n as int);
        }
        t.substring_char(0, n)
    }
}

/// A response, as telemetry sees it.
pub struct HttpResponse {
    /// The HTTP status code.
    pub status: u16,
    /// The response body.
    pub body: Vec<u8>,
}

impl HttpResponse {
    /// A response with the given status and an empty body.
    pub fn new(status: u16) -> (r: HttpResponse)
        ensures
            r.status == status,
            r.body@.len() == 0,
    {
        HttpResponse { status, body: Vec::new() }
    }

    /// A `200 OK` response with an empty body.
    pub fn ok() -> (r: HttpResponse)
        ensures
            r.status == 200,
            r.body@.len() == 0,
    {
        HttpResponse::new(200)
    }
}

/// A failure reported by the request handler, carried by its message.
pub struct HandlerError {
    pub message: String,
}

impl HandlerError {
    /// An error with the given message.
    pub fn new(message: &str) -> (e: HandlerError)
        ensures
            e.message@ == message@,
    {
        HandlerError { message: message.to_owned() }
    }
}

} // verus!

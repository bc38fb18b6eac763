//! Per-request telemetry: what is captured when a request arrives and the
//! one record emitted when its response is ready.
//!
//! A request moves through `Received → Forwarded → Completed`. The record
//! holds the correlation id, method, path, response status and latency;
//! nothing else about the request, so no other header can leak into it.
use vstd::prelude::*;

use crate::config::LogBackend;
use crate::pipeline::REQUEST_ID_HEADER;
use crate::text::{decimal, push_decimal};

verus! {

/// Layer settings for request logging.
#[derive(Debug, Clone, Copy)]
pub struct RequestLogLayer {
    pub backend: LogBackend,
}

impl RequestLogLayer {
    /// Logging through `backend`.
    pub fn new(backend: LogBackend) -> (r: Self)
        ensures
            r.backend == backend,
    {
        RequestLogLayer { backend }
    }
}

/// One request header; `value` is `None` when it is not visible ASCII text.
#[derive(Debug, Clone)]
pub struct HeaderField {
    pub name: String,
    pub value: Option<String>,
}

/// Value of the first header called `name`, if any.
pub open spec fn find_header(hs: Seq<HeaderField>, name: Seq<char>) -> Option<Option<String>>
    decreases hs.len(),
{
    if hs.len() == 0 {
        None
    } else if hs[0].name@ == name {
        Some(hs[0].value)
    } else {
        find_header(hs.drop_first(), name)
    }
}

/// The correlation id as the log sees it: the first correlation header
/// when it is text, else empty.
pub open spec fn logged_request_id(hs: Seq<HeaderField>) -> Seq<char> {
    match find_header(hs, REQUEST_ID_HEADER@) {
        Some(Some(v)) => v@,
        _ => Seq::empty(),
    }
}

/// What is captured when a request arrives.
#[derive(Debug, Clone)]
pub struct RequestContext {
    pub request_id: String,
    pub method: String,
    pub path: String,
}

/// Where a request stands in the logging layer.
#[derive(Debug, Clone)]
pub enum RequestPhase {
    /// Captured, not yet handed on.
    Received(RequestContext),
    /// Handed to the inner layers, awaiting their answer.
    Forwarded(RequestContext),
    /// Answered, with the record to emit, if any.
    Completed(Option<RequestRecord>),
}

/// Value of the first header called `name`.
pub fn header_value(headers: &Vec<HeaderField>, name: &str) -> (r: Option<Option<String>>)
    ensures
        r == find_header(headers@, name@),
{
    let mut k: usize = 0;
    let target = String::from_str(name);
    assert(headers@.subrange(0, headers@.len() as int) =~= headers@);
    while k < headers.len()
        invariant
            k <= headers.len(),
            target@ == name@,
            find_header(headers@, name@) == find_header(
                headers@.subrange(k as int, headers@.len() as int),
                name@,
            ),
        decreases headers.len() - k,
    {
        let ghost rest = headers@.subrange(k as int, headers@.len() as int);
        assert(rest[0] == headers@[k as int]);
        if headers[k].name == target {
            let v = match &headers[k].value {
                Some(s) => Some(s.clone()),
                None => None,
            };
            return Some(v);
        }
        assert(rest.drop_first() =~= headers@.subrange(k + 1, headers@.len() as int));
        k = k + 1;
    }
    None
}

/// Captures method, path and correlation id of an arriving request.
pub fn receive(method: &str, path: &str, headers: &Vec<HeaderField>) -> (r: RequestPhase)
    ensures
        r matches RequestPhase::Received(c) && c.method@ == method@ && c.path@ == path@
            && c.request_id@ == logged_request_id(headers@),
{
    let request_id = match header_value(headers, REQUEST_ID_HEADER) {
        Some(Some(v)) => v,
        _ => String::new(),
    };
    RequestPhase::Received(
        RequestContext {
            request_id,
            method: String::from_str(method),
            path: String::from_str(path),
        },
    )
}

/// Hands the request on to the inner layers.
pub fn forward(phase: RequestPhase) -> (r: RequestPhase)
    requires
        phase is Received,
    ensures
        r matches RequestPhase::Forwarded(c) && phase matches RequestPhase::Received(c0) && c
            == c0,
{
    match phase {
        RequestPhase::Received(c) => RequestPhase::Forwarded(c),
        _ => phase,
    }
}

/// The record of one completed request.
#[derive(Debug, Clone)]
pub struct RequestRecord {
    pub request_id: String,
    pub method: String,
    pub path: String,
    pub status: u16,
    /// Whole milliseconds, saturating.
    pub latency_ms: u64,
}

/// Milliseconds as a `u64`, saturating.
pub open spec fn clamp_ms(elapsed_ms: u128) -> u64 {
    if elapsed_ms > u64::MAX as u128 {
        u64::MAX
    } else {
        elapsed_ms as u64
    }
}

/// `r` records `c` answered with `status` after `elapsed_ms`.
pub open spec fn records(r: RequestRecord, c: RequestContext, status: u16, elapsed_ms: u128) -> bool {
    &&& r.request_id == c.request_id
    &&& r.method == c.method
    &&& r.path == c.path
    &&& r.status == status
    &&& r.latency_ms == clamp_ms(elapsed_ms)
}

/// The inner layers answered. With a response (`Some(status)`) the
/// request completes with its record; with a transport error (`None`)
/// there is nothing to summarise and no record.
pub fn complete(phase: RequestPhase, status: Option<u16>, elapsed_ms: u128) -> (r: RequestPhase)
    requires
        phase is Forwarded,
    ensures
        phase matches RequestPhase::Forwarded(c) && match status {
            Some(s) => r matches RequestPhase::Completed(Some(rec)) && records(rec, c, s, elapsed_ms),
            None => r matches RequestPhase::Completed(None),
        },
{
    match phase {
        RequestPhase::Forwarded(c) => {
            match status {
                Some(s) => {
                    let latency_ms = if elapsed_ms > u64::MAX as u128 {
                        u64::MAX
                    } else {
                        elapsed_ms as u64
                    };
                    RequestPhase::Completed(
                        Some(
                            RequestRecord {
                                request_id: c.request_id,
                                method: c.method,
                                path: c.path,
                                status: s,
                                latency_ms,
                            },
                        ),
                    )
                },
                None => RequestPhase::Completed(None),
            }
        },
        _ => phase,
    }
}

/// The plain-log rendering of a record.
pub open spec fn rendered(r: RequestRecord) -> Seq<char> {
    "request completed request_id="@ + r.request_id@ + " method="@ + r.method@ + " path="@
        + r.path@ + " status="@ + decimal(r.status as nat) + " latency_ms="@ + decimal(
        r.latency_ms as nat,
    )
}

impl RequestRecord {
    /// The line written by the plain leveled-log backend; the structured
    /// backend emits the same fields.
    pub fn render(&self) -> (r: String)
        ensures
            r@ == rendered(*self),
    {
        let mut out = String::from_str("request completed request_id=");
        out.append(self.request_id.as_str());
        out.append(" method=");
        out.append(self.method.as_str());
        out.append(" path=");
        out.append(self.path.as_str());
        out.append(" status=");
        push_decimal(&mut out, self.status as u64);
        out.append(" latency_ms=");
        push_decimal(&mut out, self.latency_ms);
        out
    }
}

/// `h2` differs from `h1` at most in the values of headers named in
/// `names`.
pub open spec fn differ_only_in(h1: Seq<HeaderField>, h2: Seq<HeaderField>, names: Seq<Seq<char>>) -> bool {
    &&& h1.len() == h2.len()
    &&& forall|i: int|
        0 <= i < h1.len() ==> (#[trigger] h1[i]).name == h2[i].name && (h1[i].value
            == h2[i].value || names.contains(h1[i].name@))
}

proof fn lemma_find_ignores_others(
    h1: Seq<HeaderField>,
    h2: Seq<HeaderField>,
    names: Seq<Seq<char>>,
    name: Seq<char>,
)
    requires
        differ_only_in(h1, h2, names),
        !names.contains(name),
    ensures
        find_header(h1, name) == find_header(h2, name),
    decreases h1.len(),
{
    if h1.len() > 0 {
        assert(h1[0].name == h2[0].name);
        if h1[0].name@ != name {
            assert(differ_only_in(h1.drop_first(), h2.drop_first(), names)) by {
                assert forall|i: int| 0 <= i < h1.drop_first().len() implies (
                #[trigger] h1.drop_first()[i]).name == h2.drop_first()[i].name && (
                h1.drop_first()[i].value == h2.drop_first()[i].value || names.contains(
                    h1.drop_first()[i].name@,
                )) by {
                    assert(h1.drop_first()[i] == h1[i + 1]);
                    assert(h2.drop_first()[i] == h2[i + 1]);
                }
            }
            lemma_find_ignores_others(h1.drop_first(), h2.drop_first(), names, name);
        }
    }
}

/// Sensitive header values never reach a log record: two requests that
/// differ only in the values of headers on the sensitive list give the
/// same record and the same rendered line, on either backend, as long as
/// the correlation header itself is not on that list.
pub proof fn lemma_sensitive_values_not_logged(
    h1: Seq<HeaderField>,
    h2: Seq<HeaderField>,
    sensitive: Seq<Seq<char>>,
    c1: RequestContext,
    c2: RequestContext,
    r1: RequestRecord,
    r2: RequestRecord,
    status: u16,
    elapsed_ms: u128,
)
    requires
        differ_only_in(h1, h2, sensitive),
        !sensitive.contains(REQUEST_ID_HEADER@),
        c1.method == c2.method,
        c1.path == c2.path,
        c1.request_id@ == logged_request_id(h1),
        c2.request_id@ == logged_request_id(h2),
        records(r1, c1, status, elapsed_ms),
        records(r2, c2, status, elapsed_ms),
    ensures
        r1.request_id@ == r2.request_id@,
        r1.method == r2.method,
        r1.path == r2.path,
        r1.status == r2.status,
        r1.latency_ms == r2.latency_ms,
        rendered(r1) == rendered(r2),
{
    lemma_find_ignores_others(h1, h2, sensitive, REQUEST_ID_HEADER@);
}

} // verus!

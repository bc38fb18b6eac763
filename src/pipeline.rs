//! The ordered middleware stack placed in front of the routes.
//!
//! `plan` lists the layers innermost first: the last entry wraps all the
//! others and sees a request first. Which layers appear depends only on the
//! configuration, read once when the plan is made.
use vstd::prelude::*;

use crate::config::{Config, CorsConfig, LogBackend};
use crate::text::comma_items;

verus! {

/// Name of the correlation header.
pub const REQUEST_ID_HEADER: &'static str = "x-request-id";

/// An HTTP token character: `!#$%&'*+-.^_`|~`, a digit or a letter.
pub open spec fn is_tchar(c: char) -> bool {
    ('0' <= c <= '9') || ('a' <= c <= 'z') || ('A' <= c <= 'Z') || c == '!' || c == '#' || c
        == '$' || c == '%' || c == '&' || c == '\'' || c == '*' || c == '+' || c == '-' || c
        == '.' || c == '^' || c == '_' || c == '`' || c == '|' || c == '~'
}

/// A non-empty run of token characters.
pub open spec fn is_token(s: Seq<char>) -> bool {
    s.len() > 0 && forall|i: int| 0 <= i < s.len() ==> is_tchar(#[trigger] s[i])
}

/// A text accepted as a header name.
pub open spec fn is_header_name(s: Seq<char>) -> bool {
    is_token(s) && s.len() <= 65535
}

/// A text accepted as a header value: no control character but tab.
pub open spec fn is_header_text(s: Seq<char>) -> bool {
    forall|i: int|
        0 <= i < s.len() ==> (#[trigger] s[i] == '\t' || (s[i] as u32 >= 32 && s[i] as u32
            != 127))
}

/// Relies on `http::HeaderName::from_bytes`: it accepts 1 to 65535 bytes,
/// each a token character.
#[verifier::external_body]
fn header_name_ok(s: &str) -> (r: bool)
    ensures
        r == is_header_name(s@),
{
    axum::http::HeaderName::from_bytes(s.as_bytes()).is_ok()
}

/// Relies on `http::Method::from_bytes`: it accepts a non-empty run of
/// token characters.
#[verifier::external_body]
fn method_ok(s: &str) -> (r: bool)
    ensures
        r == is_token(s@),
{
    axum::http::Method::from_bytes(s.as_bytes()).is_ok()
}

/// Relies on `http::HeaderValue::from_str`: it rejects bytes below 32 other
/// than tab, and 127.
#[verifier::external_body]
fn header_text_ok(s: &str) -> (r: bool)
    ensures
        r == is_header_text(s@),
{
    axum::http::HeaderValue::from_str(s).is_ok()
}

/// What a list entry must be to be used.
#[derive(Debug, Clone, Copy, PartialEq, Eq, Structural)]
pub enum EntryRule {
    HeaderName,
    Method,
    HeaderText,
}

pub open spec fn accepts(rule: EntryRule, s: Seq<char>) -> bool {
    match rule {
        EntryRule::HeaderName => is_header_name(s),
        EntryRule::Method => is_token(s),
        EntryRule::HeaderText => is_header_text(s),
    }
}

/// The entries that `rule` accepts, in their order.
pub open spec fn keep_valid(rule: EntryRule, items: Seq<Seq<char>>) -> Seq<Seq<char>>
    decreases items.len(),
{
    if items.len() == 0 {
        Seq::empty()
    } else {
        let rest = keep_valid(rule, items.drop_last());
        if accepts(rule, items.last()) {
            rest.push(items.last())
        } else {
            rest
        }
    }
}

/// Whether `rule` accepts `s`.
pub fn entry_ok(rule: EntryRule, s: &str) -> (r: bool)
    ensures
        r == accepts(rule, s@),
{
    match rule {
        EntryRule::HeaderName => header_name_ok(s),
        EntryRule::Method => method_ok(s),
        EntryRule::HeaderText => header_text_ok(s),
    }
}

/// Drops the entries that `rule` rejects.
pub fn keep_valid_entries(rule: EntryRule, items: Vec<String>) -> (r: Vec<String>)
    ensures
        r.deep_view() == keep_valid(rule, items.deep_view()),
{
    let mut out: Vec<String> = Vec::new();
    let mut k: usize = 0;
    while k < items.len()
        invariant
            k <= items.len(),
            out.deep_view() == keep_valid(rule, items.deep_view().subrange(0, k as int)),
        decreases items.len() - k,
    {
        let ghost upto = items.deep_view().subrange(0, k + 1);
        assert(upto.drop_last() =~= items.deep_view().subrange(0, k as int));
        assert(upto.last() == items[k as int]@);
        if entry_ok(rule, items[k].as_str()) {
            let e = items[k].clone();
            out.push(e);
            assert(out.deep_view() =~= keep_valid(rule, items.deep_view().subrange(0, k as int)).push(
                items[k as int]@,
            ));
        }
        k = k + 1;
    }
    assert(items.deep_view().subrange(0, items.len() as int) =~= items.deep_view());
    out
}

/// The CORS rules in force. An empty list leaves that dimension unset.
#[derive(Debug, Clone)]
pub struct CorsPolicy {
    pub max_age_seconds: u64,
    pub allow_credentials: bool,
    pub methods: Vec<String>,
    pub headers: Vec<String>,
    pub origins: Vec<String>,
}

pub open spec fn configured_origins(cors: CorsConfig) -> Seq<Seq<char>> {
    match cors.cors_allow_origins {
        Some(s) => comma_items(s@),
        None => Seq::empty(),
    }
}

/// `p` is the policy that `cors` describes: its lists keep the configured
/// entries that are valid, in their order; invalid entries are dropped.
pub open spec fn policy_of(p: CorsPolicy, cors: CorsConfig) -> bool {
    &&& p.max_age_seconds == cors.cors_max_age_seconds
    &&& p.allow_credentials == cors.cors_allow_credentials
    &&& p.methods.deep_view() == keep_valid(EntryRule::Method, comma_items(cors.cors_allow_methods@))
    &&& p.headers.deep_view() == keep_valid(
        EntryRule::HeaderName,
        comma_items(cors.cors_allow_headers@),
    )
    &&& p.origins.deep_view() == keep_valid(EntryRule::HeaderText, configured_origins(cors))
}

/// Builds the CORS policy from configuration.
pub fn build_cors_policy(cors: &CorsConfig) -> (r: CorsPolicy)
    ensures
        policy_of(r, *cors),
{
    let methods = keep_valid_entries(EntryRule::Method, cors.methods());
    let headers = keep_valid_entries(EntryRule::HeaderName, cors.headers());
    let origins = keep_valid_entries(EntryRule::HeaderText, cors.origins());
    CorsPolicy {
        max_age_seconds: cors.cors_max_age_seconds,
        allow_credentials: cors.cors_allow_credentials,
        methods,
        headers,
        origins,
    }
}

impl CorsPolicy {
    /// Whether a cross-origin request from `origin` is allowed: it must be
    /// one of the listed origins.
    pub fn allows_origin(&self, origin: &str) -> (r: bool)
        ensures
            r == self.origins.deep_view().contains(origin@),
    {
        let mut k: usize = 0;
        while k < self.origins.len()
            invariant
                k <= self.origins.len(),
                forall|i: int| 0 <= i < k ==> self.origins.deep_view()[i] != origin@,
            decreases self.origins.len() - k,
        {
            if self.origins[k].as_str().unicode_len() == origin.unicode_len() && String::from_str(
                origin,
            ) == self.origins[k] {
                assert(self.origins.deep_view()[k as int] == origin@);
                return true;
            }
            k = k + 1;
        }
        false
    }
}

/// The kinds of layer, in the order they are applied (innermost first).
#[derive(Debug, Clone, Copy, PartialEq, Eq, Structural)]
pub enum LayerKind {
    Compression,
    SecurityHeaders,
    BodyLimit,
    Tracing,
    RequestLog,
    SensitiveHeaders,
    PropagateRequestId,
    SetRequestId,
    Cors,
}

/// One layer of the stack, with what it needs to be built.
#[derive(Debug, Clone)]
pub enum Middleware {
    /// Response compression.
    Compression,
    /// Fixed security response headers, each set only when absent.
    SecurityHeaders,
    /// Rejects request bodies larger than `max_bytes`.
    BodyLimit { max_bytes: usize },
    /// A tracing span per request, with no log lines of its own.
    Tracing,
    /// One record per completed request.
    RequestLog { backend: LogBackend },
    /// Marks these request headers as sensitive.
    SensitiveHeaders { names: Vec<String> },
    /// Copies the correlation header of the request onto the response.
    PropagateRequestId,
    /// Gives a request without a correlation header a fresh one.
    SetRequestId,
    /// Cross-origin policy enforcement.
    Cors { policy: CorsPolicy },
}

impl Middleware {
    pub open spec fn kind(&self) -> LayerKind {
        match self {
            Middleware::Compression => LayerKind::Compression,
            Middleware::SecurityHeaders => LayerKind::SecurityHeaders,
            Middleware::BodyLimit { .. } => LayerKind::BodyLimit,
            Middleware::Tracing => LayerKind::Tracing,
            Middleware::RequestLog { .. } => LayerKind::RequestLog,
            Middleware::SensitiveHeaders { .. } => LayerKind::SensitiveHeaders,
            Middleware::PropagateRequestId => LayerKind::PropagateRequestId,
            Middleware::SetRequestId => LayerKind::SetRequestId,
            Middleware::Cors { .. } => LayerKind::Cors,
        }
    }

    /// The layer carries what `c` says it should.
    pub open spec fn built_from(&self, c: Config) -> bool {
        match self {
            Middleware::BodyLimit { max_bytes } => *max_bytes == c.http.http_body_limit_bytes,
            Middleware::RequestLog { backend } => *backend == c.logging.log_backend,
            Middleware::SensitiveHeaders { names } => names.deep_view() == keep_valid(
                EntryRule::HeaderName,
                comma_items(c.logging.request_log_headers_denylist@),
            ),
            Middleware::Cors { policy } => policy_of(*policy, c.cors),
            _ => true,
        }
    }
}

pub open spec fn when(on: bool, k: LayerKind) -> Seq<LayerKind> {
    if on {
        seq![k]
    } else {
        Seq::empty()
    }
}

/// The layer kinds for the given toggles, innermost first.
pub open spec fn planned_kinds(tracing: bool, request_log: bool, cors: bool) -> Seq<LayerKind> {
    seq![LayerKind::Compression, LayerKind::SecurityHeaders, LayerKind::BodyLimit] + when(
        tracing,
        LayerKind::Tracing,
    ) + when(request_log, LayerKind::RequestLog) + seq![
        LayerKind::SensitiveHeaders,
        LayerKind::PropagateRequestId,
        LayerKind::SetRequestId,
    ] + when(cors, LayerKind::Cors)
}

pub open spec fn kinds_of(p: Seq<Middleware>) -> Seq<LayerKind> {
    p.map_values(|m: Middleware| m.kind())
}

/// `p` is the stack that `c` asks for.
pub open spec fn plan_for(p: Seq<Middleware>, c: Config) -> bool {
    &&& kinds_of(p) == planned_kinds(
        c.features.feature_tracing,
        c.features.feature_request_log,
        c.features.feature_cors,
    )
    &&& forall|i: int| 0 <= i < p.len() ==> (#[trigger] p[i]).built_from(c)
}

/// Assembles the middleware stack for `config`, innermost layer first.
pub fn plan(config: &Config) -> (r: Vec<Middleware>)
    ensures
        plan_for(r@, *config),
{
    let mut layers: Vec<Middleware> = Vec::new();
    layers.push(Middleware::Compression);
    layers.push(Middleware::SecurityHeaders);
    layers.push(Middleware::BodyLimit { max_bytes: config.http.http_body_limit_bytes });
    if config.features.feature_tracing {
        layers.push(Middleware::Tracing);
    }
    if config.features.feature_request_log {
        layers.push(Middleware::RequestLog { backend: config.logging.log_backend });
    }
    let denylist = crate::text::comma_list(config.logging.request_log_headers_denylist.as_str());
    let names = keep_valid_entries(EntryRule::HeaderName, denylist);
    layers.push(Middleware::SensitiveHeaders { names });
    layers.push(Middleware::PropagateRequestId);
    layers.push(Middleware::SetRequestId);
    if config.features.feature_cors {
        let policy = build_cors_policy(&config.cors);
        layers.push(Middleware::Cors { policy });
    }
    assert(kinds_of(layers@) =~= planned_kinds(
        config.features.feature_tracing,
        config.features.feature_request_log,
        config.features.feature_cors,
    ));
    layers
}

/// The security headers set on every response that lacks them, as
/// `(name, value)` pairs.
pub open spec fn security_header_pairs() -> Seq<(Seq<char>, Seq<char>)> {
    seq![
        ("x-content-type-options"@, "nosniff"@),
        ("x-frame-options"@, "DENY"@),
        ("x-xss-protection"@, "1; mode=block"@),
        ("referrer-policy"@, "strict-origin-when-cross-origin"@),
    ]
}

/// The fixed security response headers, in the order they are layered.
pub fn security_headers() -> (r: Vec<(&'static str, &'static str)>)
    ensures
        r@.map_values(|p: (&'static str, &'static str)| (p.0@, p.1@)) == security_header_pairs(),
{
    let r = vec![
        ("x-content-type-options", "nosniff"),
        ("x-frame-options", "DENY"),
        ("x-xss-protection", "1; mode=block"),
        ("referrer-policy", "strict-origin-when-cross-origin"),
    ];
    assert(r@.map_values(|p: (&'static str, &'static str)| (p.0@, p.1@))
        =~= security_header_pairs());
    r
}

/// Layer `outer` wraps layer `inner` wherever both occur, so it sees each
/// request before `inner` does.
pub open spec fn wraps(kinds: Seq<LayerKind>, outer: LayerKind, inner: LayerKind) -> bool {
    forall|i: int, j: int|
        0 <= i < kinds.len() && 0 <= j < kinds.len() && #[trigger] kinds[i] == inner
            && #[trigger] kinds[j] == outer ==> i < j
}

/// Position of each kind in the fixed order.
pub open spec fn rank(k: LayerKind) -> int {
    match k {
        LayerKind::Compression => 0,
        LayerKind::SecurityHeaders => 1,
        LayerKind::BodyLimit => 2,
        LayerKind::Tracing => 3,
        LayerKind::RequestLog => 4,
        LayerKind::SensitiveHeaders => 5,
        LayerKind::PropagateRequestId => 6,
        LayerKind::SetRequestId => 7,
        LayerKind::Cors => 8,
    }
}

proof fn lemma_ranks_increase(tracing: bool, request_log: bool, cors: bool)
    ensures
        ({
            let k = planned_kinds(tracing, request_log, cors);
            forall|i: int, j: int| 0 <= i < j < k.len() ==> rank(k[i]) < rank(k[j])
        }),
{
    let k = planned_kinds(tracing, request_log, cors);
    let base = seq![LayerKind::Compression, LayerKind::SecurityHeaders, LayerKind::BodyLimit];
    let ids = seq![
        LayerKind::SensitiveHeaders,
        LayerKind::PropagateRequestId,
        LayerKind::SetRequestId,
    ];
    let t = when(tracing, LayerKind::Tracing);
    let l = when(request_log, LayerKind::RequestLog);
    let c = when(cors, LayerKind::Cors);
    assert(k =~= base + t + l + ids + c);
    let nt = t.len() as int;
    let nl = l.len() as int;
    let n = 3 + nt + nl;
    assert(k.len() == n + 3 + c.len());
    assert forall|i: int| 0 <= i < k.len() implies rank(#[trigger] k[i]) == (if i < 3 {
        i
    } else if i < 3 + nt {
        3
    } else if i < n {
        4
    } else {
        i - n + 5
    }) by {
        if i < 3 {
            assert(k[i] == base[i]);
        } else if i < 3 + nt {
            assert(k[i] == t[i - 3]);
        } else if i < n {
            assert(k[i] == l[i - 3 - nt]);
        } else if i < n + 3 {
            assert(k[i] == ids[i - n]);
        } else {
            assert(k[i] == c[i - n - 3]);
        }
    }
}

proof fn lemma_wraps_by_rank(k: Seq<LayerKind>, outer: LayerKind, inner: LayerKind)
    requires
        forall|i: int, j: int| 0 <= i < j < k.len() ==> rank(k[i]) < rank(k[j]),
        rank(inner) < rank(outer),
    ensures
        wraps(k, outer, inner),
{
    assert forall|i: int, j: int|
        0 <= i < k.len() && 0 <= j < k.len() && #[trigger] k[i] == inner && #[trigger] k[j]
            == outer implies i < j by {
        if j < i {
            assert(rank(k[j]) < rank(k[i]));
        }
    }
}

/// The stack keeps its required order for every combination of toggles:
/// the correlation id is settled before tracing and logging see the
/// request, sensitive headers are marked before anything logs, and CORS,
/// when present, runs before every other layer. The correlation and
/// sensitive-header layers are always present; the optional ones are
/// present exactly when toggled on.
pub proof fn lemma_pipeline_order(tracing: bool, request_log: bool, cors: bool)
    ensures
        ({
            let k = planned_kinds(tracing, request_log, cors);
            &&& wraps(k, LayerKind::SetRequestId, LayerKind::RequestLog)
            &&& wraps(k, LayerKind::SetRequestId, LayerKind::Tracing)
            &&& wraps(k, LayerKind::PropagateRequestId, LayerKind::RequestLog)
            &&& wraps(k, LayerKind::PropagateRequestId, LayerKind::Tracing)
            &&& wraps(k, LayerKind::SensitiveHeaders, LayerKind::RequestLog)
            &&& wraps(k, LayerKind::SensitiveHeaders, LayerKind::Tracing)
            &&& wraps(k, LayerKind::BodyLimit, LayerKind::Compression)
            &&& forall|i: int|
                0 <= i < k.len() && k[i] != LayerKind::Cors ==> wraps(
                    k,
                    LayerKind::Cors,
                    #[trigger] k[i],
                )
            &&& k.contains(LayerKind::SetRequestId)
            &&& k.contains(LayerKind::PropagateRequestId)
            &&& k.contains(LayerKind::SensitiveHeaders)
            &&& (k.contains(LayerKind::Cors) <==> cors)
            &&& (k.contains(LayerKind::Tracing) <==> tracing)
            &&& (k.contains(LayerKind::RequestLog) <==> request_log)
        }),
{
    let k = planned_kinds(tracing, request_log, cors);
    lemma_ranks_increase(tracing, request_log, cors);
    lemma_wraps_by_rank(k, LayerKind::SetRequestId, LayerKind::RequestLog);
    lemma_wraps_by_rank(k, LayerKind::SetRequestId, LayerKind::Tracing);
    lemma_wraps_by_rank(k, LayerKind::PropagateRequestId, LayerKind::RequestLog);
    lemma_wraps_by_rank(k, LayerKind::PropagateRequestId, LayerKind::Tracing);
    lemma_wraps_by_rank(k, LayerKind::SensitiveHeaders, LayerKind::RequestLog);
    lemma_wraps_by_rank(k, LayerKind::SensitiveHeaders, LayerKind::Tracing);
    lemma_wraps_by_rank(k, LayerKind::BodyLimit, LayerKind::Compression);
    assert forall|i: int| 0 <= i < k.len() && k[i] != LayerKind::Cors implies wraps(
        k,
        LayerKind::Cors,
        #[trigger] k[i],
    ) by {
        lemma_wraps_by_rank(k, LayerKind::Cors, k[i]);
    }
    let base = seq![LayerKind::Compression, LayerKind::SecurityHeaders, LayerKind::BodyLimit];
    let ids = seq![
        LayerKind::SensitiveHeaders,
        LayerKind::PropagateRequestId,
        LayerKind::SetRequestId,
    ];
    let t = when(tracing, LayerKind::Tracing);
    let l = when(request_log, LayerKind::RequestLog);
    let c = when(cors, LayerKind::Cors);
    assert(k =~= base + t + l + ids + c);
    let nt = t.len() as int;
    let n = 3 + nt + l.len();
    assert(k[n] == LayerKind::SensitiveHeaders);
    assert(k[n + 1] == LayerKind::PropagateRequestId);
    assert(k[n + 2] == LayerKind::SetRequestId);
    if cors {
        assert(k[n + 3] == LayerKind::Cors);
    } else {
        assert forall|i: int| 0 <= i < k.len() implies k[i] != LayerKind::Cors by {
            assert(rank(k[i]) <= rank(k[k.len() - 1]) < 8);
        }
    }
    if tracing {
        assert(k[3] == LayerKind::Tracing);
    } else {
        assert forall|i: int| 0 <= i < k.len() implies k[i] != LayerKind::Tracing by {
            if i < 3 {
                assert(k[i] == base[i]);
            } else if i < n {
                assert(k[i] == l[i - 3]);
            } else {
                assert(rank(k[n]) <= rank(k[i]));
            }
        }
    }
    if request_log {
        assert(k[3 + nt] == LayerKind::RequestLog);
    } else {
        assert forall|i: int| 0 <= i < k.len() implies k[i] != LayerKind::RequestLog by {
            if i < 3 {
                assert(k[i] == base[i]);
            } else if i < n {
                assert(k[i] == t[i - 3]);
            } else {
                assert(rank(k[n]) <= rank(k[i]));
            }
        }
    }
}

/// Assembling twice from the same configuration yields the same stack:
/// the same layers in the same order, each built from the same settings.
pub proof fn lemma_plan_repeatable(c: Config, p1: Seq<Middleware>, p2: Seq<Middleware>)
    requires
        plan_for(p1, c),
        plan_for(p2, c),
    ensures
        p1.len() == p2.len(),
        forall|i: int|
            0 <= i < p1.len() ==> (#[trigger] p1[i]).kind() == p2[i].kind() && p1[i].built_from(c)
                && p2[i].built_from(c),
{
    assert(kinds_of(p1).len() == p1.len());
    assert(kinds_of(p2).len() == p2.len());
    assert forall|i: int| 0 <= i < p1.len() implies (#[trigger] p1[i]).kind() == p2[i].kind() by {
        assert(kinds_of(p1)[i] == p1[i].kind());
        assert(kinds_of(p2)[i] == p2[i].kind());
    }
}

} // verus!

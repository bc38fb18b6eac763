//! Liveness, readiness and version replies.
//!
//! Each reply is built from plain values; the readiness checks themselves
//! are gathered by the caller and handed in.
use vstd::prelude::*;

use std::sync::Arc;

use crate::build_info::BuildInfo;
use crate::response::ApiResponse;

verus! {

/// Liveness payload.
#[derive(Debug, Clone)]
pub struct HealthData {
    pub status: String,
}

/// Readiness payload.
#[derive(Debug, Clone)]
pub struct ReadyData {
    /// `ok` or `degraded`.
    pub status: String,
    pub checks: Vec<HealthCheck>,
}

/// Outcome of one named sub-check.
#[derive(Debug, Clone)]
pub struct HealthCheck {
    pub name: String,
    /// `ok`, `fail` or `skip`.
    pub status: String,
    pub message: Option<String>,
}

impl HealthCheck {
    /// A passing check.
    pub fn ok(name: &str) -> (r: Self)
        ensures
            r.name@ == name@,
            r.status@ == "ok"@,
            r.message is None,
    {
        HealthCheck { name: String::from_str(name), status: String::from_str("ok"), message: None }
    }

    /// A failing check with the reporter's message.
    pub fn fail(name: &str, message: &str) -> (r: Self)
        ensures
            r.name@ == name@,
            r.status@ == "fail"@,
            r.message matches Some(m) && m@ == message@,
    {
        HealthCheck {
            name: String::from_str(name),
            status: String::from_str("fail"),
            message: Some(String::from_str(message)),
        }
    }

    /// A check that was not run, and why.
    pub fn skip(name: &str, reason: &str) -> (r: Self)
        ensures
            r.name@ == name@,
            r.status@ == "skip"@,
            r.message matches Some(m) && m@ == reason@,
    {
        HealthCheck {
            name: String::from_str(name),
            status: String::from_str("skip"),
            message: Some(String::from_str(reason)),
        }
    }
}

/// Version payload.
#[derive(Debug, Clone)]
pub struct VersionData {
    pub name: String,
    pub version: String,
    pub git_hash: Option<String>,
    pub rust_version: String,
}

/// Placeholder checker type for a state built without one.
#[derive(Debug, Clone, Copy)]
pub struct NoReadyChecker;

/// State shared by the operational handlers.
pub struct CoreState<C: ?Sized> {
    pub build_info: Arc<BuildInfo>,
    pub ready_checker: Option<Arc<C>>,
    pub feature_response_envelope: bool,
}

impl CoreState<NoReadyChecker> {
    /// State without a readiness checker.
    pub fn new(build_info: BuildInfo, feature_response_envelope: bool) -> (r: Self)
        ensures
            *r.build_info == build_info,
            r.ready_checker is None,
            r.feature_response_envelope == feature_response_envelope,
    {
        CoreState {
            build_info: Arc::new(build_info),
            ready_checker: None,
            feature_response_envelope,
        }
    }
}

impl<C: ?Sized> CoreState<C> {
    /// The same state, asking `checker` for readiness.
    pub fn with_ready_checker<D: ?Sized>(self, checker: Arc<D>) -> (r: CoreState<D>)
        ensures
            r.build_info == self.build_info,
            r.ready_checker == Some(checker),
            r.feature_response_envelope == self.feature_response_envelope,
    {
        CoreState {
            build_info: self.build_info,
            ready_checker: Some(checker),
            feature_response_envelope: self.feature_response_envelope,
        }
    }

    /// The same state with no checker, typed for checkers of kind `D`.
    pub fn without_ready_checker<D: ?Sized>(self) -> (r: CoreState<D>)
        ensures
            r.build_info == self.build_info,
            r.ready_checker is None,
            r.feature_response_envelope == self.feature_response_envelope,
    {
        CoreState {
            build_info: self.build_info,
            ready_checker: None,
            feature_response_envelope: self.feature_response_envelope,
        }
    }
}

/// Body of an operational reply: the payload in an envelope, or bare.
#[derive(Debug, Clone)]
pub enum Body<T> {
    Envelope(ApiResponse<T>),
    Raw(T),
}

/// An operational reply: transport status and body.
#[derive(Debug, Clone)]
pub struct Reply<T> {
    pub code: u16,
    pub body: Body<T>,
}

/// `r` is a `200` reply carrying `data`: enveloped with `message` and the
/// request id when `envelope` holds, bare otherwise.
pub open spec fn replies_with<T>(
    r: Reply<T>,
    envelope: bool,
    data: T,
    message: Seq<char>,
    request_id: Option<String>,
) -> bool {
    &&& r.code == 200
    &&& if envelope {
        r.body matches Body::Envelope(e) && e.status@ == "success"@ && e.code == 200 && e.message@
            == message && e.data == Some(data) && e.request_id == request_id
    } else {
        r.body == Body::Raw(data)
    }
}

fn reply<T>(envelope: bool, data: T, message: &str, request_id: Option<String>) -> (r: Reply<T>)
    ensures
        replies_with(r, envelope, data, message@, request_id),
{
    if envelope {
        let e = ApiResponse::ok(data, message);
        let e = ApiResponse { request_id, ..e };
        Reply { code: 200, body: Body::Envelope(e) }
    } else {
        Reply { code: 200, body: Body::Raw(data) }
    }
}

/// Liveness payload: always `ok`.
pub open spec fn live_data(d: HealthData) -> bool {
    d.status@ == "ok"@
}

/// `GET /healthz`: the process can answer. Always `200`, whatever the
/// health of dependencies.
pub fn healthz<C: ?Sized>(state: &CoreState<C>, request_id: Option<String>) -> (r: Reply<
    HealthData,
>)
    ensures
        r.code == 200,
        exists|d: HealthData|
            live_data(d) && replies_with(
                r,
                state.feature_response_envelope,
                d,
                "Service is healthy"@,
                request_id,
            ),
{
    let data = HealthData { status: String::from_str("ok") };
    let ghost d = data;
    let r = reply(state.feature_response_envelope, data, "Service is healthy", request_id);
    assert(live_data(d));
    r
}

/// A sub-check counts as passing when its status is `ok` or `skip`.
pub open spec fn passes(c: HealthCheck) -> bool {
    c.status@ == "ok"@ || c.status@ == "skip"@
}

pub open spec fn all_pass(checks: Seq<HealthCheck>) -> bool {
    forall|i: int| 0 <= i < checks.len() ==> passes(#[trigger] checks[i])
}

/// The single entry reported when no checker is configured.
pub open spec fn unconfigured_check(c: HealthCheck) -> bool {
    &&& c.name@ == "infra"@
    &&& c.status@ == "skip"@
    &&& c.message matches Some(m) && m@ == "not configured"@
}

/// `d` aggregates `checks`: the same entries in the same order, overall
/// `ok` when every one passes and `degraded` otherwise. With no checker
/// (`None`) it holds one skipped entry and is `ok`.
pub open spec fn aggregates(d: ReadyData, checks: Option<Seq<HealthCheck>>) -> bool {
    match checks {
        Some(cs) => {
            &&& d.checks@ == cs
            &&& d.status@ == (if all_pass(cs) {
                "ok"@
            } else {
                "degraded"@
            })
        },
        None => {
            &&& d.checks@.len() == 1
            &&& unconfigured_check(d.checks@[0])
            &&& d.status@ == "ok"@
        },
    }
}

pub open spec fn opt_view(checks: Option<Vec<HealthCheck>>) -> Option<Seq<HealthCheck>> {
    match checks {
        Some(v) => Some(v@),
        None => None,
    }
}

/// Whether a sub-check passes.
pub fn check_passes(c: &HealthCheck) -> (r: bool)
    ensures
        r == passes(*c),
{
    c.status == String::from_str("ok") || c.status == String::from_str("skip")
}

/// Aggregates sub-check results; `None` means no checker is configured.
pub fn ready_report(checks: Option<Vec<HealthCheck>>) -> (r: ReadyData)
    ensures
        aggregates(r, opt_view(checks)),
{
    match checks {
        Some(cs) => {
            let mut ok = true;
            let mut k: usize = 0;
            while k < cs.len()
                invariant
                    k <= cs.len(),
                    ok == all_pass(cs@.subrange(0, k as int)),
                decreases cs.len() - k,
            {
                let p = check_passes(&cs[k]);
                proof {
                    let before = cs@.subrange(0, k as int);
                    let upto = cs@.subrange(0, k + 1);
                    assert(upto =~= before.push(cs@[k as int]));
                    if !p {
                        assert(!passes(upto[k as int]));
                    }
                }
                ok = ok && p;
                k = k + 1;
            }
            assert(cs@.subrange(0, cs.len() as int) =~= cs@);
            let status = if ok {
                String::from_str("ok")
            } else {
                String::from_str("degraded")
            };
            ReadyData { status, checks: cs }
        },
        None => {
            let c = HealthCheck::skip("infra", "not configured");
            let v = vec![c];
            ReadyData { status: String::from_str("ok"), checks: v }
        },
    }
}

/// `GET /readyz`: aggregated readiness. Always `200`; health is told by
/// the payload alone.
pub fn readyz<C: ?Sized>(
    state: &CoreState<C>,
    checks: Option<Vec<HealthCheck>>,
    request_id: Option<String>,
) -> (r: Reply<ReadyData>)
    ensures
        r.code == 200,
        exists|d: ReadyData|
            aggregates(d, opt_view(checks)) && replies_with(
                r,
                state.feature_response_envelope,
                d,
                if d.status@ == "ok"@ {
                    "Service is ready"@
                } else {
                    "Service is degraded"@
                },
                request_id,
            ),
{
    let data = ready_report(checks);
    let ghost d = data;
    let healthy = data.status == String::from_str("ok");
    let message = if healthy {
        "Service is ready"
    } else {
        "Service is degraded"
    };
    reply(state.feature_response_envelope, data, message, request_id)
}

/// A copy of an optional text.
pub fn copy_text(o: &Option<String>) -> (r: Option<String>)
    ensures
        r == *o,
{
    match o {
        Some(s) => Some(s.clone()),
        None => None,
    }
}

/// Version payload taken from the build identity.
pub open spec fn version_of(d: VersionData, b: BuildInfo) -> bool {
    &&& d.name == b.name
    &&& d.version == b.version
    &&& d.git_hash == b.git_sha
    &&& d.rust_version == b.rust_version
}

/// `GET /version`: the build identity, with no dependency calls.
pub fn version<C: ?Sized>(state: &CoreState<C>, request_id: Option<String>) -> (r: Reply<
    VersionData,
>)
    ensures
        r.code == 200,
        exists|d: VersionData|
            version_of(d, *state.build_info) && replies_with(
                r,
                state.feature_response_envelope,
                d,
                "Version information"@,
                request_id,
            ),
{
    let b = &state.build_info;
    let data = VersionData {
        name: b.name.clone(),
        version: b.version.clone(),
        git_hash: copy_text(&b.git_sha),
        rust_version: b.rust_version.clone(),
    };
    let ghost d = data;
    assert(version_of(d, *state.build_info));
    reply(state.feature_response_envelope, data, "Version information", request_id)
}

/// Liveness does not depend on readiness: whatever the sub-checks report,
/// degraded included, a liveness reply is a success.
pub proof fn lemma_liveness_independent_of_readiness<C: ?Sized>(
    state: CoreState<C>,
    ready: Reply<ReadyData>,
    live: Reply<HealthData>,
    checks: Option<Seq<HealthCheck>>,
    request_id: Option<String>,
)
    requires
        exists|d: ReadyData|
            aggregates(d, checks) && replies_with(
                ready,
                state.feature_response_envelope,
                d,
                if d.status@ == "ok"@ {
                    "Service is ready"@
                } else {
                    "Service is degraded"@
                },
                request_id,
            ),
        exists|d: HealthData|
            live_data(d) && replies_with(
                live,
                state.feature_response_envelope,
                d,
                "Service is healthy"@,
                request_id,
            ),
    ensures
        live.code == 200,
        ready.code == 200,
{
}

} // verus!

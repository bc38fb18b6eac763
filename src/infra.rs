//! Which backing services to bring up, and how their health reads.
//!
//! A toggle that asks for a service whose implementation is not linked in
//! fails fast with a clear message, before anything connects.
use vstd::prelude::*;

use crate::config::{CacheBackend, Config};
use crate::handlers::HealthCheck;

verus! {

/// The backend implementations linked into this build.
#[derive(Debug, Clone, Copy, PartialEq, Eq, Structural)]
pub struct Capabilities {
    pub db: bool,
    pub cache_moka: bool,
    pub cache_redis: bool,
    pub search: bool,
    pub broker: bool,
}

/// A service to bring up at startup.
#[derive(Debug, Clone, Copy, PartialEq, Eq, Structural)]
pub enum InfraStep {
    ConnectDatabase,
    StartMokaCache,
    ConnectRedisCache,
}

pub open spec fn db_missing() -> Seq<char> {
    "FEATURE_DB is enabled but 'db' cargo feature is disabled"@
}

pub open spec fn moka_missing() -> Seq<char> {
    "Cache backend 'moka' selected but 'cache-moka' cargo feature is disabled"@
}

pub open spec fn redis_missing() -> Seq<char> {
    "Cache backend 'redis' selected but 'cache-redis' cargo feature is disabled"@
}

pub open spec fn search_missing() -> Seq<char> {
    "FEATURE_SEARCH is enabled but 'meilisearch' cargo feature is disabled"@
}

pub open spec fn broker_missing() -> Seq<char> {
    "FEATURE_BROKER is enabled but 'nats' cargo feature is disabled"@
}

/// The outcome of planning startup for `c` with `caps`: the first
/// requested service that is not linked in, in the order database, cache,
/// search, broker, is an error; otherwise the steps to run.
pub open spec fn infra_outcome(c: Config, caps: Capabilities) -> Result<Seq<InfraStep>, Seq<char>> {
    let f = c.features;
    let moka = f.feature_cache && c.cache.cache_backend == CacheBackend::Moka;
    let redis = f.feature_cache && c.cache.cache_backend == CacheBackend::Redis;
    if f.feature_db && !caps.db {
        Err(db_missing())
    } else if moka && !caps.cache_moka {
        Err(moka_missing())
    } else if redis && !caps.cache_redis {
        Err(redis_missing())
    } else if f.feature_search && !caps.search {
        Err(search_missing())
    } else if f.feature_broker && !caps.broker {
        Err(broker_missing())
    } else {
        Ok(
            (if f.feature_db {
                seq![InfraStep::ConnectDatabase]
            } else {
                Seq::empty()
            }) + (if moka {
                seq![InfraStep::StartMokaCache]
            } else if redis {
                seq![InfraStep::ConnectRedisCache]
            } else {
                Seq::empty()
            }),
        )
    }
}

/// Decides what to bring up, or why startup must stop.
pub fn plan_infra(config: &Config, caps: Capabilities) -> (r: Result<Vec<InfraStep>, String>)
    ensures
        match (r, infra_outcome(*config, caps)) {
            (Ok(v), Ok(s)) => v@ == s,
            (Err(m), Err(e)) => m@ == e,
            _ => false,
        },
{
    let f = &config.features;
    let moka = f.feature_cache && config.cache.cache_backend == CacheBackend::Moka;
    let redis = f.feature_cache && config.cache.cache_backend == CacheBackend::Redis;
    if f.feature_db && !caps.db {
        return Err(String::from_str("FEATURE_DB is enabled but 'db' cargo feature is disabled"));
    }
    if moka && !caps.cache_moka {
        return Err(
            String::from_str(
                "Cache backend 'moka' selected but 'cache-moka' cargo feature is disabled",
            ),
        );
    }
    if redis && !caps.cache_redis {
        return Err(
            String::from_str(
                "Cache backend 'redis' selected but 'cache-redis' cargo feature is disabled",
            ),
        );
    }
    if f.feature_search && !caps.search {
        return Err(
            String::from_str("FEATURE_SEARCH is enabled but 'meilisearch' cargo feature is disabled"),
        );
    }
    if f.feature_broker && !caps.broker {
        return Err(
            String::from_str("FEATURE_BROKER is enabled but 'nats' cargo feature is disabled"),
        );
    }
    let mut steps: Vec<InfraStep> = Vec::new();
    if f.feature_db {
        steps.push(InfraStep::ConnectDatabase);
    }
    if moka {
        steps.push(InfraStep::StartMokaCache);
    } else if redis {
        steps.push(InfraStep::ConnectRedisCache);
    }
    let ghost expected = infra_outcome(*config, caps);
    assert(expected matches Ok(s) && steps@ =~= s);
    Ok(steps)
}

/// What is known of one backing service when readiness is asked.
#[derive(Debug, Clone)]
pub enum Probe {
    /// Its implementation is not linked in.
    NotCompiled,
    /// Linked in but not brought up.
    Disabled,
    /// It answered a ping.
    Reachable,
    /// Its ping failed with this message.
    Unreachable(String),
}

/// `c` reports `probe` under `name`.
pub open spec fn reports(c: HealthCheck, name: Seq<char>, probe: Probe) -> bool {
    &&& c.name@ == name
    &&& match probe {
        Probe::NotCompiled => c.status@ == "skip"@ && (c.message matches Some(m) && m@
            == "not-compiled"@),
        Probe::Disabled => c.status@ == "skip"@ && (c.message matches Some(m) && m@
            == "disabled"@),
        Probe::Reachable => c.status@ == "ok"@ && c.message is None,
        Probe::Unreachable(e) => c.status@ == "fail"@ && c.message == Some(e),
    }
}

/// The check that reports `probe` under `name`.
pub fn probe_check(name: &str, probe: &Probe) -> (r: HealthCheck)
    ensures
        reports(r, name@, *probe),
{
    match probe {
        Probe::NotCompiled => HealthCheck::skip(name, "not-compiled"),
        Probe::Disabled => HealthCheck::skip(name, "disabled"),
        Probe::Reachable => HealthCheck::ok(name),
        Probe::Unreachable(e) => {
            let c = HealthCheck::fail(name, e.as_str());
            HealthCheck { message: Some(e.clone()), ..c }
        },
    }
}

/// The readiness entries for the database and the cache, in that order.
pub fn infra_checks(db: &Probe, cache: &Probe) -> (r: Vec<HealthCheck>)
    ensures
        r@.len() == 2,
        reports(r@[0], "database"@, *db),
        reports(r@[1], "cache"@, *cache),
{
    let first = probe_check("database", db);
    let second = probe_check("cache", cache);
    vec![first, second]
}

} // verus!

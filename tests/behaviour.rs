use barrzen_axum::banner::{banner_lines, EnvVar};
use barrzen_axum::config::{parse_bool_text, AppConfig};
use barrzen_axum::handlers::{healthz, ready_report, readyz, version, Body};
use barrzen_axum::infra::{infra_checks, plan_infra, Capabilities, InfraStep, Probe};
use barrzen_axum::lifecycle::{Action, Event, Lifecycle, Phase, Trigger};
use barrzen_axum::obs::{parse_log_level, resolve_log_level, validate_log_backend, LogLevel};
use barrzen_axum::pipeline::{build_cors_policy, plan, security_headers, Middleware};
use barrzen_axum::request_log::{complete, forward, receive, HeaderField, RequestPhase};
use barrzen_axum::text::{comma_list, decimal_string, trim};
use barrzen_axum::{
    ApiError, ApiResponse, BannerConfig, BuildInfo, CacheBackend, CacheConfig, Config,
    ConfigError, CoreState, CorsConfig, Environment, FeatureFlags, HealthCheck, HttpConfig,
    LogBackend, LogFormat, LoggingConfig,
};

fn sample_config() -> Config {
    Config {
        app: AppConfig {
            app_name: "test-app".to_string(),
            app_env: Environment::Dev,
            app_host: "127.0.0.1".to_string(),
            app_port: 8080,
            app_debug: true,
            app_shutdown_grace_seconds: 5,
        },
        features: FeatureFlags {
            feature_startup_banner: true,
            feature_db: false,
            feature_cache: false,
            feature_search: false,
            feature_broker: false,
            feature_openapi: false,
            feature_request_log: true,
            feature_tracing: true,
            feature_otel: false,
            feature_cors: false,
            feature_session: false,
            feature_response_envelope: true,
        },
        http: HttpConfig { http_body_limit_bytes: 1024, http_request_timeout_seconds: 15 },
        logging: LoggingConfig {
            log_level: "info".to_string(),
            log_format: LogFormat::Pretty,
            log_backend: LogBackend::Tracing,
            log_include_target: false,
            log_include_fileline: false,
            request_log_headers_allowlist: None,
            request_log_headers_denylist: "authorization, Cookie,bad header,,x-api-key".to_string(),
        },
        cache: CacheConfig {
            cache_backend: CacheBackend::Moka,
            cache_ttl_seconds: 300,
            cache_max_entries: 50_000,
            cache_redis_url: None,
            cache_redis_pool_size: 20,
            cache_redis_connect_timeout_seconds: 5,
        },
        cors: CorsConfig {
            cors_allow_origins: Some("http://a.example, bad\u{7}origin ,http://b.example".to_string()),
            cors_allow_methods: "GET, P OST,DELETE".to_string(),
            cors_allow_headers: "content-type,x(y)".to_string(),
            cors_allow_credentials: true,
            cors_max_age_seconds: 600,
        },
        banner: BannerConfig {
            banner_show_secrets: false,
            banner_show_env_vars: true,
            banner_env_allowlist: None,
        },
    }
}

fn kinds(layers: &[Middleware]) -> Vec<&'static str> {
    layers
        .iter()
        .map(|m| match m {
            Middleware::Compression => "compression",
            Middleware::SecurityHeaders => "security",
            Middleware::BodyLimit { .. } => "limit",
            Middleware::Tracing => "tracing",
            Middleware::RequestLog { .. } => "log",
            Middleware::SensitiveHeaders { .. } => "sensitive",
            Middleware::PropagateRequestId => "propagate",
            Middleware::SetRequestId => "set_id",
            Middleware::Cors { .. } => "cors",
        })
        .collect()
}

#[test]
fn readiness_ok_and_skip_is_ok() {
    let d = ready_report(Some(vec![HealthCheck::ok("db"), HealthCheck::skip("cache", "off")]));
    assert_eq!(d.status, "ok");
    assert_eq!(d.checks.len(), 2);
}

#[test]
fn readiness_ok_and_fail_is_degraded() {
    let d = ready_report(Some(vec![HealthCheck::ok("db"), HealthCheck::fail("cache", "down")]));
    assert_eq!(d.status, "degraded");
    assert_eq!(d.checks[1].message.as_deref(), Some("down"));
}

#[test]
fn readiness_without_checker_has_one_skip() {
    let d = ready_report(None);
    assert_eq!(d.status, "ok");
    assert_eq!(d.checks.len(), 1);
    assert_eq!(d.checks[0].name, "infra");
    assert_eq!(d.checks[0].status, "skip");
    assert_eq!(d.checks[0].message.as_deref(), Some("not configured"));
}

#[test]
fn readiness_empty_checker_list_is_ok() {
    let d = ready_report(Some(Vec::new()));
    assert_eq!(d.status, "ok");
    assert!(d.checks.is_empty());
}

#[test]
fn liveness_succeeds_while_degraded() {
    let state = CoreState::new(BuildInfo::new("svc", "1.0.0", None, "1.75.0", None), true);
    let ready = readyz(&state, Some(vec![HealthCheck::fail("db", "refused")]), None);
    assert_eq!(ready.code, 200);
    match &ready.body {
        Body::Envelope(e) => {
            assert_eq!(e.message, "Service is degraded");
            assert_eq!(e.data.as_ref().unwrap().status, "degraded");
        }
        Body::Raw(_) => panic!("expected an envelope"),
    }
    let live = healthz(&state, None);
    assert_eq!(live.code, 200);
}

#[test]
fn healthz_enveloped_scenario() {
    let mut config = sample_config();
    config.features.feature_cors = false;
    config.features.feature_response_envelope = true;
    let state = CoreState::new(BuildInfo::default(), config.features.feature_response_envelope);
    let reply = healthz(&state, Some("rid-1".to_string()));
    assert_eq!(reply.code, 200);
    match reply.body {
        Body::Envelope(e) => {
            assert_eq!(e.status, "success");
            assert_eq!(e.code, 200);
            assert_eq!(e.message, "Service is healthy");
            assert_eq!(e.data.unwrap().status, "ok");
            assert_eq!(e.request_id.as_deref(), Some("rid-1"));
            assert!(e.timestamp.unix_seconds > 1_600_000_000);
        }
        Body::Raw(_) => panic!("expected an envelope"),
    }
}

#[test]
fn version_raw_without_envelope() {
    let build = BuildInfo::new("svc", "2.3.4", Some("abc".to_string()), "1.80.0", None);
    let state = CoreState::new(build, false);
    let reply = version(&state, Some("rid".to_string()));
    assert_eq!(reply.code, 200);
    match reply.body {
        Body::Raw(v) => {
            assert_eq!(v.name, "svc");
            assert_eq!(v.version, "2.3.4");
            assert_eq!(v.git_hash.as_deref(), Some("abc"));
            assert_eq!(v.rust_version, "1.80.0");
        }
        Body::Envelope(_) => panic!("expected a bare payload"),
    }
}

#[test]
fn plan_order_with_everything_on() {
    let mut config = sample_config();
    config.features.feature_cors = true;
    let layers = plan(&config);
    assert_eq!(
        kinds(&layers),
        vec!["compression", "security", "limit", "tracing", "log", "sensitive", "propagate", "set_id", "cors"]
    );
}

#[test]
fn plan_without_optional_layers() {
    let mut config = sample_config();
    config.features.feature_tracing = false;
    config.features.feature_request_log = false;
    config.features.feature_cors = false;
    let layers = plan(&config);
    assert_eq!(
        kinds(&layers),
        vec!["compression", "security", "limit", "sensitive", "propagate", "set_id"]
    );
}

#[test]
fn plan_is_repeatable() {
    let config = sample_config();
    assert_eq!(kinds(&plan(&config)), kinds(&plan(&config)));
}

#[test]
fn plan_carries_settings() {
    let mut config = sample_config();
    config.logging.log_backend = LogBackend::FastLog;
    let layers = plan(&config);
    for layer in &layers {
        match layer {
            Middleware::BodyLimit { max_bytes } => assert_eq!(*max_bytes, 1024),
            Middleware::RequestLog { backend } => assert_eq!(*backend, LogBackend::FastLog),
            Middleware::SensitiveHeaders { names } => {
                assert_eq!(names, &vec!["authorization", "Cookie", "x-api-key"])
            }
            _ => {}
        }
    }
}

#[test]
fn cors_policy_drops_invalid_entries() {
    let config = sample_config();
    let policy = build_cors_policy(&config.cors);
    assert_eq!(policy.methods, vec!["GET", "DELETE"]);
    assert_eq!(policy.headers, vec!["content-type"]);
    assert_eq!(policy.origins, vec!["http://a.example", "http://b.example"]);
    assert_eq!(policy.max_age_seconds, 600);
    assert!(policy.allow_credentials);
    assert!(policy.allows_origin("http://b.example"));
    assert!(!policy.allows_origin("http://evil.example"));
}

#[test]
fn cors_disabled_has_no_cors_layer() {
    let config = sample_config();
    let layers = plan(&config);
    assert!(!kinds(&layers).contains(&"cors"));
}

#[test]
fn security_headers_are_fixed() {
    assert_eq!(
        security_headers(),
        vec![
            ("x-content-type-options", "nosniff"),
            ("x-frame-options", "DENY"),
            ("x-xss-protection", "1; mode=block"),
            ("referrer-policy", "strict-origin-when-cross-origin"),
        ]
    );
}

fn headers(secret: &str) -> Vec<HeaderField> {
    vec![
        HeaderField { name: "authorization".to_string(), value: Some(secret.to_string()) },
        HeaderField { name: "x-request-id".to_string(), value: Some("req-42".to_string()) },
        HeaderField { name: "x-request-id".to_string(), value: Some("later".to_string()) },
    ]
}

fn record_line(hs: &Vec<HeaderField>) -> String {
    let phase = forward(receive("GET", "/items", hs));
    match complete(phase, Some(201), 37) {
        RequestPhase::Completed(Some(rec)) => rec.render(),
        _ => panic!("expected a record"),
    }
}

#[test]
fn request_record_renders_fields() {
    assert_eq!(
        record_line(&headers("Bearer abc")),
        "request completed request_id=req-42 method=GET path=/items status=201 latency_ms=37"
    );
}

#[test]
fn request_record_hides_sensitive_values() {
    let a = record_line(&headers("Bearer first-secret"));
    let b = record_line(&headers("Bearer second-secret"));
    assert_eq!(a, b);
    assert!(!a.contains("secret"));
}

#[test]
fn request_without_correlation_header_logs_empty_id() {
    let phase = forward(receive("POST", "/", &Vec::new()));
    match complete(phase, Some(200), u128::MAX) {
        RequestPhase::Completed(Some(rec)) => {
            assert_eq!(rec.request_id, "");
            assert_eq!(rec.latency_ms, u64::MAX);
        }
        _ => panic!("expected a record"),
    }
}

#[test]
fn transport_error_emits_no_record() {
    let phase = forward(receive("GET", "/", &headers("x")));
    assert!(matches!(complete(phase, None, 5), RequestPhase::Completed(None)));
}

#[test]
fn shutdown_scenario_with_grace() {
    let mut life = Lifecycle::new(5);
    assert!(life.accepts_connections());
    assert_eq!(
        life.step(Event::Signal(Trigger::Interrupt), 1_000),
        Action::BeginDrain { trigger: Trigger::Interrupt, grace_seconds: 5 }
    );
    assert!(!life.accepts_connections());
    assert_eq!(life.step(Event::Tick, 3_000), Action::Wait);
    assert_eq!(life.step(Event::Drained, 4_000), Action::Exit { forced: false });
    assert_eq!(life.phase, Phase::Stopped { forced: false });
}

#[test]
fn shutdown_forced_after_grace() {
    let mut life = Lifecycle::new(5);
    life.step(Event::Signal(Trigger::Terminate), 0);
    assert_eq!(life.step(Event::Tick, 4_999), Action::Wait);
    assert_eq!(life.step(Event::Tick, 5_000), Action::Exit { forced: true });
}

#[test]
fn failed_handler_never_stops_server() {
    let mut life = Lifecycle::new(1);
    assert_eq!(life.step(Event::SignalUnavailable(Trigger::Terminate), 0), Action::Wait);
    assert_eq!(life.step(Event::Tick, 1_000_000), Action::Wait);
    assert!(life.accepts_connections());
    assert_eq!(
        life.step(Event::Signal(Trigger::Interrupt), 10),
        Action::BeginDrain { trigger: Trigger::Interrupt, grace_seconds: 1 }
    );
}

#[test]
fn grace_deadline_saturates() {
    let mut life = Lifecycle::new(u64::MAX);
    life.step(Event::Signal(Trigger::Interrupt), 10);
    assert_eq!(life.phase, Phase::Draining { trigger: Trigger::Interrupt, deadline_ms: u64::MAX });
}

#[test]
fn text_helpers() {
    assert_eq!(trim("  \t a b \u{3000}"), "a b");
    assert_eq!(trim("   "), "");
    assert_eq!(comma_list(" a ,, b,"), vec!["a", "b"]);
    assert!(comma_list("").is_empty());
    assert_eq!(decimal_string(0), "0");
    assert_eq!(decimal_string(u64::MAX), "18446744073709551615");
}

#[test]
fn bool_text_words() {
    assert_eq!(parse_bool_text(" YES "), Some(true));
    assert_eq!(parse_bool_text("Off"), Some(false));
    assert_eq!(parse_bool_text("maybe"), None);
}

#[test]
fn log_level_parsing_and_resolution() {
    assert_eq!(parse_log_level(" WARNING "), Some(LogLevel::Warn));
    assert_eq!(parse_log_level("verbose"), None);
    assert_eq!(resolve_log_level("nonsense", None), LogLevel::Info);
    assert_eq!(
        resolve_log_level("warn", Some("hyper=error, my_app=DEBUG,,bogus".to_string())),
        LogLevel::Debug
    );
    assert_eq!(resolve_log_level("trace", Some("error".to_string())), LogLevel::Trace);
}

#[test]
fn fast_log_with_otel_is_refused() {
    let mut config = sample_config();
    config.logging.log_backend = LogBackend::FastLog;
    config.features.feature_otel = true;
    match validate_log_backend(&config) {
        Err(ConfigError::Validation(m)) => {
            assert_eq!(m, "LOG_BACKEND=fast_log is not compatible with FEATURE_OTEL=true")
        }
        _ => panic!("expected a validation error"),
    }
    config.features.feature_otel = false;
    assert_eq!(validate_log_backend(&config), Ok(LogBackend::FastLog));
}

#[test]
fn config_error_messages() {
    assert_eq!(ConfigError::Parse("x".to_string()).message(), "Configuration parse error: x");
    assert_eq!(
        ConfigError::Validation("y".to_string()).message(),
        "Configuration validation error: y"
    );
}

#[test]
fn infra_plan_and_errors() {
    let mut config = sample_config();
    let all = Capabilities { db: true, cache_moka: true, cache_redis: true, search: true, broker: true };
    config.features.feature_cache = true;
    config.features.feature_db = true;
    assert_eq!(
        plan_infra(&config, all),
        Ok(vec![InfraStep::ConnectDatabase, InfraStep::StartMokaCache])
    );
    let none = Capabilities { db: false, cache_moka: false, cache_redis: false, search: false, broker: false };
    assert_eq!(
        plan_infra(&config, none),
        Err("FEATURE_DB is enabled but 'db' cargo feature is disabled".to_string())
    );
    config.features.feature_db = false;
    assert_eq!(
        plan_infra(&config, none),
        Err("Cache backend 'moka' selected but 'cache-moka' cargo feature is disabled".to_string())
    );
    config.cache.cache_backend = CacheBackend::Redis;
    assert_eq!(
        plan_infra(&config, none),
        Err("Cache backend 'redis' selected but 'cache-redis' cargo feature is disabled".to_string())
    );
    config.features.feature_cache = false;
    config.features.feature_search = true;
    assert_eq!(
        plan_infra(&config, none),
        Err("FEATURE_SEARCH is enabled but 'meilisearch' cargo feature is disabled".to_string())
    );
    config.features.feature_search = false;
    config.features.feature_broker = true;
    assert_eq!(
        plan_infra(&config, none),
        Err("FEATURE_BROKER is enabled but 'nats' cargo feature is disabled".to_string())
    );
}

#[test]
fn infra_checks_report_probes() {
    let checks = infra_checks(&Probe::NotCompiled, &Probe::Unreachable("timeout".to_string()));
    assert_eq!(checks[0].name, "database");
    assert_eq!(checks[0].status, "skip");
    assert_eq!(checks[0].message.as_deref(), Some("not-compiled"));
    assert_eq!(checks[1].status, "fail");
    assert_eq!(checks[1].message.as_deref(), Some("timeout"));
    let ok = infra_checks(&Probe::Reachable, &Probe::Disabled);
    assert_eq!(ok[0].status, "ok");
    assert_eq!(ok[1].message.as_deref(), Some("disabled"));
}

#[test]
fn banner_lists_sorted_redacted_vars() {
    let config = sample_config();
    let build = BuildInfo::new("svc", "1.2.3", None, "1.80.0", None);
    let vars = vec![
        EnvVar { key: "HTTP_PORT".to_string(), value: "8080".to_string() },
        EnvVar { key: "HOME".to_string(), value: "/root".to_string() },
        EnvVar { key: "APP_SECRET".to_string(), value: "hunter22".to_string() },
    ];
    let lines = banner_lines(&config, &build, "127.0.0.1:8080", &vars);
    assert_eq!(lines.len(), 32 + 2 + 2);
    assert_eq!(lines[4], "║  Version: 1.2.3 (unknown)");
    assert_eq!(lines[11], "║  Address: 127.0.0.1:8080");
    assert_eq!(lines[16], "║  Cache:       ❌ OFF");
    assert_eq!(lines[27], "║  Body Limit:  1 KB");
    assert_eq!(lines[28], "║  Timeout:     15s");
    assert_eq!(lines[32], "║  APP_SECRET=hunt****");
    assert_eq!(lines[33], "║  HTTP_PORT=****");
    assert_eq!(lines[35], "");
}

#[test]
fn banner_disabled_is_empty() {
    let mut config = sample_config();
    config.features.feature_startup_banner = false;
    assert!(banner_lines(&config, &BuildInfo::default(), "x", &Vec::new()).is_empty());
}

#[test]
fn banner_allowlist_and_hidden_vars() {
    let mut config = sample_config();
    config.banner.banner_env_allowlist = Some("HOME".to_string());
    config.banner.banner_show_secrets = true;
    let vars = vec![EnvVar { key: "HOME".to_string(), value: "/root".to_string() }];
    let lines = banner_lines(&config, &BuildInfo::default(), "x", &vars);
    assert_eq!(lines[32], "║  HOME=/root");
    config.banner.banner_show_env_vars = false;
    let lines = banner_lines(&config, &BuildInfo::default(), "x", &vars);
    assert_eq!(lines[32], "║  (disabled — set BANNER_SHOW_ENV_VARS=true)");
    config.banner.banner_show_env_vars = true;
    let lines = banner_lines(&config, &BuildInfo::default(), "x", &Vec::new());
    assert_eq!(lines[32], "║  (no matching env vars)");
}

#[test]
fn envelopes_and_errors() {
    let created = ApiResponse::created(5u8, "made").with_request_id("r");
    assert_eq!(created.code, 201);
    assert_eq!(created.request_id.as_deref(), Some("r"));
    assert_eq!(ApiResponse::with_status(202, (), "queued").code, 202);
    assert_eq!(ApiError::bad_request("m").code, 400);
    assert_eq!(ApiError::unauthorized("m").code, 401);
    assert_eq!(ApiError::forbidden("m").code, 403);
    assert_eq!(ApiError::internal("m").code, 500);
    let e = ApiError::service_unavailable("m").with_details("d").with_request_id("r");
    assert_eq!(e.code, 503);
    assert_eq!(e.details.as_deref(), Some("d"));
    assert_eq!(e.request_id.as_deref(), Some("r"));
}

#[test]
fn build_info_fallbacks_and_timeout() {
    let b = BuildInfo::with_fallbacks(None, None, None, "1.80.0", None);
    assert_eq!(b.name, "unknown");
    assert_eq!(b.version, "0.0.0");
    let config = sample_config();
    assert_eq!(config.http.request_timeout(), std::time::Duration::from_secs(15));
    assert!(!config.is_production());
}

use barrzen_axum::banner::{env_badge, format_bytes};
use barrzen_axum::config::redact_secret;
use barrzen_axum::{
    ApiError, ApiResponse, BuildInfo, CacheBackend, CoreState, CorsConfig, Environment,
    HealthCheck, LogFormat,
};

#[test]
fn test_format_bytes() {
    assert_eq!(format_bytes(512), "512 B");
    assert_eq!(format_bytes(2048), "2 KB");
    assert_eq!(format_bytes(1_048_576), "1 MB");
    assert_eq!(format_bytes(2_097_152), "2 MB");
}

#[test]
fn test_env_badge() {
    assert!(env_badge(Environment::Dev).contains("DEV"));
    assert!(env_badge(Environment::Stage).contains("STAGE"));
    assert!(env_badge(Environment::Prod).contains("PROD"));
}

#[test]
fn test_build_info_new() {
    let info = BuildInfo::new(
        "test-app",
        "1.0.0",
        Some("abc123".to_string()),
        "1.75.0",
        Some("2024-01-01T00:00:00Z".to_string()),
    );
    assert_eq!(info.name, "test-app");
    assert_eq!(info.version, "1.0.0");
    assert_eq!(info.git_sha, Some("abc123".to_string()));
}

#[test]
fn test_build_info_default() {
    let info = BuildInfo::default();
    assert!(info.name.is_empty());
    assert!(info.version.is_empty());
}

#[test]
fn test_cors_origins_parsing() {
    let cors = CorsConfig {
        cors_allow_origins: Some("http://localhost:3000, http://example.com".to_string()),
        cors_allow_methods: "GET,POST".to_string(),
        cors_allow_headers: "content-type".to_string(),
        cors_allow_credentials: false,
        cors_max_age_seconds: 600,
    };

    assert_eq!(
        cors.origins(),
        vec!["http://localhost:3000", "http://example.com"]
    );
    assert_eq!(cors.methods(), vec!["GET", "POST"]);
}

#[test]
fn test_redact_secret_short() {
    assert_eq!(redact_secret("abc"), "****");
    assert_eq!(redact_secret("1234"), "****");
}

#[test]
fn test_redact_secret_long() {
    assert_eq!(redact_secret("abcdefgh"), "abcd****");
    assert_eq!(redact_secret("my-super-secret-key"), "my-s****");
}

#[test]
fn test_health_check_ok() {
    let check = HealthCheck::ok("test");
    assert_eq!(check.status, "ok");
    assert!(check.message.is_none());
}

#[test]
fn test_health_check_fail() {
    let check = HealthCheck::fail("test", "connection refused");
    assert_eq!(check.status, "fail");
    assert!(check.message.is_some());
}

#[test]
fn test_core_state_creation() {
    let build = BuildInfo::new("test", "1.0.0", None, "1.75.0", None);
    let state = CoreState::new(build, true);
    assert!(state.ready_checker.is_none());
}

#[test]
fn core_crate_compiles() {
    let _ = Environment::Dev;
    let _ = LogFormat::Pretty;
    let _ = CacheBackend::Moka;
    let _ = BuildInfo::default();
}

#[test]
fn test_api_response_ok() {
    let response = ApiResponse::ok("data", "Success");
    assert_eq!(response.status, "success");
    assert_eq!(response.code, 200);
    assert_eq!(response.message, "Success");
}

#[test]
fn test_api_error_not_found() {
    let error = ApiError::not_found("Resource not found");
    assert_eq!(error.status, "error");
    assert_eq!(error.code, 404);
}

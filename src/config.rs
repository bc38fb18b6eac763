//! Typed configuration consumed by the pipeline, handlers and banner.
//!
//! Values arrive already parsed; the helpers here only interpret them.
use vstd::prelude::*;

use crate::text::{comma_items, comma_list, trimmed, trim};

verus! {

/// Deployment environment.
#[derive(Debug, Clone, Copy, PartialEq, Eq, Structural)]
pub enum Environment {
    Dev,
    Stage,
    Prod,
}

impl Environment {
    /// Lower-case name, as written in configuration.
    pub fn as_str(&self) -> (r: &'static str)
        ensures
            r@ == self.name_spec(),
    {
        match self {
            Environment::Dev => "dev",
            Environment::Stage => "stage",
            Environment::Prod => "prod",
        }
    }

    pub open spec fn name_spec(&self) -> Seq<char> {
        match self {
            Environment::Dev => "dev"@,
            Environment::Stage => "stage"@,
            Environment::Prod => "prod"@,
        }
    }
}

impl Default for Environment {
    fn default() -> (r: Self)
        ensures
            r == Environment::Dev,
    {
        Environment::Dev
    }
}

/// Core application settings.
#[derive(Debug, Clone)]
pub struct AppConfig {
    pub app_name: String,
    pub app_env: Environment,
    pub app_host: String,
    pub app_port: u16,
    pub app_debug: bool,
    pub app_shutdown_grace_seconds: u64,
}

pub fn default_app_name() -> (r: String)
    ensures
        r@ == "barrzen-app"@,
{
    String::from_str("barrzen-app")
}

pub fn default_host() -> (r: String)
    ensures
        r@ == "0.0.0.0"@,
{
    String::from_str("0.0.0.0")
}

pub fn default_port() -> (r: u16)
    ensures
        r == 8080,
{
    8080
}

pub fn default_shutdown_grace() -> (r: u64)
    ensures
        r == 10,
{
    10
}

/// Runtime feature toggles, read once when the pipeline is assembled.
#[derive(Debug, Clone)]
pub struct FeatureFlags {
    pub feature_startup_banner: bool,
    pub feature_db: bool,
    pub feature_cache: bool,
    pub feature_search: bool,
    pub feature_broker: bool,
    pub feature_openapi: bool,
    pub feature_request_log: bool,
    pub feature_tracing: bool,
    pub feature_otel: bool,
    pub feature_cors: bool,
    pub feature_session: bool,
    pub feature_response_envelope: bool,
}

pub fn default_true() -> (r: bool)
    ensures
        r,
{
    true
}

/// HTTP server settings.
#[derive(Debug, Clone)]
pub struct HttpConfig {
    pub http_body_limit_bytes: usize,
    pub http_request_timeout_seconds: u64,
}

/// Relies on `Duration::from_secs`: a span of whole seconds.
#[verifier::external_body]
fn duration_from_secs(secs: u64) -> std::time::Duration {
    std::time::Duration::from_secs(secs)
}

impl HttpConfig {
    /// The request timeout as a `Duration`.
    pub fn request_timeout(&self) -> std::time::Duration {
        duration_from_secs(self.http_request_timeout_seconds)
    }
}

pub fn default_body_limit() -> (r: usize)
    ensures
        r == 1_048_576,
{
    1_048_576
}

pub fn default_request_timeout() -> (r: u64)
    ensures
        r == 15,
{
    15
}

/// Console rendering of log lines.
#[derive(Debug, Clone, Copy, PartialEq, Eq, Structural)]
pub enum LogFormat {
    Pretty,
    Compact,
    Json,
}

impl Default for LogFormat {
    fn default() -> (r: Self)
        ensures
            r == LogFormat::Pretty,
    {
        LogFormat::Pretty
    }
}

/// Which logging facade receives request records.
#[derive(Debug, Clone, Copy, PartialEq, Eq, Structural)]
pub enum LogBackend {
    Tracing,
    FastLog,
}

impl Default for LogBackend {
    fn default() -> (r: Self)
        ensures
            r == LogBackend::Tracing,
    {
        LogBackend::Tracing
    }
}

/// Logging configuration.
#[derive(Debug, Clone)]
pub struct LoggingConfig {
    pub log_level: String,
    pub log_format: LogFormat,
    pub log_backend: LogBackend,
    pub log_include_target: bool,
    pub log_include_fileline: bool,
    pub request_log_headers_allowlist: Option<String>,
    pub request_log_headers_denylist: String,
}

pub fn default_log_level() -> (r: String)
    ensures
        r@ == "info"@,
{
    String::from_str("info")
}

pub fn default_headers_denylist() -> (r: String)
    ensures
        r@ == "authorization,cookie,set-cookie,x-api-key"@,
{
    String::from_str("authorization,cookie,set-cookie,x-api-key")
}

/// Cache backend selection.
#[derive(Debug, Clone, Copy, PartialEq, Eq, Structural)]
pub enum CacheBackend {
    Off,
    Moka,
    Redis,
}

impl CacheBackend {
    /// Lower-case name, as written in configuration.
    pub fn as_str(&self) -> (r: &'static str)
        ensures
            r@ == self.name_spec(),
    {
        match self {
            CacheBackend::Off => "none",
            CacheBackend::Moka => "moka",
            CacheBackend::Redis => "redis",
        }
    }

    pub open spec fn name_spec(&self) -> Seq<char> {
        match self {
            CacheBackend::Off => "none"@,
            CacheBackend::Moka => "moka"@,
            CacheBackend::Redis => "redis"@,
        }
    }
}

impl Default for CacheBackend {
    fn default() -> (r: Self)
        ensures
            r == CacheBackend::Moka,
    {
        CacheBackend::Moka
    }
}

/// Cache configuration.
#[derive(Debug, Clone)]
pub struct CacheConfig {
    pub cache_backend: CacheBackend,
    pub cache_ttl_seconds: u64,
    pub cache_max_entries: u64,
    pub cache_redis_url: Option<String>,
    pub cache_redis_pool_size: usize,
    pub cache_redis_connect_timeout_seconds: u64,
}

pub fn default_cache_ttl() -> (r: u64)
    ensures
        r == 300,
{
    300
}

pub fn default_cache_max_entries() -> (r: u64)
    ensures
        r == 50_000,
{
    50_000
}

pub fn default_redis_pool_size() -> (r: usize)
    ensures
        r == 20,
{
    20
}

pub fn default_connect_timeout() -> (r: u64)
    ensures
        r == 5,
{
    5
}

/// CORS configuration; list fields are comma separated.
#[derive(Debug, Clone)]
pub struct CorsConfig {
    pub cors_allow_origins: Option<String>,
    pub cors_allow_methods: String,
    pub cors_allow_headers: String,
    pub cors_allow_credentials: bool,
    pub cors_max_age_seconds: u64,
}

impl CorsConfig {
    /// The configured origins, trimmed, without empty entries.
    pub fn origins(&self) -> (r: Vec<String>)
        ensures
            r.deep_view() == (match self.cors_allow_origins {
                Some(s) => comma_items(s@),
                None => Seq::empty(),
            }),
    {
        match &self.cors_allow_origins {
            Some(s) => comma_list(s.as_str()),
            None => {
                let r: Vec<String> = Vec::new();
                assert(r.deep_view() =~= Seq::<Seq<char>>::empty());
                r
            },
        }
    }

    /// The configured methods, trimmed, without empty entries.
    pub fn methods(&self) -> (r: Vec<String>)
        ensures
            r.deep_view() == comma_items(self.cors_allow_methods@),
    {
        comma_list(self.cors_allow_methods.as_str())
    }

    /// The configured request headers, trimmed, without empty entries.
    pub fn headers(&self) -> (r: Vec<String>)
        ensures
            r.deep_view() == comma_items(self.cors_allow_headers@),
    {
        comma_list(self.cors_allow_headers.as_str())
    }
}

pub fn default_cors_methods() -> (r: String)
    ensures
        r@ == "GET,POST,PUT,PATCH,DELETE,OPTIONS"@,
{
    String::from_str("GET,POST,PUT,PATCH,DELETE,OPTIONS")
}

pub fn default_cors_headers() -> (r: String)
    ensures
        r@ == "content-type,authorization"@,
{
    String::from_str("content-type,authorization")
}

pub fn default_cors_max_age() -> (r: u64)
    ensures
        r == 600,
{
    600
}

/// Startup banner display settings.
#[derive(Debug, Clone)]
pub struct BannerConfig {
    pub banner_show_secrets: bool,
    pub banner_show_env_vars: bool,
    pub banner_env_allowlist: Option<String>,
}

/// The whole application configuration.
#[derive(Debug, Clone)]
pub struct Config {
    pub app: AppConfig,
    pub features: FeatureFlags,
    pub http: HttpConfig,
    pub logging: LoggingConfig,
    pub cache: CacheConfig,
    pub cors: CorsConfig,
    pub banner: BannerConfig,
}

impl Config {
    /// Whether the environment is production.
    pub fn is_production(&self) -> (r: bool)
        ensures
            r == (self.app.app_env == Environment::Prod),
    {
        self.app.app_env == Environment::Prod
    }
}

/// Configuration failures.
#[derive(Debug, Clone, PartialEq, Eq)]
pub enum ConfigError {
    Parse(String),
    Validation(String),
}

impl ConfigError {
    /// Human-readable description of the error.
    pub fn message(&self) -> (r: String)
        ensures
            r@ == self.message_spec(),
    {
        match self {
            ConfigError::Parse(m) => String::from_str("Configuration parse error: ").concat(
                m.as_str(),
            ),
            ConfigError::Validation(m) => String::from_str(
                "Configuration validation error: ",
            ).concat(m.as_str()),
        }
    }

    pub open spec fn message_spec(&self) -> Seq<char> {
        match self {
            ConfigError::Parse(m) => "Configuration parse error: "@ + m@,
            ConfigError::Validation(m) => "Configuration validation error: "@ + m@,
        }
    }
}

/// `value` masked for display: its first four characters followed by
/// `****`, or `****` alone when it has at most four characters.
pub open spec fn redacted(value: Seq<char>) -> Seq<char> {
    if value.len() <= 4 {
        "****"@
    } else {
        value.subrange(0, 4) + "****"@
    }
}

/// Masks a secret for display.
pub fn redact_secret(value: &str) -> (r: String)
    ensures
        r@ == redacted(value@),
{
    let n = value.unicode_len();
    if n <= 4 {
        String::from_str("****")
    } else {
        String::from_str(value.substring_char(0, 4)).concat("****")
    }
}

/// The text of a boolean setting: `true`, `1`, `yes`, `y`, `on` and
/// `false`, `0`, `no`, `n`, `off`, compared after lower-casing.
pub open spec fn bool_word(word: Seq<char>) -> Option<bool> {
    if word == "true"@ || word == "1"@ || word == "yes"@ || word == "y"@ || word == "on"@ {
        Some(true)
    } else if word == "false"@ || word == "0"@ || word == "no"@ || word == "n"@ || word
        == "off"@ {
        Some(false)
    } else {
        None
    }
}

/// Reads an already lower-cased boolean word.
pub fn bool_from_lowercase(word: &str) -> (r: Option<bool>)
    ensures
        r == bool_word(word@),
{
    let w = String::from_str(word);
    if w == String::from_str("true") || w == String::from_str("1") || w == String::from_str("yes")
        || w == String::from_str("y") || w == String::from_str("on") {
        Some(true)
    } else if w == String::from_str("false") || w == String::from_str("0") || w
        == String::from_str("no") || w == String::from_str("n") || w == String::from_str("off") {
        Some(false)
    } else {
        None
    }
}

/// Reads a boolean setting written as text; surrounding white space and
/// letter case are ignored.
pub fn parse_bool_text(value: &str) -> (r: Option<bool>)
    ensures
        r == bool_word(crate::text::lowercase_of(trimmed(value@))),
{
    let t = trim(value);
    let lower = crate::text::lowercase(t.as_str());
    bool_from_lowercase(lower.as_str())
}

} // verus!

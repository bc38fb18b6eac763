//! Application shell for HTTP services: configuration model, middleware
//! planning, operational endpoints, request logging and shutdown decisions.
pub mod banner;
pub mod build_info;
pub mod config;
pub mod handlers;
pub mod infra;
pub mod lifecycle;
pub mod obs;
pub mod pipeline;
pub mod request_log;
pub mod response;
pub mod text;

pub use build_info::BuildInfo;
pub use config::{
    AppConfig, BannerConfig, CacheBackend, CacheConfig, Config, ConfigError, CorsConfig,
    Environment, FeatureFlags, HttpConfig, LogBackend, LogFormat, LoggingConfig,
};
pub use handlers::{CoreState, HealthCheck};
pub use response::{ApiError, ApiResponse};

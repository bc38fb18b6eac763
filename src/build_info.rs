//! Build identity reported by the version endpoint.
use vstd::prelude::*;

verus! {

/// Name, version and provenance of the running build.
#[derive(Debug, Clone)]
pub struct BuildInfo {
    /// Package name.
    pub name: String,
    /// Package version.
    pub version: String,
    /// Short commit hash, when known.
    pub git_sha: Option<String>,
    /// Compiler version.
    pub rust_version: String,
    /// Build time (ISO 8601), when known.
    pub build_time: Option<String>,
}

impl BuildInfo {
    /// Build identity from its parts.
    pub fn new(
        name: &str,
        version: &str,
        git_sha: Option<String>,
        rust_version: &str,
        build_time: Option<String>,
    ) -> (r: Self)
        ensures
            r.name@ == name@,
            r.version@ == version@,
            r.git_sha == git_sha,
            r.rust_version@ == rust_version@,
            r.build_time == build_time,
    {
        BuildInfo {
            name: String::from_str(name),
            version: String::from_str(version),
            git_sha,
            rust_version: String::from_str(rust_version),
            build_time,
        }
    }

    /// Build identity from values that may be missing: an unknown name
    /// reads `unknown` and an unknown version `0.0.0`.
    pub fn with_fallbacks(
        name: Option<String>,
        version: Option<String>,
        git_sha: Option<String>,
        rust_version: &str,
        build_time: Option<String>,
    ) -> (r: Self)
        ensures
            r.name@ == (match name {
                Some(n) => n@,
                None => "unknown"@,
            }),
            r.version@ == (match version {
                Some(v) => v@,
                None => "0.0.0"@,
            }),
            r.git_sha == git_sha,
            r.rust_version@ == rust_version@,
            r.build_time == build_time,
    {
        let name = match name {
            Some(n) => n,
            None => String::from_str("unknown"),
        };
        let version = match version {
            Some(v) => v,
            None => String::from_str("0.0.0"),
        };
        BuildInfo {
            name,
            version,
            git_sha,
            rust_version: String::from_str(rust_version),
            build_time,
        }
    }
}

impl Default for BuildInfo {
    fn default() -> (r: Self)
        ensures
            r.name@.len() == 0,
            r.version@.len() == 0,
            r.git_sha is None,
            r.rust_version@.len() == 0,
            r.build_time is None,
    {
        BuildInfo {
            name: String::new(),
            version: String::new(),
            git_sha: None,
            rust_version: String::new(),
            build_time: None,
        }
    }
}

} // verus!

//! Logging setup decisions: level names, the effective level, and which
//! backend combinations are allowed.
use vstd::prelude::*;

use crate::config::{Config, ConfigError, LogBackend};
use crate::text::{lowercase, lowercase_of, split_commas, split_on, trim, trimmed};

verus! {

/// Verbosity, from silent to most verbose.
#[derive(Debug, Clone, Copy, PartialEq, Eq, Structural)]
pub enum LogLevel {
    Off,
    Error,
    Warn,
    Info,
    Debug,
    Trace,
}

pub open spec fn verbosity(l: LogLevel) -> int {
    match l {
        LogLevel::Off => 0,
        LogLevel::Error => 1,
        LogLevel::Warn => 2,
        LogLevel::Info => 3,
        LogLevel::Debug => 4,
        LogLevel::Trace => 5,
    }
}

/// The level a lower-case word names.
pub open spec fn level_word(w: Seq<char>) -> Option<LogLevel> {
    if w == "off"@ {
        Some(LogLevel::Off)
    } else if w == "error"@ {
        Some(LogLevel::Error)
    } else if w == "warn"@ || w == "warning"@ {
        Some(LogLevel::Warn)
    } else if w == "info"@ {
        Some(LogLevel::Info)
    } else if w == "debug"@ {
        Some(LogLevel::Debug)
    } else if w == "trace"@ {
        Some(LogLevel::Trace)
    } else {
        None
    }
}

/// The level named by an already lower-cased word.
pub fn level_from_lowercase(word: &str) -> (r: Option<LogLevel>)
    ensures
        r == level_word(word@),
{
    let w = String::from_str(word);
    if w == String::from_str("off") {
        Some(LogLevel::Off)
    } else if w == String::from_str("error") {
        Some(LogLevel::Error)
    } else if w == String::from_str("warn") || w == String::from_str("warning") {
        Some(LogLevel::Warn)
    } else if w == String::from_str("info") {
        Some(LogLevel::Info)
    } else if w == String::from_str("debug") {
        Some(LogLevel::Debug)
    } else if w == String::from_str("trace") {
        Some(LogLevel::Trace)
    } else {
        None
    }
}

pub open spec fn level_text(s: Seq<char>) -> Option<LogLevel> {
    level_word(lowercase_of(trimmed(s)))
}

/// Reads a level name, ignoring surrounding white space and letter case.
pub fn parse_log_level(value: &str) -> (r: Option<LogLevel>)
    ensures
        r == level_text(value@),
{
    let t = trim(value);
    let lower = lowercase(t.as_str());
    level_from_lowercase(lower.as_str())
}

fn rank_of(l: LogLevel) -> (r: u8)
    ensures
        r == verbosity(l),
{
    match l {
        LogLevel::Off => 0,
        LogLevel::Error => 1,
        LogLevel::Warn => 2,
        LogLevel::Info => 3,
        LogLevel::Debug => 4,
        LogLevel::Trace => 5,
    }
}

/// The part of a directive that names a level: what follows its first
/// `=`, or all of it.
pub open spec fn level_part(d: Seq<char>) -> Seq<char> {
    if exists|i: int| 0 <= i < d.len() && d[i] == '=' {
        let i = choose|i: int|
            0 <= i < d.len() && d[i] == '=' && forall|j: int| 0 <= j < i ==> d[j] != '=';
        d.subrange(i + 1, d.len() as int)
    } else {
        d
    }
}

/// The level a filter directive asks for, if any.
pub open spec fn directive_level(d: Seq<char>) -> Option<LogLevel> {
    let t = trimmed(d);
    if t.len() == 0 {
        None
    } else {
        level_text(level_part(t))
    }
}

/// `base` raised by every directive that names a more verbose level.
pub open spec fn raised(base: LogLevel, ds: Seq<Seq<char>>) -> LogLevel
    decreases ds.len(),
{
    if ds.len() == 0 {
        base
    } else {
        let prev = raised(base, ds.drop_last());
        match directive_level(ds.last()) {
            Some(l) => if verbosity(l) > verbosity(prev) {
                l
            } else {
                prev
            },
            None => prev,
        }
    }
}

/// The effective level: the configured one (`info` when it names none),
/// raised by the directives of the filter variable, if set.
pub open spec fn effective_level(configured: Seq<char>, filter: Option<Seq<char>>) -> LogLevel {
    let base = match level_text(configured) {
        Some(l) => l,
        None => LogLevel::Info,
    };
    match filter {
        Some(f) => raised(base, split_on(f, ',')),
        None => base,
    }
}

fn level_part_of(d: &str) -> (r: String)
    ensures
        r@ == level_part(d@),
{
    let n = d.unicode_len();
    let mut i: usize = 0;
    while i < n
        invariant
            n == d@.len(),
            i <= n,
            forall|j: int| 0 <= j < i ==> d@[j] != '=',
        decreases n - i,
    {
        if d.get_char(i) == '=' {
            proof {
                let k = i as int;
                assert(0 <= k < d@.len() && d@[k] == '=' && forall|j: int|
                    0 <= j < k ==> d@[j] != '=');
                let w = choose|w: int|
                    0 <= w < d@.len() && d@[w] == '=' && forall|j: int| 0 <= j < w ==> d@[j] != '=';
                assert(w == k) by {
                    if w < k {
                    } else if w > k {
                    }
                }
            }
            return String::from_str(d.substring_char(i + 1, n));
        }
        i = i + 1;
    }
    assert(d@.subrange(0, n as int) =~= d@);
    String::from_str(d)
}

/// The level one directive asks for.
pub fn level_of_directive(d: &str) -> (r: Option<LogLevel>)
    ensures
        r == directive_level(d@),
{
    let t = trim(d);
    if t.as_str().unicode_len() == 0 {
        None
    } else {
        let part = level_part_of(t.as_str());
        parse_log_level(part.as_str())
    }
}

/// The effective level from the configured level and the filter variable.
pub fn resolve_log_level(configured: &str, filter: Option<String>) -> (r: LogLevel)
    ensures
        r == effective_level(configured@, match filter {
            Some(f) => Some(f@),
            None => None,
        }),
{
    let base = match parse_log_level(configured) {
        Some(l) => l,
        None => LogLevel::Info,
    };
    match filter {
        Some(f) => {
            let ds = split_commas(f.as_str());
            let mut level = base;
            let mut k: usize = 0;
            while k < ds.len()
                invariant
                    k <= ds.len(),
                    ds.deep_view() == split_on(f@, ','),
                    level == raised(base, ds.deep_view().subrange(0, k as int)),
                decreases ds.len() - k,
            {
                let ghost upto = ds.deep_view().subrange(0, k + 1);
                assert(upto.drop_last() =~= ds.deep_view().subrange(0, k as int));
                assert(upto.last() == ds[k as int]@);
                match level_of_directive(ds[k].as_str()) {
                    Some(l) => {
                        if rank_of(l) > rank_of(level) {
                            level = l;
                        }
                    },
                    None => {},
                }
                k = k + 1;
            }
            assert(ds.deep_view().subrange(0, ds.len() as int) =~= ds.deep_view());
            level
        },
        None => base,
    }
}

/// The message given when the plain-log backend is combined with
/// OpenTelemetry export.
pub open spec fn otel_conflict_message() -> Seq<char> {
    "LOG_BACKEND=fast_log is not compatible with FEATURE_OTEL=true"@
}

/// Checks the logging backend against the toggles: the plain-log backend
/// cannot feed OpenTelemetry.
pub fn validate_log_backend(config: &Config) -> (r: Result<LogBackend, ConfigError>)
    ensures
        (config.logging.log_backend == LogBackend::FastLog && config.features.feature_otel) ==> (
        r matches Err(ConfigError::Validation(m)) && m@ == otel_conflict_message()),
        !(config.logging.log_backend == LogBackend::FastLog && config.features.feature_otel) ==> r
            == Ok::<LogBackend, ConfigError>(config.logging.log_backend),
{
    match config.logging.log_backend {
        LogBackend::FastLog => {
            if config.features.feature_otel {
                Err(
                    ConfigError::Validation(
                        String::from_str(
                            "LOG_BACKEND=fast_log is not compatible with FEATURE_OTEL=true",
                        ),
                    ),
                )
            } else {
                Ok(LogBackend::FastLog)
            }
        },
        LogBackend::Tracing => Ok(LogBackend::Tracing),
    }
}

} // verus!

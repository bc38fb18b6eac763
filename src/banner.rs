//! The startup banner: build identity, environment, toggles and,
//! optionally, selected environment variables, as lines of text.
use vstd::prelude::*;

use crate::build_info::BuildInfo;
use crate::config::{redact_secret, redacted, BannerConfig, Config, Environment};
use crate::text::{comma_items, comma_list, decimal, decimal_string, push_decimal};

verus! {

broadcast use vstd::seq_lib::to_multiset_insert;

/// Display badge of an environment.
pub open spec fn badge(env: Environment) -> Seq<char> {
    match env {
        Environment::Dev => "🔧 DEV"@,
        Environment::Stage => "🚧 STAGE"@,
        Environment::Prod => "🚀 PROD"@,
    }
}

pub fn env_badge(env: Environment) -> (r: String)
    ensures
        r@ == badge(env),
{
    match env {
        Environment::Dev => String::from_str("🔧 DEV"),
        Environment::Stage => String::from_str("🚧 STAGE"),
        Environment::Prod => String::from_str("🚀 PROD"),
    }
}

/// `✅ ON` or `❌ OFF`.
pub open spec fn indicator(on: bool) -> Seq<char> {
    if on {
        "✅ ON"@
    } else {
        "❌ OFF"@
    }
}

pub fn bool_indicator(value: bool) -> (r: &'static str)
    ensures
        r@ == indicator(value),
{
    if value {
        "✅ ON"
    } else {
        "❌ OFF"
    }
}

pub fn feature_status(enabled: bool) -> (r: &'static str)
    ensures
        r@ == indicator(enabled),
{
    if enabled {
        "✅ ON"
    } else {
        "❌ OFF"
    }
}

/// A byte count in whole megabytes, kilobytes or bytes, rounded down.
pub open spec fn bytes_label(bytes: nat) -> Seq<char> {
    if bytes >= 1_048_576 {
        decimal(bytes / 1_048_576) + " MB"@
    } else if bytes >= 1024 {
        decimal(bytes / 1024) + " KB"@
    } else {
        decimal(bytes) + " B"@
    }
}

pub fn format_bytes(bytes: usize) -> (r: String)
    ensures
        r@ == bytes_label(bytes as nat),
{
    let b = bytes as u64;
    if b >= 1_048_576 {
        decimal_string(b / 1_048_576).concat(" MB")
    } else if b >= 1024 {
        decimal_string(b / 1024).concat(" KB")
    } else {
        decimal_string(b).concat(" B")
    }
}

/// One environment variable.
#[derive(Debug, Clone)]
pub struct EnvVar {
    pub key: String,
    pub value: String,
}

/// Lexicographic order on characters, as for the UTF-8 bytes of strings.
pub open spec fn key_le(a: Seq<char>, b: Seq<char>) -> bool
    decreases a.len(),
{
    if a.len() == 0 {
        true
    } else if b.len() == 0 {
        false
    } else if a[0] as u32 != b[0] as u32 {
        (a[0] as u32) < (b[0] as u32)
    } else {
        key_le(a.drop_first(), b.drop_first())
    }
}

proof fn lemma_key_le_total(a: Seq<char>, b: Seq<char>)
    ensures
        key_le(a, b) || key_le(b, a),
    decreases a.len(),
{
    if a.len() > 0 && b.len() > 0 && a[0] as u32 == b[0] as u32 {
        lemma_key_le_total(a.drop_first(), b.drop_first());
    }
}

proof fn lemma_key_le_trans(a: Seq<char>, b: Seq<char>, c: Seq<char>)
    requires
        key_le(a, b),
        key_le(b, c),
    ensures
        key_le(a, c),
    decreases a.len(),
{
    if a.len() > 0 && b.len() > 0 && c.len() > 0 && a[0] as u32 == b[0] as u32 && b[0] as u32
        == c[0] as u32 {
        lemma_key_le_trans(a.drop_first(), b.drop_first(), c.drop_first());
    }
}

/// Whether `a` comes before or with `b`.
pub fn key_at_most(a: &str, b: &str) -> (r: bool)
    ensures
        r == key_le(a@, b@),
{
    let na = a.unicode_len();
    let nb = b.unicode_len();
    let mut i: usize = 0;
    assert(a@.subrange(0, na as int) =~= a@);
    assert(b@.subrange(0, nb as int) =~= b@);
    while i < na && i < nb
        invariant
            na == a@.len(),
            nb == b@.len(),
            i <= na,
            i <= nb,
            key_le(a@, b@) == key_le(a@.subrange(i as int, na as int), b@.subrange(i as int, nb as int)),
        decreases na - i,
    {
        let ca = a.get_char(i);
        let cb = b.get_char(i);
        let ghost sa = a@.subrange(i as int, na as int);
        let ghost sb = b@.subrange(i as int, nb as int);
        assert(sa[0] == ca && sb[0] == cb);
        if ca as u32 != cb as u32 {
            return (ca as u32) < (cb as u32);
        }
        assert(sa.drop_first() =~= a@.subrange(i + 1, na as int));
        assert(sb.drop_first() =~= b@.subrange(i + 1, nb as int));
        i = i + 1;
    }
    assert(a@.subrange(0, na as int) =~= a@);
    assert(b@.subrange(0, nb as int) =~= b@);
    i == na
}

/// Sorted by key.
pub open spec fn sorted_by_key(s: Seq<EnvVar>) -> bool {
    forall|i: int, j: int| 0 <= i < j < s.len() ==> key_le(s[i].key@, s[j].key@)
}

/// Sorts by key; variables with equal keys keep their order.
pub fn sort_env_vars(vars: Vec<EnvVar>) -> (r: Vec<EnvVar>)
    ensures
        sorted_by_key(r@),
        r@.to_multiset() == vars@.to_multiset(),
{
    let mut out: Vec<EnvVar> = Vec::new();
    let mut k: usize = 0;
    proof {
        broadcast use vstd::seq_lib::group_to_multiset_ensures;

        assert(vars@.subrange(0, 0) =~= Seq::<EnvVar>::empty());
        assert(out@ =~= Seq::<EnvVar>::empty());
    }
    while k < vars.len()
        invariant
            k <= vars.len(),
            sorted_by_key(out@),
            out@.to_multiset() == vars@.subrange(0, k as int).to_multiset(),
        decreases vars.len() - k,
    {
        let x = vars[k].clone_var();
        let mut p: usize = 0;
        while p < out.len() && key_at_most(out[p].key.as_str(), x.key.as_str())
            invariant
                p <= out.len(),
                forall|i: int| 0 <= i < p ==> key_le(#[trigger] out@[i].key@, x.key@),
            decreases out.len() - p,
        {
            p = p + 1;
        }
        proof {
            if p < out.len() {
                lemma_key_le_total(out@[p as int].key@, x.key@);
            }
        }
        let ghost before = out@;
        out.insert(p, x);
        proof {
            assert forall|i: int, j: int| 0 <= i < j < out@.len() implies key_le(
                out@[i].key@,
                out@[j].key@,
            ) by {
                if j < p {
                } else if j == p {
                } else if i < p {
                    assert(out@[j] == before[j - 1]);
                    lemma_key_le_trans(out@[i].key@, x.key@, before[p as int].key@);
                    if j - 1 > p {
                        lemma_key_le_trans(out@[i].key@, before[p as int].key@, before[j - 1].key@);
                    }
                } else if i == p {
                    assert(out@[j] == before[j - 1]);
                    if j - 1 > p {
                        lemma_key_le_trans(x.key@, before[p as int].key@, before[j - 1].key@);
                    }
                } else {
                    assert(out@[i] == before[i - 1]);
                    assert(out@[j] == before[j - 1]);
                }
            }
            assert(vars@.subrange(0, k + 1) =~= vars@.subrange(0, k as int).push(vars@[k as int]));
            assert(vars@.subrange(0, k as int).push(vars@[k as int]) =~= vars@.subrange(0, k as int).insert(k as int, vars@[k as int]));
        }
        k = k + 1;
    }
    assert(vars@.subrange(0, vars.len() as int) =~= vars@);
    out
}

impl EnvVar {
    /// A copy of the variable.
    pub fn clone_var(&self) -> (r: Self)
        ensures
            r == *self,
    {
        EnvVar { key: self.key.clone(), value: self.value.clone() }
    }
}

/// The variable prefixes shown when no allowlist is configured.
pub open spec fn watched_prefixes() -> Seq<Seq<char>> {
    seq![
        "APP_"@,
        "FEATURE_"@,
        "LOG_"@,
        "REQUEST_LOG_"@,
        "HTTP_"@,
        "DB_"@,
        "CACHE_"@,
        "MEILI_"@,
        "BROKER_"@,
        "NATS_"@,
        "IGGY_"@,
        "FLUVIO_"@,
        "CORS_"@,
        "SESSION_"@,
        "OTEL_"@,
        "BANNER_"@,
    ]
}

pub open spec fn has_prefix(s: Seq<char>, p: Seq<char>) -> bool {
    p.len() <= s.len() && s.subrange(0, p.len() as int) == p
}

/// Whether a variable is listed: by the allowlist when there is one, by
/// the watched prefixes otherwise.
pub open spec fn listed(key: Seq<char>, allowlist: Option<Seq<Seq<char>>>) -> bool {
    match allowlist {
        Some(a) => a.contains(key),
        None => exists|i: int| 0 <= i < watched_prefixes().len() && has_prefix(key, #[trigger] watched_prefixes()[i]),
    }
}

pub open spec fn allowlist_of(b: BannerConfig) -> Option<Seq<Seq<char>>> {
    match b.banner_env_allowlist {
        Some(s) => Some(comma_items(s@)),
        None => None,
    }
}

/// The listed variables, in their order.
pub open spec fn select_vars(vars: Seq<EnvVar>, allowlist: Option<Seq<Seq<char>>>) -> Seq<EnvVar>
    decreases vars.len(),
{
    if vars.len() == 0 {
        Seq::empty()
    } else {
        let rest = select_vars(vars.drop_last(), allowlist);
        if listed(vars.last().key@, allowlist) {
            rest.push(vars.last())
        } else {
            rest
        }
    }
}

fn starts_with(s: &str, p: &str) -> (r: bool)
    ensures
        r == has_prefix(s@, p@),
{
    let np = p.unicode_len();
    if np > s.unicode_len() {
        return false;
    }
    let head = String::from_str(s.substring_char(0, np));
    head == String::from_str(p)
}

fn contains_text(list: &Vec<String>, key: &str) -> (r: bool)
    ensures
        r == list.deep_view().contains(key@),
{
    let target = String::from_str(key);
    let mut k: usize = 0;
    while k < list.len()
        invariant
            k <= list.len(),
            target@ == key@,
            forall|i: int| 0 <= i < k ==> list.deep_view()[i] != key@,
        decreases list.len() - k,
    {
        if list[k] == target {
            assert(list.deep_view()[k as int] == key@);
            return true;
        }
        k = k + 1;
    }
    false
}

fn watched(key: &str) -> (r: bool)
    ensures
        r == listed(key@, None),
{
    let prefixes = vec![
        "APP_",
        "FEATURE_",
        "LOG_",
        "REQUEST_LOG_",
        "HTTP_",
        "DB_",
        "CACHE_",
        "MEILI_",
        "BROKER_",
        "NATS_",
        "IGGY_",
        "FLUVIO_",
        "CORS_",
        "SESSION_",
        "OTEL_",
        "BANNER_",
    ];
    assert(prefixes@.map_values(|p: &str| p@) =~= watched_prefixes());
    let mut k: usize = 0;
    while k < prefixes.len()
        invariant
            k <= prefixes.len(),
            prefixes@.map_values(|p: &str| p@) == watched_prefixes(),
            forall|i: int| 0 <= i < k ==> !has_prefix(key@, #[trigger] watched_prefixes()[i]),
        decreases prefixes.len() - k,
    {
        assert(watched_prefixes()[k as int] == prefixes@[k as int]@);
        if starts_with(key, prefixes[k]) {
            return true;
        }
        k = k + 1;
    }
    false
}

/// Keeps the variables the banner lists.
pub fn select_env_vars(banner: &BannerConfig, vars: &Vec<EnvVar>) -> (r: Vec<EnvVar>)
    ensures
        r@ == select_vars(vars@, allowlist_of(*banner)),
{
    let allow: Option<Vec<String>> = match &banner.banner_env_allowlist {
        Some(s) => Some(comma_list(s.as_str())),
        None => None,
    };
    let mut out: Vec<EnvVar> = Vec::new();
    let mut k: usize = 0;
    while k < vars.len()
        invariant
            k <= vars.len(),
            match allow {
                Some(a) => allowlist_of(*banner) == Some(a.deep_view()),
                None => allowlist_of(*banner) is None,
            },
            out@ == select_vars(vars@.subrange(0, k as int), allowlist_of(*banner)),
        decreases vars.len() - k,
    {
        let key = vars[k].key.as_str();
        let keep = match &allow {
            Some(a) => contains_text(a, key),
            None => watched(key),
        };
        let ghost upto = vars@.subrange(0, k + 1);
        assert(upto.drop_last() =~= vars@.subrange(0, k as int));
        if keep {
            out.push(vars[k].clone_var());
        }
        k = k + 1;
    }
    assert(vars@.subrange(0, vars.len() as int) =~= vars@);
    out
}

/// The banner line of one variable, its value masked unless secrets are shown.
pub open spec fn var_line(v: EnvVar, show_secrets: bool) -> Seq<char> {
    "║  "@ + v.key@ + "="@ + (if show_secrets {
        v.value@
    } else {
        redacted(v.value@)
    })
}

pub open spec fn disabled_line() -> Seq<char> {
    "║  (disabled — set BANNER_SHOW_ENV_VARS=true)"@
}

pub open spec fn no_match_line() -> Seq<char> {
    "║  (no matching env vars)"@
}

/// The lines of the variables section for `shown`, the variables to list
/// in display order.
pub open spec fn var_section(b: BannerConfig, shown: Seq<EnvVar>) -> Seq<Seq<char>> {
    if !b.banner_show_env_vars {
        seq![disabled_line()]
    } else if shown.len() == 0 {
        seq![no_match_line()]
    } else {
        shown.map_values(|v: EnvVar| var_line(v, b.banner_show_secrets))
    }
}

/// `shown` is the variables that `b` lists, sorted by key.
pub open spec fn display_order(b: BannerConfig, vars: Seq<EnvVar>, shown: Seq<EnvVar>) -> bool {
    sorted_by_key(shown) && shown.to_multiset() == select_vars(vars, allowlist_of(b)).to_multiset()
}

/// The variables section of the banner.
pub fn env_var_lines(banner: &BannerConfig, vars: &Vec<EnvVar>) -> (r: Vec<String>)
    ensures
        exists|shown: Seq<EnvVar>|
            display_order(*banner, vars@, shown) && r.deep_view() == var_section(*banner, shown),
{
    let selected = select_env_vars(banner, vars);
    let shown = sort_env_vars(selected);
    let ghost g = shown@;
    let mut out: Vec<String> = Vec::new();
    if !banner.banner_show_env_vars {
        out.push(String::from_str("║  (disabled — set BANNER_SHOW_ENV_VARS=true)"));
        assert(out.deep_view() =~= var_section(*banner, g));
    } else if shown.len() == 0 {
        out.push(String::from_str("║  (no matching env vars)"));
        assert(out.deep_view() =~= var_section(*banner, g));
    } else {
        let mut k: usize = 0;
        while k < shown.len()
            invariant
                k <= shown.len(),
                g == shown@,
                out.deep_view() == shown@.subrange(0, k as int).map_values(
                    |v: EnvVar| var_line(v, banner.banner_show_secrets),
                ),
            decreases shown.len() - k,
        {
            let v = &shown[k];
            let mut line = String::from_str("║  ");
            line.append(v.key.as_str());
            line.append("=");
            if banner.banner_show_secrets {
                line.append(v.value.as_str());
            } else {
                let masked = redact_secret(v.value.as_str());
                line.append(masked.as_str());
            }
            assert(line@ == var_line(shown@[k as int], banner.banner_show_secrets));
            let ghost prev = out.deep_view();
            let ghost lv = line@;
            out.push(line);
            assert(out.deep_view() =~= prev.push(lv));
            assert(shown@.subrange(0, k + 1) =~= shown@.subrange(0, k as int).push(shown@[k as int]));
            assert(out.deep_view() =~= shown@.subrange(0, k + 1).map_values(
                |v: EnvVar| var_line(v, banner.banner_show_secrets),
            ));
            k = k + 1;
        }
        assert(shown@.subrange(0, shown.len() as int) =~= shown@);
        assert(out.deep_view() =~= var_section(*banner, g));
    }
    assert(display_order(*banner, vars@, g));
    out
}

pub open spec fn top_line() -> Seq<char> {
    "╔══════════════════════════════════════════════════════════════╗"@
}

pub open spec fn title_line() -> Seq<char> {
    "║            🦀  Barrzen AXUM APPLICATION  🦀"@
}

pub open spec fn rule_line() -> Seq<char> {
    "╠══════════════════════════════════════════════════════════════╣"@
}

pub open spec fn bottom_line() -> Seq<char> {
    "╚══════════════════════════════════════════════════════════════╝"@
}

pub open spec fn git_label(sha: Option<String>) -> Seq<char> {
    match sha {
        Some(s) => s@,
        None => "unknown"@,
    }
}

pub open spec fn cache_label(c: Config) -> Seq<char> {
    if c.features.feature_cache {
        "✅ ON ("@ + c.cache.cache_backend.name_spec() + ")"@
    } else {
        "❌ OFF"@
    }
}

/// The banner down to the variables section.
pub open spec fn banner_head(c: Config, b: BuildInfo, address: Seq<char>) -> Seq<Seq<char>> {
    seq![
        Seq::<char>::empty(),
        top_line(),
        title_line(),
        rule_line(),
        "║  Version: "@ + b.version@ + " ("@ + git_label(b.git_sha) + ")"@,
        "║  App:     "@ + c.app.app_name@,
        rule_line(),
        "║  ENVIRONMENT"@,
        rule_line(),
        "║  Env:     "@ + badge(c.app.app_env),
        "║  Debug:   "@ + indicator(c.app.app_debug),
        "║  Address: "@ + address,
        rule_line(),
        "║  FEATURES"@,
        rule_line(),
        "║  Database:    "@ + indicator(c.features.feature_db),
        "║  Cache:       "@ + cache_label(c),
        "║  Search:      "@ + indicator(c.features.feature_search),
        "║  Broker:      "@ + indicator(c.features.feature_broker),
        "║  OpenAPI:     "@ + indicator(c.features.feature_openapi),
        "║  OTEL:        "@ + indicator(c.features.feature_otel),
        rule_line(),
        "║  HTTP"@,
        rule_line(),
        "║  Request Log: "@ + indicator(c.features.feature_request_log),
        "║  Tracing:     "@ + indicator(c.features.feature_tracing),
        "║  CORS:        "@ + indicator(c.features.feature_cors),
        "║  Body Limit:  "@ + bytes_label(c.http.http_body_limit_bytes as nat),
        "║  Timeout:     "@ + decimal(c.http.http_request_timeout_seconds as nat) + "s"@,
        rule_line(),
        "║  ENV VARS"@,
        rule_line(),
    ]
}

fn labelled(label: &str, value: &str) -> (r: String)
    ensures
        r@ == label@ + value@,
{
    String::from_str(label).concat(value)
}

fn head_lines(config: &Config, build: &BuildInfo, address: &str) -> (r: Vec<String>)
    ensures
        r.deep_view() == banner_head(*config, *build, address@),
{
    let mut version = String::from_str("║  Version: ");
    version.append(build.version.as_str());
    version.append(" (");
    match &build.git_sha {
        Some(s) => version.append(s.as_str()),
        None => version.append("unknown"),
    }
    version.append(")");
    let cache = if config.features.feature_cache {
        String::from_str("✅ ON (").concat(config.cache.cache_backend.as_str()).concat(")")
    } else {
        String::from_str("❌ OFF")
    };
    let badge_text = env_badge(config.app.app_env);
    let limit = format_bytes(config.http.http_body_limit_bytes);
    let mut timeout = String::from_str("║  Timeout:     ");
    push_decimal(&mut timeout, config.http.http_request_timeout_seconds);
    timeout.append("s");
    let f = &config.features;
    let r = vec![
        String::new(),
        String::from_str("╔══════════════════════════════════════════════════════════════╗"),
        String::from_str("║            🦀  Barrzen AXUM APPLICATION  🦀"),
        String::from_str("╠══════════════════════════════════════════════════════════════╣"),
        version,
        labelled("║  App:     ", config.app.app_name.as_str()),
        String::from_str("╠══════════════════════════════════════════════════════════════╣"),
        String::from_str("║  ENVIRONMENT"),
        String::from_str("╠══════════════════════════════════════════════════════════════╣"),
        labelled("║  Env:     ", badge_text.as_str()),
        labelled("║  Debug:   ", bool_indicator(config.app.app_debug)),
        labelled("║  Address: ", address),
        String::from_str("╠══════════════════════════════════════════════════════════════╣"),
        String::from_str("║  FEATURES"),
        String::from_str("╠══════════════════════════════════════════════════════════════╣"),
        labelled("║  Database:    ", feature_status(f.feature_db)),
        labelled("║  Cache:       ", cache.as_str()),
        labelled("║  Search:      ", feature_status(f.feature_search)),
        labelled("║  Broker:      ", feature_status(f.feature_broker)),
        labelled("║  OpenAPI:     ", feature_status(f.feature_openapi)),
        labelled("║  OTEL:        ", feature_status(f.feature_otel)),
        String::from_str("╠══════════════════════════════════════════════════════════════╣"),
        String::from_str("║  HTTP"),
        String::from_str("╠══════════════════════════════════════════════════════════════╣"),
        labelled("║  Request Log: ", bool_indicator(f.feature_request_log)),
        labelled("║  Tracing:     ", bool_indicator(f.feature_tracing)),
        labelled("║  CORS:        ", bool_indicator(f.feature_cors)),
        labelled("║  Body Limit:  ", limit.as_str()),
        timeout,
        String::from_str("╠══════════════════════════════════════════════════════════════╣"),
        String::from_str("║  ENV VARS"),
        String::from_str("╠══════════════════════════════════════════════════════════════╣"),
    ];
    assert(r.deep_view() =~= banner_head(*config, *build, address@));
    r
}

/// The startup banner as lines of text, empty when the banner is turned
/// off. `address` is the bound address as displayed; `vars` the process
/// environment.
pub fn banner_lines(config: &Config, build: &BuildInfo, address: &str, vars: &Vec<EnvVar>) -> (r:
    Vec<String>)
    ensures
        !config.features.feature_startup_banner ==> r@.len() == 0,
        config.features.feature_startup_banner ==> exists|shown: Seq<EnvVar>|
            display_order(config.banner, vars@, shown) && r.deep_view() == banner_head(
                *config,
                *build,
                address@,
            ) + var_section(config.banner, shown) + seq![bottom_line(), Seq::<char>::empty()],
{
    let mut out: Vec<String> = Vec::new();
    if !config.features.feature_startup_banner {
        return out;
    }
    let mut head = head_lines(config, build, address);
    let mut section = env_var_lines(&config.banner, vars);
    let ghost h = head.deep_view();
    let ghost s = section.deep_view();
    out.append(&mut head);
    out.append(&mut section);
    out.push(String::from_str("╚══════════════════════════════════════════════════════════════╝"));
    out.push(String::new());
    assert(out.deep_view() =~= h + s + seq![bottom_line(), Seq::<char>::empty()]);
    out
}

} // verus!

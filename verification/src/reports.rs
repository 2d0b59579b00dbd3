//! The service's status replies: provider fallbacks, health and the
//! production safety checks.

use vstd::prelude::*;
use crate::settings::{env_value, value_or, EnvSnapshot};
use crate::text::{
    chars_of, contains, has_substring, join, joined, push_str, string_from_chars, string_views,
    to_owned_string,
};

verus! {

/// A provider's reply: its status, which path answered, the error when none
/// did, and the results.
pub struct GenericFallbackResponse<T> {
    pub status: String,
    pub provider_path: Option<String>,
    pub error: Option<String>,
    pub results: Vec<T>,
}

/// Whether one provider answered a health probe.
pub struct ProviderStatus {
    pub provider: String,
    /// `reachable` or `unreachable`.
    pub status: String,
    pub details: Option<String>,
}

/// The reply of the health endpoint.
pub struct HealthResponse {
    pub status: String,
    pub services: u8,
    /// `HIGH` when every essential provider answered, else `DEGRADED`.
    pub integrity: String,
    pub providers: Vec<ProviderStatus>,
}

/// The reply of the quantum health endpoint.
pub struct QuantumHealth {
    pub kyber1024: String,
    pub public_key: String,
    pub neo4j: String,
}

/// Whether an HTTP status shows the provider answering: a success, or a
/// refusal for missing credentials (401, 403).
pub open spec fn answers(code: u16) -> bool {
    (200 <= code && code < 300) || code == 401 || code == 403
}

/// Reads an HTTP status of a probe.
pub fn provider_answers(code: u16) -> (r: bool)
    ensures
        r == answers(code),
{
    (200 <= code && code < 300) || code == 401 || code == 403
}

/// `reachable` or `unreachable`.
pub open spec fn reach_word(ok: bool) -> Seq<char> {
    if ok {
        "reachable"@
    } else {
        "unreachable"@
    }
}

/// The status line of one provider.
pub fn provider_status(provider: &str, ok: bool) -> (r: ProviderStatus)
    ensures
        r.provider@ == provider@,
        r.status@ == reach_word(ok),
        r.details is None,
{
    ProviderStatus {
        provider: to_owned_string(provider),
        status: to_owned_string(if ok { "reachable" } else { "unreachable" }),
        details: None,
    }
}

/// The health reply: five services, integrity `HIGH` exactly when the news,
/// weather, cache and graph providers all answered, and one status line per
/// provider in a fixed order.
pub fn health_report(news_ok: bool, weather_ok: bool, maritime_ok: bool, redis_ok: bool, neo4j_ok: bool) -> (r:
    HealthResponse)
    ensures
        r.status@ == "iDEX-ready"@,
        r.services == 5,
        r.integrity@ == (if news_ok && weather_ok && redis_ok && neo4j_ok {
            "HIGH"@
        } else {
            "DEGRADED"@
        }),
        r.providers@.len() == 5,
        r.providers@[0].provider@ == "newsapi"@ && r.providers@[0].status@ == reach_word(news_ok),
        r.providers@[1].provider@ == "openweather"@ && r.providers@[1].status@ == reach_word(weather_ok),
        r.providers@[2].provider@ == "aisstream"@ && r.providers@[2].status@ == reach_word(maritime_ok),
        r.providers@[3].provider@ == "redis"@ && r.providers@[3].status@ == reach_word(redis_ok),
        r.providers@[4].provider@ == "neo4j"@ && r.providers@[4].status@ == reach_word(neo4j_ok),
        forall|i: int| 0 <= i < 5 ==> (#[trigger] r.providers@[i]).details is None,
{
    let mut providers: Vec<ProviderStatus> = Vec::new();
    providers.push(provider_status("newsapi", news_ok));
    providers.push(provider_status("openweather", weather_ok));
    providers.push(provider_status("aisstream", maritime_ok));
    providers.push(provider_status("redis", redis_ok));
    providers.push(provider_status("neo4j", neo4j_ok));
    let integrity = if news_ok && weather_ok && redis_ok && neo4j_ok {
        "HIGH"
    } else {
        "DEGRADED"
    };
    HealthResponse {
        status: to_owned_string("iDEX-ready"),
        services: 5,
        integrity: to_owned_string(integrity),
        providers,
    }
}

/// The quantum health reply: the key exchange is active, with the public key
/// of a fresh key pair, and the graph database connected or offline.
pub fn quantum_health(public_key: String, graph_connected: bool) -> (r: QuantumHealth)
    ensures
        r.kyber1024@ == "active"@,
        r.public_key@ == public_key@,
        r.neo4j@ == (if graph_connected {
            "connected"@
        } else {
            "offline"@
        }),
{
    QuantumHealth {
        kyber1024: to_owned_string("active"),
        public_key,
        neo4j: to_owned_string(if graph_connected { "connected" } else { "offline" }),
    }
}

/// The value of a variable, empty when it is not set.
pub open spec fn value_or_empty(env: &EnvSnapshot, name: Seq<char>) -> Seq<char> {
    value_or(env_value(env, name), Seq::empty())
}

/// Why the service must refuse to start in production, if it must: test mode
/// is on, the cache or graph address is missing, or the event stream is
/// enabled without servers or with a local one. Outside production nothing
/// is checked.
pub open spec fn production_problem(env: &EnvSnapshot) -> Option<Seq<char>> {
    if value_or_empty(env, "ENVIRONMENT"@) != "production"@ {
        None
    } else if value_or(env_value(env, "TEST_MODE"@), "false"@) == "true"@ {
        Some("[PRODUCTION] TEST_MODE=true is FORBIDDEN in production environment"@)
    } else if value_or_empty(env, "REDIS_URL"@).len() == 0 {
        Some("[PRODUCTION] REDIS_URL is required in production"@)
    } else if value_or_empty(env, "NEO4J_URI"@).len() == 0 {
        Some("[PRODUCTION] NEO4J_URI is required in production for Intelligence Graph"@)
    } else if value_or_empty(env, "KAFKA_ENABLED"@) == "true"@ && (value_or_empty(
        env,
        "KAFKA_SERVERS"@,
    ).len() == 0 || has_substring(value_or_empty(env, "KAFKA_SERVERS"@), "localhost"@)) {
        Some(
            "[PRODUCTION] KAFKA_ENABLED=true but KAFKA_SERVERS is empty or points to localhost. This will cause a crash."@,
        )
    } else {
        None
    }
}

/// The value of a variable, empty when it is not set.
fn value_or_empty_of(env: &EnvSnapshot, name: &str) -> (r: Vec<char>)
    ensures
        r@ == value_or_empty(env, name@),
{
    match env.get(name) {
        Some(v) => chars_of(v),
        None => Vec::new(),
    }
}

/// Checks the production safety rules; the message says which one fails.
pub fn validate_production_config(env: &EnvSnapshot) -> (r: Option<String>)
    ensures
        match r {
            Some(m) => production_problem(env) == Some(m@),
            None => production_problem(env) is None,
        },
{
    let environment = value_or_empty_of(env, "ENVIRONMENT");
    if !crate::text::equals(environment.as_slice(), "production") {
        return None;
    }
    let test_mode = env.value_is("TEST_MODE", "false", "true");
    if test_mode {
        return Some(to_owned_string("[PRODUCTION] TEST_MODE=true is FORBIDDEN in production environment"));
    }
    if value_or_empty_of(env, "REDIS_URL").len() == 0 {
        return Some(to_owned_string("[PRODUCTION] REDIS_URL is required in production"));
    }
    if value_or_empty_of(env, "NEO4J_URI").len() == 0 {
        return Some(
            to_owned_string("[PRODUCTION] NEO4J_URI is required in production for Intelligence Graph"),
        );
    }
    let kafka = value_or_empty_of(env, "KAFKA_ENABLED");
    if crate::text::equals(kafka.as_slice(), "true") {
        let servers = value_or_empty_of(env, "KAFKA_SERVERS");
        if servers.len() == 0 || contains(servers.as_slice(), "localhost") {
            return Some(
                to_owned_string(
                    "[PRODUCTION] KAFKA_ENABLED=true but KAFKA_SERVERS is empty or points to localhost. This will cause a crash.",
                ),
            );
        }
    }
    None
}


/// The reply of a provider whose answer was still cached.
pub fn cached_reply<T>(rows: Vec<T>) -> (r: GenericFallbackResponse<T>)
    ensures
        r.status@ == "ok"@,
        r.provider_path matches Some(p) && p@ == "redis_cache"@,
        r.error is None,
        r.results@ == rows@,
{
    GenericFallbackResponse {
        status: to_owned_string("ok"),
        provider_path: Some(to_owned_string("redis_cache")),
        error: None,
        results: rows,
    }
}

/// The reply of a provider whose key is not configured.
pub fn key_missing_reply<T>(provider: &str, error: &str) -> (r: GenericFallbackResponse<T>)
    ensures
        r.status@ == "provider_missing"@,
        r.provider_path matches Some(p) && p@ == provider@,
        r.error matches Some(e) && e@ == error@,
        r.results@.len() == 0,
{
    GenericFallbackResponse {
        status: to_owned_string("provider_missing"),
        provider_path: Some(to_owned_string(provider)),
        error: Some(to_owned_string(error)),
        results: Vec::new(),
    }
}

/// The reply of a provider after fetching: `ok` with the results when
/// there are any, else `provider_missing` with the errors joined by `; `.
pub fn fetched_reply<T>(provider: &str, output: Vec<T>, errors: &Vec<String>) -> (r: GenericFallbackResponse<T>)
    ensures
        r.provider_path matches Some(p) && p@ == provider@,
        output@.len() > 0 ==> r.status@ == "ok"@ && r.error is None && r.results@ == output@,
        output@.len() == 0 ==> {
            &&& r.status@ == "provider_missing"@
            &&& r.error matches Some(e) && e@ == joined(string_views(errors@), "; "@)
            &&& r.results@.len() == 0
        },
{
    if output.len() > 0 {
        GenericFallbackResponse {
            status: to_owned_string("ok"),
            provider_path: Some(to_owned_string(provider)),
            error: None,
            results: output,
        }
    } else {
        GenericFallbackResponse {
            status: to_owned_string("provider_missing"),
            provider_path: Some(to_owned_string(provider)),
            error: Some(join(errors, "; ")),
            results: Vec::new(),
        }
    }
}

/// What a weather risk level means for operations.
pub open spec fn impact_of(level: Seq<char>) -> Seq<char> {
    if level == "CRITICAL"@ {
        "Operations suspended. High wind/rain danger."@
    } else if level == "HIGH"@ {
        "Limited visibility. Caution required for patrols."@
    } else if level == "MODERATE"@ {
        "Normal ops with weather monitoring."@
    } else {
        "Favorable conditions for operations."@
    }
}

/// What a weather risk level means for operations.
pub fn operational_impact(level: &str) -> (r: String)
    ensures
        r@ == impact_of(level@),
{
    let l = chars_of(level);
    to_owned_string(
        if crate::text::equals(l.as_slice(), "CRITICAL") {
            "Operations suspended. High wind/rain danger."
        } else if crate::text::equals(l.as_slice(), "HIGH") {
            "Limited visibility. Caution required for patrols."
        } else if crate::text::equals(l.as_slice(), "MODERATE") {
            "Normal ops with weather monitoring."
        } else {
            "Favorable conditions for operations."
        },
    )
}

/// A line of the operations log: `[clock] [category] [action] [result]`.
pub fn ops_entry(clock: &str, category: &str, action: &str, result: &str) -> (r: String)
    ensures
        r@ == "["@ + clock@ + "] ["@ + category@ + "] ["@ + action@ + "] ["@ + result@ + "]"@,
{
    let mut out: Vec<char> = Vec::new();
    push_str(&mut out, "[");
    push_str(&mut out, clock);
    push_str(&mut out, "] [");
    push_str(&mut out, category);
    push_str(&mut out, "] [");
    push_str(&mut out, action);
    push_str(&mut out, "] [");
    push_str(&mut out, result);
    push_str(&mut out, "]");
    string_from_chars(out.as_slice())
}

/// How many entries the operations log keeps.
pub const OPS_LOG_MAX: u64 = 200;

} // verus!

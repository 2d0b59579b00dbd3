//! The language-model assessment: when it runs, the context it is given,
//! the prompt, and how its reply is cleaned and read.

use vstd::prelude::*;
use crate::ids::{new_uuid, v4_uuid_text};
use crate::numbers::{decimal, decimal_string};
use crate::settings::{env_value, number_or, value_or, EnvSnapshot};
use crate::text::{
    chars_of, prefixed, contains_any, join, joined, lowercase_of, mentions_any, push_str, replace,
    replaced, slice_chars, strip_prefixes, strip_suffixes, string_from_chars, string_views,
    to_lowercase, to_owned_string, trim, trim_end_matches, trim_start_matches, trimmed,
};

verus! {

/// Whether the language model runs for an event: `LLM_ENABLED` (default
/// `true`) must be `true`, and when `LLM_ONLY_ON_NEW_EVENTS` (default `true`)
/// is `true` the event must be new.
pub open spec fn llm_runs(env: &EnvSnapshot, is_new_event: bool) -> bool {
    value_or(env_value(env, "LLM_ENABLED"@), "true"@) == "true"@ && (value_or(
        env_value(env, "LLM_ONLY_ON_NEW_EVENTS"@),
        "true"@,
    ) != "true"@ || is_new_event)
}

/// Whether the language model runs for an event.
pub fn llm_enabled_for_event(env: &EnvSnapshot, is_new_event: bool) -> (r: bool)
    ensures
        r == llm_runs(env, is_new_event),
{
    let enabled = env.value_is("LLM_ENABLED", "true", "true");
    let only_on_new = env.value_is("LLM_ONLY_ON_NEW_EVENTS", "true", "true");
    enabled && (!only_on_new || is_new_event)
}

/// The intelligence context handed to the language model.
pub struct IntelContext {
    pub correlation_id: String,
    pub query: String,
    pub tavily_results: String,
    pub news_headlines: String,
    pub terrain_summary: String,
    pub weather_summary: String,
    pub maritime_summary: String,
    pub financial_summary: String,
    pub satellite_summary: String,
    pub sentiment_summary: String,
    pub tavily_count: usize,
    pub news_count: usize,
    pub weather_ok: bool,
    pub terrain_ok: bool,
    pub maritime_ok: bool,
    pub financial_ok: bool,
    pub satellite_ok: bool,
}

/// `true` or `false`.
pub open spec fn bool_text(b: bool) -> Seq<char> {
    if b {
        "true"@
    } else {
        "false"@
    }
}

/// `true` or `false`.
fn bool_str(b: bool) -> (r: &'static str)
    ensures
        r@ == bool_text(b),
{
    if b {
        "true"
    } else {
        "false"
    }
}

/// The prompt built from a context: the context block, the analyst
/// instructions and the reply format with the availability of each source.
pub open spec fn prompt_text(ctx: &IntelContext) -> Seq<char> {
    "CORRELATION_ID: "@
        + ctx.correlation_id@
        + "\nQUERY: "@
        + ctx.query@
        + "\n\nOSINT_SEARCH: "@
        + ctx.tavily_results@
        + "\nNEWS_SIGNALS: "@
        + ctx.news_headlines@
        + "\nTERRAIN: "@
        + ctx.terrain_summary@
        + "\nWEATHER: "@
        + ctx.weather_summary@
        + "\nMARITIME: "@
        + ctx.maritime_summary@
        + "\nFINANCIAL: "@
        + ctx.financial_summary@
        + "\nSATELLITE: "@
        + ctx.satellite_summary@
        + "\nSENTIMENT: "@
        + ctx.sentiment_summary@
        + "\n\nYou are a senior intelligence analyst for Bharat Intel Quantum (BIQ).\nBased on the multi-source intelligence context above, compute a threat assessment.\nRespond ONLY with valid JSON in this exact format:\n{\n  \"score\": <float 0.0-1.0>,\n  \"level\": \"<NOMINAL|MONITORED|ELEVATED|HIGH|CRITICAL>\",\n  \"explanation\": \"<2-3 sentence assessment>\",\n  \"key_actors\": [\"<actor1>\", \"<actor2>\"],\n  \"key_locations\": [\"<loc1>\", \"<loc2>\"],\n  \"recommended_action\": \"<single actionable recommendation>\",\n  \"sources_used\": {\n    \"tavily\": "@
        + decimal(ctx.tavily_count as nat)
        + ",\n    \"news\": "@
        + decimal(ctx.news_count as nat)
        + ",\n    \"weather\": "@
        + bool_text(ctx.weather_ok)
        + ",\n    \"terrain\": "@
        + bool_text(ctx.terrain_ok)
        + ",\n    \"maritime\": "@
        + bool_text(ctx.maritime_ok)
        + ",\n    \"financial\": "@
        + bool_text(ctx.financial_ok)
        + ",\n    \"satellite\": "@
        + bool_text(ctx.satellite_ok)
        + "\n  }\n}"@
}

impl IntelContext {
    /// A fresh context for `query`: a new random correlation id, every
    /// summary empty, no source counted or available.
    pub fn new(query: &str) -> (r: Self)
        ensures
            v4_uuid_text(r.correlation_id@),
            r.query@ == query@,
            r.tavily_results@.len() == 0 && r.news_headlines@.len() == 0,
            r.terrain_summary@.len() == 0 && r.weather_summary@.len() == 0,
            r.maritime_summary@.len() == 0 && r.financial_summary@.len() == 0,
            r.satellite_summary@.len() == 0 && r.sentiment_summary@.len() == 0,
            r.tavily_count == 0 && r.news_count == 0,
            !r.weather_ok && !r.terrain_ok && !r.maritime_ok && !r.financial_ok && !r.satellite_ok,
    {
        IntelContext {
            correlation_id: new_uuid(),
            query: to_owned_string(query),
            tavily_results: String::new(),
            news_headlines: String::new(),
            terrain_summary: String::new(),
            weather_summary: String::new(),
            maritime_summary: String::new(),
            financial_summary: String::new(),
            satellite_summary: String::new(),
            sentiment_summary: String::new(),
            tavily_count: 0,
            news_count: 0,
            weather_ok: false,
            terrain_ok: false,
            maritime_ok: false,
            financial_ok: false,
            satellite_ok: false,
        }
    }

    /// Builds the prompt.
    pub fn build_prompt(&self) -> (r: String)
        ensures
            r@ == prompt_text(self),
    {
        let mut out: Vec<char> = Vec::new();
        push_str(&mut out, "CORRELATION_ID: ");
        push_str(&mut out, self.correlation_id.as_str());
        push_str(&mut out, "\nQUERY: ");
        push_str(&mut out, self.query.as_str());
        push_str(&mut out, "\n\nOSINT_SEARCH: ");
        push_str(&mut out, self.tavily_results.as_str());
        push_str(&mut out, "\nNEWS_SIGNALS: ");
        push_str(&mut out, self.news_headlines.as_str());
        push_str(&mut out, "\nTERRAIN: ");
        push_str(&mut out, self.terrain_summary.as_str());
        push_str(&mut out, "\nWEATHER: ");
        push_str(&mut out, self.weather_summary.as_str());
        push_str(&mut out, "\nMARITIME: ");
        push_str(&mut out, self.maritime_summary.as_str());
        push_str(&mut out, "\nFINANCIAL: ");
        push_str(&mut out, self.financial_summary.as_str());
        push_str(&mut out, "\nSATELLITE: ");
        push_str(&mut out, self.satellite_summary.as_str());
        push_str(&mut out, "\nSENTIMENT: ");
        push_str(&mut out, self.sentiment_summary.as_str());
        push_str(&mut out, "\n\nYou are a senior intelligence analyst for Bharat Intel Quantum (BIQ).\nBased on the multi-source intelligence context above, compute a threat assessment.\nRespond ONLY with valid JSON in this exact format:\n{\n  \"score\": <float 0.0-1.0>,\n  \"level\": \"<NOMINAL|MONITORED|ELEVATED|HIGH|CRITICAL>\",\n  \"explanation\": \"<2-3 sentence assessment>\",\n  \"key_actors\": [\"<actor1>\", \"<actor2>\"],\n  \"key_locations\": [\"<loc1>\", \"<loc2>\"],\n  \"recommended_action\": \"<single actionable recommendation>\",\n  \"sources_used\": {\n    \"tavily\": ");
        let n = decimal_string(self.tavily_count as u64);
        push_str(&mut out, n.as_str());
        push_str(&mut out, ",\n    \"news\": ");
        let n = decimal_string(self.news_count as u64);
        push_str(&mut out, n.as_str());
        push_str(&mut out, ",\n    \"weather\": ");
        push_str(&mut out, bool_str(self.weather_ok));
        push_str(&mut out, ",\n    \"terrain\": ");
        push_str(&mut out, bool_str(self.terrain_ok));
        push_str(&mut out, ",\n    \"maritime\": ");
        push_str(&mut out, bool_str(self.maritime_ok));
        push_str(&mut out, ",\n    \"financial\": ");
        push_str(&mut out, bool_str(self.financial_ok));
        push_str(&mut out, ",\n    \"satellite\": ");
        push_str(&mut out, bool_str(self.satellite_ok));
        push_str(&mut out, "\n  }\n}");
        string_from_chars(out.as_slice())
    }
}

/// `UNAVAILABLE: ` and the reason.
pub fn unavailable(reason: &str) -> (r: String)
    ensures
        r@ == "UNAVAILABLE: "@ + reason@,
{
    prefixed("UNAVAILABLE: ", reason)
}

/// At most the first `n` characters of `s`.
pub open spec fn first_chars(s: Seq<char>, n: nat) -> Seq<char> {
    if s.len() > n {
        s.take(n as int)
    } else {
        s
    }
}

/// One search result in the context: its title in brackets and the first
/// 200 characters of its content.
pub fn osint_snippet(title: &str, content: &str) -> (r: String)
    ensures
        r@ == "["@ + title@ + "] "@ + first_chars(content@, 200),
{
    let mut out: Vec<char> = Vec::new();
    push_str(&mut out, "[");
    push_str(&mut out, title);
    push_str(&mut out, "] ");
    let c = chars_of(content);
    let n = if c.len() > 200 {
        200
    } else {
        c.len()
    };
    let head = slice_chars(c.as_slice(), 0, n);
    proof {
        if c@.len() <= 200 {
            assert(c@.subrange(0, n as int) =~= c@);
        }
    }
    crate::text::push_chars(&mut out, head.as_slice());
    string_from_chars(out.as_slice())
}

/// The search part of the context: the snippets joined by ` | `, preceded by
/// the search's own answer when it gave one.
pub fn osint_context(snippets: &Vec<String>, answer: Option<&str>) -> (r: String)
    ensures
        match answer {
            Some(a) => r@ == "ANSWER: "@ + a@ + " | SOURCES: "@ + joined(string_views(snippets@), " | "@),
            None => r@ == joined(string_views(snippets@), " | "@),
        },
{
    let sources = join(snippets, " | ");
    match answer {
        Some(a) => {
            let mut out: Vec<char> = Vec::new();
            push_str(&mut out, "ANSWER: ");
            push_str(&mut out, a);
            push_str(&mut out, " | SOURCES: ");
            push_str(&mut out, sources.as_str());
            string_from_chars(out.as_slice())
        },
        None => sources,
    }
}

/// The maritime part of the context.
pub fn maritime_summary(total: u64, dark: u64, high_risk: u64) -> (r: String)
    ensures
        r@ == decimal(total as nat) + " vessels tracked "@ + decimal(dark as nat)
            + " dark vessel(s) "@ + decimal(high_risk as nat) + " high-risk"@,
{
    let mut out: Vec<char> = Vec::new();
    let t = decimal_string(total);
    push_str(&mut out, t.as_str());
    push_str(&mut out, " vessels tracked ");
    let d = decimal_string(dark);
    push_str(&mut out, d.as_str());
    push_str(&mut out, " dark vessel(s) ");
    let h = decimal_string(high_risk);
    push_str(&mut out, h.as_str());
    push_str(&mut out, " high-risk");
    string_from_chars(out.as_slice())
}

/// The financial part of the context.
pub fn financial_summary(sanctioned: u64) -> (r: String)
    ensures
        r@ == decimal(sanctioned as nat) + " OFAC-linked wallet(s) detected"@,
{
    let n = decimal_string(sanctioned);
    prefixed(n.as_str(), " OFAC-linked wallet(s) detected")
}

/// The satellite part of the context and whether it counts as available:
/// no activity when there are no alerts, else the alert types joined by `, `.
pub fn satellite_summary(alert_types: &Vec<String>, alert_count: usize) -> (r: (String, bool))
    ensures
        alert_count == 0 ==> r.0@ == "no recent activity detected"@ && !r.1,
        alert_count > 0 ==> r.0@ == "activity detected: "@ + joined(string_views(alert_types@), ", "@)
            && r.1,
{
    if alert_count == 0 {
        (to_owned_string("no recent activity detected"), false)
    } else {
        let types = join(alert_types, ", ");
        (prefixed("activity detected: ", types.as_str()), true)
    }
}

/// The sentiment of the social signals: `ELEVATED` when more than three
/// Pakistan threats are cached, else `STABLE`.
pub fn sentiment_label(cached_threats: usize) -> (r: String)
    ensures
        r@ == (if cached_threats > 3 {
            "ELEVATED"@
        } else {
            "STABLE"@
        }),
{
    to_owned_string(if cached_threats > 3 { "ELEVATED" } else { "STABLE" })
}

/// The cache entry looked up before an assessment: the query lowercased,
/// then spaces made underscores.
pub fn fusion_lookup_key(query: &str) -> (r: String)
    ensures
        r@ == "cache:llm:fusion:"@ + replaced(lowercase_of(query@), " "@, "_"@),
{
    let lower = to_lowercase(query);
    let l = chars_of(lower.as_str());
    proof {
        reveal_strlit(" ");
    }
    let r = replace(l.as_slice(), " ", "_");
    let name = string_from_chars(r.as_slice());
    prefixed("cache:llm:fusion:", name.as_str())
}

/// The cache entry an assessment is stored under: spaces made underscores,
/// then lowercased.
pub fn fusion_store_key(query: &str) -> (r: String)
    ensures
        r@ == "cache:llm:fusion:"@ + lowercase_of(replaced(query@, " "@, "_"@)),
{
    let q = chars_of(query);
    proof {
        reveal_strlit(" ");
    }
    let r = replace(q.as_slice(), " ", "_");
    let s = string_from_chars(r.as_slice());
    let lower = to_lowercase(s.as_str());
    prefixed("cache:llm:fusion:", lower.as_str())
}

/// The reply with any Markdown code fence removed: trimmed, a leading
/// `` ```json `` and then `` ``` `` stripped as often as they occur, trailing
/// `` ``` `` stripped likewise, and trimmed again.
pub open spec fn unfenced(raw: Seq<char>) -> Seq<char> {
    trimmed(strip_suffixes(strip_prefixes(strip_prefixes(trimmed(raw), "```json"@), "```"@), "```"@))
}

/// Removes a Markdown code fence around a reply.
pub fn strip_code_fences(raw: &str) -> (r: String)
    ensures
        r@ == unfenced(raw@),
{
    let c = chars_of(raw);
    let t = trim(c.as_slice());
    proof {
        reveal_strlit("```json");
        reveal_strlit("```");
    }
    let a = trim_start_matches(t.as_slice(), "```json");
    let b = trim_start_matches(a.as_slice(), "```");
    let d = trim_end_matches(b.as_slice(), "```");
    let e = trim(d.as_slice());
    string_from_chars(e.as_slice())
}

/// Phrases that show an assessment found no threat.
pub open spec fn low_threat_phrases() -> Seq<&'static str> {
    seq![
        "no direct indicators",
        "no immediate security concerns",
        "no active threats",
        "normal activity",
        "no significant",
    ]
}

/// Whether an assessment's explanation, ignoring case, says it found no
/// threat, so that its score is capped.
pub fn should_downgrade(explanation: &str) -> (r: bool)
    ensures
        r == mentions_any(lowercase_of(explanation@), low_threat_phrases()),
{
    let phrases: [&str; 5] = [
        "no direct indicators",
        "no immediate security concerns",
        "no active threats",
        "normal activity",
        "no significant",
    ];
    assert(phrases@ =~= low_threat_phrases());
    let lower = to_lowercase(explanation);
    let l = chars_of(lower.as_str());
    contains_any(l.as_slice(), &phrases)
}

/// What the model service is reached with.
pub struct LlmConfig {
    pub api_key: String,
    pub base_url: String,
    pub model: String,
    pub cache_ttl_seconds: u64,
}

/// The reply given without asking the model when policy disables it.
pub fn policy_reply(env: &EnvSnapshot) -> (r: Option<String>)
    ensures
        llm_runs(env, true) ==> r is None,
        !llm_runs(env, true) ==> (r matches Some(m) && m@ == "LLM disabled by policy"@),
{
    if llm_enabled_for_event(env, true) {
        None
    } else {
        Some(to_owned_string("LLM disabled by policy"))
    }
}

impl LlmConfig {
    /// The model settings: the API key is required; the base URL, the model
    /// and the cache lifetime have defaults.
    pub fn from_env(env: &EnvSnapshot) -> (r: Result<LlmConfig, String>)
        ensures
            match env_value(env, "MISTRAL_API_KEY"@) {
                None => r matches Err(e) && e@ == "MISTRAL_API_KEY missing"@,
                Some(key) => r matches Ok(c) && {
                    &&& c.api_key@ == key
                    &&& c.base_url@ == value_or(env_value(env, "MISTRAL_BASE_URL"@), "https://api.mistral.ai/v1"@)
                    &&& c.model@ == value_or(env_value(env, "LLM_MODEL"@), "mistral-small-latest"@)
                    &&& c.cache_ttl_seconds == number_or(env_value(env, "LLM_CACHE_TTL_SECONDS"@), u64::MAX as nat, 3600)
                },
            },
    {
        let api_key = match env.get("MISTRAL_API_KEY") {
            Some(k) => to_owned_string(k),
            None => {
                return Err(to_owned_string("MISTRAL_API_KEY missing"));
            },
        };
        let base_url = match env.get("MISTRAL_BASE_URL") {
            Some(v) => to_owned_string(v),
            None => to_owned_string("https://api.mistral.ai/v1"),
        };
        let model = match env.get("LLM_MODEL") {
            Some(v) => to_owned_string(v),
            None => to_owned_string("mistral-small-latest"),
        };
        let cache_ttl_seconds = env.number_or("LLM_CACHE_TTL_SECONDS", u64::MAX, 3600);
        Ok(LlmConfig { api_key, base_url, model, cache_ttl_seconds })
    }

    /// The chat endpoint: the base URL without trailing slashes, then
    /// `/chat/completions`.
    pub fn chat_endpoint(&self) -> (r: String)
        ensures
            r@ == strip_suffixes(self.base_url@, "/"@) + "/chat/completions"@,
    {
        let b = chars_of(self.base_url.as_str());
        proof {
            reveal_strlit("/");
        }
        let t = trim_end_matches(b.as_slice(), "/");
        let s = string_from_chars(t.as_slice());
        prefixed(s.as_str(), "/chat/completions")
    }

    /// The authorization header value.
    pub fn authorization(&self) -> (r: String)
        ensures
            r@ == "Bearer "@ + self.api_key@,
    {
        prefixed("Bearer ", self.api_key.as_str())
    }
}

} // verus!

//! The decisions of the intelligence endpoints: quota gates around provider
//! fetches, refusals, the count of answering providers and how an update
//! is announced.

use vstd::prelude::*;
use crate::reports::GenericFallbackResponse;
use crate::text::{chars_of, prefixed, equals, string_views, to_owned_string};

verus! {

/// What to do with a provider's answer fetched under a quota.
#[derive(Debug, Clone, Copy, PartialEq, Eq, Structural)]
pub enum GateOutcome {
    /// Serve the answer; `count` says whether it is charged to the quota.
    Serve { count: bool },
    /// Refuse with a `quota_limited` status.
    QuotaLimited,
}

/// The decision on a quota-gated fetch. With room left the answer is served
/// and charged unless it came from the cache; with the quota used up only a
/// cached answer is served, and it is never charged.
pub open spec fn gate(has_room: bool, from_cache: bool) -> GateOutcome {
    if has_room {
        GateOutcome::Serve { count: !from_cache }
    } else if from_cache {
        GateOutcome::Serve { count: false }
    } else {
        GateOutcome::QuotaLimited
    }
}

/// Decides a quota-gated fetch.
pub fn gated_fetch(has_room: bool, from_cache: bool) -> (r: GateOutcome)
    ensures
        r == gate(has_room, from_cache),
{
    if has_room {
        GateOutcome::Serve { count: !from_cache }
    } else if from_cache {
        GateOutcome::Serve { count: false }
    } else {
        GateOutcome::QuotaLimited
    }
}

/// Whether a gate decision charges the quota.
pub open spec fn charges(o: GateOutcome) -> bool {
    o matches GateOutcome::Serve { count } && count
}

/// Whether a gate decision serves the answer.
pub open spec fn serves(o: GateOutcome) -> bool {
    o is Serve
}

/// An answer taken from the cache is never charged to the quota, and a
/// refusal happens only when the quota is used up and nothing is cached.
pub proof fn law_cached_answers_are_free(has_room: bool, from_cache: bool)
    ensures
        from_cache ==> !charges(gate(has_room, from_cache)) && serves(gate(has_room, from_cache)),
        !serves(gate(has_room, from_cache)) <==> (!has_room && !from_cache),
        charges(gate(has_room, from_cache)) ==> has_room,
{
}

/// Whether a provider's reply came from the cache.
pub fn answered_from_cache(provider_path: &Option<String>) -> (r: bool)
    ensures
        r == (provider_path matches Some(p) && p@ == "redis_cache"@),
{
    match provider_path {
        Some(p) => {
            let c = chars_of(p.as_str());
            equals(c.as_slice(), "redis_cache")
        },
        None => false,
    }
}

/// The counter of a provider for a period: `prefix:period`.
pub fn quota_key(prefix: &str, period: &str) -> (r: String)
    ensures
        r@ == prefix@ + ":"@ + period@,
{
    let p = prefixed(prefix, ":");
    prefixed(p.as_str(), period)
}

/// One when the flag is set, else zero.
pub open spec fn one_if(b: bool) -> nat {
    if b {
        1
    } else {
        0
    }
}

/// How many of the six providers of an assessment answered.
pub fn providers_available(news_ok: bool, weather_ok: bool, maritime_ok: bool, geo_ok: bool, satellite_ok: bool, llm_ok: bool) -> (r: u8)
    ensures
        r == one_if(news_ok) + one_if(weather_ok) + one_if(maritime_ok) + one_if(geo_ok) + one_if(
            satellite_ok,
        ) + one_if(llm_ok),
{
    let mut avail: u8 = 0;
    if news_ok {
        avail = avail + 1;
    }
    if weather_ok {
        avail = avail + 1;
    }
    if maritime_ok {
        avail = avail + 1;
    }
    if geo_ok {
        avail = avail + 1;
    }
    if satellite_ok {
        avail = avail + 1;
    }
    if llm_ok {
        avail = avail + 1;
    }
    avail
}

/// The priority of the live update announcing an assessment of level `risk`.
pub open spec fn update_priority(risk: Seq<char>) -> Seq<char> {
    if risk == "CRITICAL"@ || risk == "HIGH"@ {
        "high"@
    } else if risk == "ELEVATED"@ {
        "medium"@
    } else {
        "low"@
    }
}

/// The priority of the live update for an assessment.
pub fn ws_priority_for_risk(risk: &str) -> (r: &'static str)
    ensures
        r@ == update_priority(risk@),
{
    let c = chars_of(risk);
    if equals(c.as_slice(), "CRITICAL") || equals(c.as_slice(), "HIGH") {
        "high"
    } else if equals(c.as_slice(), "ELEVATED") {
        "medium"
    } else {
        "low"
    }
}

/// The places written to the graph: those the assessment names, and the
/// resolved place of the query when there is one.
pub fn graph_locations(named: Vec<String>, location_name: &str) -> (r: Vec<String>)
    ensures
        (location_name@.len() > 0 && location_name@ != "Unknown"@) ==> string_views(r@) == string_views(
            named@,
        ).push(location_name@),
        !(location_name@.len() > 0 && location_name@ != "Unknown"@) ==> r@ == named@,
{
    let mut out = named;
    let l = chars_of(location_name);
    if l.len() > 0 && !equals(l.as_slice(), "Unknown") {
        let ghost before = string_views(out@);
        out.push(to_owned_string(location_name));
        assert(string_views(out@) =~= before.push(location_name@));
    }
    out
}

/// The place of a correlation alert: the first place named, else `global`.
pub fn first_location_or_global(locations: &Vec<String>) -> (r: String)
    ensures
        locations@.len() > 0 ==> r@ == locations@[0]@,
        locations@.len() == 0 ==> r@ == "global"@,
{
    if locations.len() > 0 {
        locations[0].clone()
    } else {
        to_owned_string("global")
    }
}

/// A refusal of a quota-guarded endpoint.
pub struct Refusal {
    pub http_status: u16,
    pub status: String,
    pub error: String,
}

/// The refusal owed for a quota check: none when it allows the call; 429
/// with `provider_limited` and `limited_error` when the quota is used up;
/// 503 with `store_status` and the store's error when the check failed.
pub fn quota_refusal(check: &Result<bool, String>, store_status: &str, limited_error: &str) -> (r: Option<
    Refusal,
>)
    ensures
        check matches Ok(true) ==> r is None,
        check matches Ok(false) ==> (r matches Some(f) && f.http_status == 429 && f.status@ == "provider_limited"@
            && f.error@ == limited_error@),
        check matches Err(e) ==> (r matches Some(f) && f.http_status == 503 && f.status@ == store_status@
            && f.error@ == e@),
{
    match check {
        Ok(true) => None,
        Ok(false) => Some(
            Refusal {
                http_status: 429,
                status: to_owned_string("provider_limited"),
                error: to_owned_string(limited_error),
            },
        ),
        Err(e) => Some(Refusal { http_status: 503, status: to_owned_string(store_status), error: e.clone() }),
    }
}

/// The reply of a provider endpoint whose quota is used up.
pub fn provider_limited<T>(provider: &str, error: &str) -> (r: GenericFallbackResponse<T>)
    ensures
        r.status@ == "provider_limited"@,
        r.provider_path matches Some(p) && p@ == provider@,
        r.error matches Some(e) && e@ == error@,
        r.results@.len() == 0,
{
    GenericFallbackResponse {
        status: to_owned_string("provider_limited"),
        provider_path: Some(to_owned_string(provider)),
        error: Some(to_owned_string(error)),
        results: Vec::new(),
    }
}


/// The factors of a correlation, in a fixed order, or the baseline when none applies.
pub open spec fn contributors_for(vessel_risk: bool, severe_news: bool, adverse_weather: bool) -> Seq<Seq<char>> {
    let found = crate::fusion::when(vessel_risk, "high_risk_vessel_detected"@) + crate::fusion::when(
        severe_news,
        "high_severity_news"@,
    ) + crate::fusion::when(adverse_weather, "adverse_weather_conditions"@);
    if found.len() == 0 {
        seq!["baseline_activity"@]
    } else {
        found
    }
}

/// Names the factors of a correlation.
pub fn correlation_contributors(vessel_risk: bool, severe_news: bool, adverse_weather: bool) -> (r: Vec<String>)
    ensures
        string_views(r@) == contributors_for(vessel_risk, severe_news, adverse_weather),
{
    let mut out: Vec<String> = Vec::new();
    if vessel_risk {
        out.push(to_owned_string("high_risk_vessel_detected"));
    }
    if severe_news {
        out.push(to_owned_string("high_severity_news"));
    }
    if adverse_weather {
        out.push(to_owned_string("adverse_weather_conditions"));
    }
    if out.len() == 0 {
        out.push(to_owned_string("baseline_activity"));
    }
    assert(string_views(out@) =~= contributors_for(vessel_risk, severe_news, adverse_weather));
    out
}

/// Whether any cached headline is of high severity.
pub fn any_high_severity(threats: &Vec<crate::news::NewsThreat>) -> (r: bool)
    ensures
        r == exists|k: int| 0 <= k < threats@.len() && (#[trigger] threats@[k]).severity@ == "high"@,
{
    let mut i: usize = 0;
    while i < threats.len()
        invariant
            0 <= i <= threats@.len(),
            forall|k: int| 0 <= k < i ==> (#[trigger] threats@[k]).severity@ != "high"@,
        decreases threats.len() - i,
    {
        let c = chars_of(threats[i].severity.as_str());
        if equals(c.as_slice(), "high") {
            return true;
        }
        i = i + 1;
    }
    false
}

/// The explanation of a correlation when the model gave none.
pub fn fallback_explanation(factor_count: u64) -> (r: String)
    ensures
        r@ == "Calculated correlation from "@ + crate::numbers::decimal(factor_count as nat) + " factors."@,
{
    let n = crate::numbers::decimal_string(factor_count);
    let mut out: Vec<char> = Vec::new();
    crate::text::push_str(&mut out, "Calculated correlation from ");
    crate::text::push_str(&mut out, n.as_str());
    crate::text::push_str(&mut out, " factors.");
    crate::text::string_from_chars(out.as_slice())
}

/// An identifier stamped with a time in seconds: `prefix` and the time.
pub fn stamped_id(prefix: &str, seconds: i64) -> (r: String)
    ensures
        r@ == prefix@ + crate::maritime::signed_decimal(seconds as int),
{
    let mut out: Vec<char> = Vec::new();
    crate::text::push_str(&mut out, prefix);
    if seconds < 0 {
        crate::text::push_str(&mut out, "-");
        let wide: i128 = seconds as i128;
        let magnitude: u64 = (0 - wide) as u64;
        let d = crate::numbers::decimal_string(magnitude);
        crate::text::push_str(&mut out, d.as_str());
    } else {
        let d = crate::numbers::decimal_string(seconds as u64);
        crate::text::push_str(&mut out, d.as_str());
    }
    crate::text::string_from_chars(out.as_slice())
}

/// The live update announcing a scheduled fetch of a provider.
pub fn scheduled_update_message(provider: &str) -> (r: String)
    ensures
        r@ == "Scheduled "@ + provider@ + " update"@,
{
    let mut out: Vec<char> = Vec::new();
    crate::text::push_str(&mut out, "Scheduled ");
    crate::text::push_str(&mut out, provider);
    crate::text::push_str(&mut out, " update");
    crate::text::string_from_chars(out.as_slice())
}


/// Whether a live update is delivered to a session: a session that asked
/// for high-priority updates only receives those marked `high` (and vessel
/// updates judged high-risk); any other session receives everything.
pub fn delivers_update(high_only: bool, priority: &str) -> (r: bool)
    ensures
        r == (!high_only || priority@ == "high"@),
{
    if !high_only {
        return true;
    }
    let p = chars_of(priority);
    equals(p.as_slice(), "high")
}

/// Whether a live session has been idle too long: more than 60 seconds
/// since the last heartbeat, given as whole seconds and nanoseconds.
pub fn session_expired(idle_secs: u64, idle_nanos: u32) -> (r: bool)
    ensures
        r == (idle_secs > 60 || (idle_secs == 60 && idle_nanos > 0)),
{
    idle_secs > 60 || (idle_secs == 60 && idle_nanos > 0)
}


/// The risk of border penetration from the number of cached cross-border
/// threats: `CRITICAL` above ten, `HIGH` above five, else `MONITORED`.
pub open spec fn penetration_level(threats: nat) -> Seq<char> {
    if threats > 10 {
        "CRITICAL"@
    } else if threats > 5 {
        "HIGH"@
    } else {
        "MONITORED"@
    }
}

/// Grades the risk of border penetration.
pub fn border_risk_level(threat_count: u64) -> (r: &'static str)
    ensures
        r@ == penetration_level(threat_count as nat),
{
    if threat_count > 10 {
        "CRITICAL"
    } else if threat_count > 5 {
        "HIGH"
    } else {
        "MONITORED"
    }
}

/// The sector a predicted attack targets: Ladakh when any cached threat
/// comes from China (`CN`), else Siachen.
pub fn predicted_target(countries: &Vec<String>) -> (r: String)
    ensures
        (exists|k: int| 0 <= k < countries@.len() && (#[trigger] countries@[k])@ == "CN"@) ==> r@
            == "Ladakh border"@,
        !(exists|k: int| 0 <= k < countries@.len() && (#[trigger] countries@[k])@ == "CN"@) ==> r@
            == "Siachen border"@,
{
    let mut i: usize = 0;
    while i < countries.len()
        invariant
            0 <= i <= countries@.len(),
            forall|k: int| 0 <= k < i ==> (#[trigger] countries@[k])@ != "CN"@,
        decreases countries.len() - i,
    {
        let c = chars_of(countries[i].as_str());
        if equals(c.as_slice(), "CN") {
            return to_owned_string("Ladakh border");
        }
        i = i + 1;
    }
    to_owned_string("Siachen border")
}

} // verus!

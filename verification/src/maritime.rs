//! Vessel tracking: identifiers, the last-seen records of vessels, dark
//! vessel detection and the collection of live positions.

use vstd::prelude::*;
use std::collections::HashSet;
use crate::numbers::{decimal, decimal_string};
use crate::reports::GenericFallbackResponse;
use crate::settings::{env_value, number_or, EnvSnapshot};
use crate::text::{
    chars_eq, chars_of, prefixed, push_str, replace, replaced, split_chars, split_on, string_from_chars,
    to_owned_string, trim, trimmed,
};

verus! {

/// The kinds of vessel behaviour that are flagged.
#[derive(Debug, Clone, Copy, PartialEq, Eq, Structural)]
pub enum AnomalyType {
    StationaryInOpenSea,
    RouteDeviation,
    MissingSignal,
    HighSpeedInRestricted,
    UnknownNavStatus,
    DarkVessel,
}

/// The name of an anomaly kind.
pub open spec fn anomaly_name(t: AnomalyType) -> Seq<char> {
    match t {
        AnomalyType::StationaryInOpenSea => "StationaryInOpenSea"@,
        AnomalyType::RouteDeviation => "RouteDeviation"@,
        AnomalyType::MissingSignal => "MissingSignal"@,
        AnomalyType::HighSpeedInRestricted => "HighSpeedInRestricted"@,
        AnomalyType::UnknownNavStatus => "UnknownNavStatus"@,
        AnomalyType::DarkVessel => "DarkVessel"@,
    }
}

impl AnomalyType {
    /// The name of the kind (what `Display` writes).
    pub fn to_string(&self) -> (r: String)
        ensures
            r@ == anomaly_name(*self),
    {
        to_owned_string(
            match self {
                AnomalyType::StationaryInOpenSea => "StationaryInOpenSea",
                AnomalyType::RouteDeviation => "RouteDeviation",
                AnomalyType::MissingSignal => "MissingSignal",
                AnomalyType::HighSpeedInRestricted => "HighSpeedInRestricted",
                AnomalyType::UnknownNavStatus => "UnknownNavStatus",
                AnomalyType::DarkVessel => "DarkVessel",
            },
        )
    }
}

/// How long a vessel may go unseen before it counts as dark, in seconds.
pub const DARK_VESSEL_THRESHOLD_SECS: i64 = 1800;

/// The MMSI of a vessel identifier: the identifier with every `MMSI-` removed.
pub open spec fn mmsi_of(vessel_id: Seq<char>) -> Seq<char> {
    replaced(vessel_id, "MMSI-"@, Seq::empty())
}

/// The MMSI of a vessel identifier.
pub fn vessel_mmsi(vessel_id: &str) -> (r: String)
    ensures
        r@ == mmsi_of(vessel_id@),
{
    let v = chars_of(vessel_id);
    proof {
        reveal_strlit("MMSI-");
        reveal_strlit("");
        assert(""@ =~= Seq::<char>::empty());
    }
    let r = replace(v.as_slice(), "MMSI-", "");
    string_from_chars(r.as_slice())
}

/// The record of when a vessel was last seen.
pub fn last_seen_key(mmsi: &str) -> (r: String)
    ensures
        r@ == "ais:vessel:"@ + mmsi@ + ":last_seen"@,
{
    let mut out: Vec<char> = Vec::new();
    push_str(&mut out, "ais:vessel:");
    push_str(&mut out, mmsi);
    push_str(&mut out, ":last_seen");
    string_from_chars(out.as_slice())
}

/// The mark that a vessel went dark.
pub fn dark_key(mmsi: &str) -> (r: String)
    ensures
        r@ == "ais:vessel:"@ + mmsi@ + ":dark"@,
{
    let mut out: Vec<char> = Vec::new();
    push_str(&mut out, "ais:vessel:");
    push_str(&mut out, mmsi);
    push_str(&mut out, ":dark");
    string_from_chars(out.as_slice())
}

/// The vessel a last-seen record belongs to, unless it is still in view:
/// the third `:`-separated part of the record's name, when it has at least
/// four parts and that MMSI is not among `current`.
pub open spec fn unseen_vessel(key: Seq<char>, current: Seq<Seq<char>>) -> Option<Seq<char>> {
    let parts = split_on(key, ':');
    if parts.len() < 4 {
        None
    } else if current.contains(parts[2]) {
        None
    } else {
        Some(parts[2])
    }
}

/// The MMSIs currently in view: those of the current vessel identifiers.
pub open spec fn current_mmsis(vessel_ids: Seq<Seq<char>>) -> Seq<Seq<char>> {
    vessel_ids.map_values(|v: Seq<char>| mmsi_of(v))
}

/// The MMSIs of the vessels currently in view.
pub fn mmsis_in_view(vessel_ids: &Vec<String>) -> (r: Vec<Vec<char>>)
    ensures
        r@.len() == vessel_ids@.len(),
        forall|k: int| 0 <= k < r@.len() ==> (#[trigger] r@[k])@ == mmsi_of(vessel_ids@[k]@),
{
    let mut out: Vec<Vec<char>> = Vec::new();
    let mut i: usize = 0;
    while i < vessel_ids.len()
        invariant
            0 <= i <= vessel_ids@.len(),
            out@.len() == i,
            forall|k: int| 0 <= k < i ==> (#[trigger] out@[k])@ == mmsi_of(vessel_ids@[k]@),
        decreases vessel_ids.len() - i,
    {
        let m = vessel_mmsi(vessel_ids[i].as_str());
        out.push(chars_of(m.as_str()));
        i = i + 1;
    }
    out
}

/// The vessel a last-seen record belongs to, if it is no longer in view.
pub fn unseen_vessel_of(key: &str, in_view: &Vec<Vec<char>>) -> (r: Option<String>)
    ensures
        match r {
            Some(m) => unseen_vessel(key@, in_view@.map_values(|v: Vec<char>| v@)) == Some(m@),
            None => unseen_vessel(key@, in_view@.map_values(|v: Vec<char>| v@)) is None,
        },
{
    let ghost views = in_view@.map_values(|v: Vec<char>| v@);
    let k = chars_of(key);
    let parts = split_chars(k.as_slice(), ':');
    if parts.len() < 4 {
        return None;
    }
    let mmsi = &parts[2];
    let mut j: usize = 0;
    while j < in_view.len()
        invariant
            0 <= j <= in_view@.len(),
            views == in_view@.map_values(|v: Vec<char>| v@),
            mmsi@ == split_on(key@, ':')[2],
            forall|t: int| 0 <= t < j ==> views[t] != mmsi@,
        decreases in_view.len() - j,
    {
        if chars_eq(in_view[j].as_slice(), mmsi.as_slice()) {
            assert(views[j as int] == mmsi@);
            return None;
        }
        j = j + 1;
    }
    assert(!views.contains(mmsi@));
    Some(string_from_chars(mmsi.as_slice()))
}

/// Whether a vessel last seen at `seen_at` has been gone longer than the
/// dark threshold at `now` (seconds since the epoch).
pub fn has_gone_dark(now: i64, seen_at: i64) -> (r: bool)
    requires
        i64::MIN <= now - seen_at <= i64::MAX,
    ensures
        r == (now - seen_at > DARK_VESSEL_THRESHOLD_SECS),
{
    now - seen_at > DARK_VESSEL_THRESHOLD_SECS
}

/// The text of a signed number.
pub open spec fn signed_decimal(n: int) -> Seq<char> {
    if n < 0 {
        "-"@ + decimal((-n) as nat)
    } else {
        decimal(n as nat)
    }
}

/// The identifier of the vessel with an MMSI.
pub fn vessel_id_for(mmsi: i64) -> (r: String)
    ensures
        r@ == "MMSI-"@ + signed_decimal(mmsi as int),
{
    let mut out: Vec<char> = Vec::new();
    push_str(&mut out, "MMSI-");
    if mmsi < 0 {
        push_str(&mut out, "-");
        let wide: i128 = mmsi as i128;
        let magnitude: u64 = (0 - wide) as u64;
        let d = decimal_string(magnitude);
        push_str(&mut out, d.as_str());
    } else {
        let d = decimal_string(mmsi as u64);
        push_str(&mut out, d.as_str());
    }
    string_from_chars(out.as_slice())
}

/// The name reported for a ship: its trimmed name, `UNKNOWN` when none was sent.
pub fn ship_name(name: Option<&str>) -> (r: String)
    ensures
        r@ == trimmed(match name {
            Some(n) => n@,
            None => "UNKNOWN"@,
        }),
{
    let raw = match name {
        Some(n) => n,
        None => "UNKNOWN",
    };
    let c = chars_of(raw);
    let t = trim(c.as_slice());
    string_from_chars(t.as_slice())
}

/// The collection of live positions: the MMSIs already recorded, how many
/// vessels were recorded, and how many are wanted.
pub struct AisCollector {
    pub seen: HashSet<i64>,
    pub recorded: usize,
    pub max_vessels: usize,
}

/// What to do with one position report.
#[derive(Debug, Clone, Copy, PartialEq, Eq, Structural)]
pub enum PositionVerdict {
    /// Ignore it: no MMSI, or the vessel is already recorded.
    Skip,
    /// Record the vessel and keep listening.
    Record,
    /// Record the vessel; enough vessels are then collected.
    RecordAndStop,
}

impl AisCollector {
    /// A collection wanting `max_vessels` vessels.
    pub fn new(max_vessels: usize) -> (r: Self)
        ensures
            r.seen@ == Set::<i64>::empty(),
            r.recorded == 0,
            r.max_vessels == max_vessels,
    {
        AisCollector { seen: HashSet::new(), recorded: 0, max_vessels }
    }

    /// Handles a position report of vessel `mmsi`: a report without MMSI
    /// (zero) or of a vessel already recorded is skipped; any other is
    /// recorded, and collection stops once `max_vessels` are recorded.
    pub fn on_position(&mut self, mmsi: i64) -> (r: PositionVerdict)
        requires
            old(self).recorded < usize::MAX,
        ensures
            (mmsi == 0 || old(self).seen@.contains(mmsi)) ==> r == PositionVerdict::Skip
                && final(self).seen@ == old(self).seen@ && final(self).recorded == old(self).recorded,
            !(mmsi == 0 || old(self).seen@.contains(mmsi)) ==> {
                &&& final(self).seen@ == old(self).seen@.insert(mmsi)
                &&& final(self).recorded == old(self).recorded + 1
                &&& r == if final(self).recorded >= old(self).max_vessels {
                    PositionVerdict::RecordAndStop
                } else {
                    PositionVerdict::Record
                }
            },
            final(self).max_vessels == old(self).max_vessels,
    {
        broadcast use vstd::std_specs::hash::group_hash_axioms;

        if mmsi == 0 || self.seen.contains(&mmsi) {
            return PositionVerdict::Skip;
        }
        self.seen.insert(mmsi);
        self.recorded = self.recorded + 1;
        if self.recorded >= self.max_vessels {
            PositionVerdict::RecordAndStop
        } else {
            PositionVerdict::Record
        }
    }
}

/// The error reported when the stream sends an error message.
pub fn stream_error(message: &str) -> (r: String)
    ensures
        r@ == "AISstream error: "@ + message@,
{
    prefixed("AISstream error: ", message)
}

/// The settings of the vessel provider.
pub struct MaritimeSettings {
    /// How long fetched vessels stay cached, in seconds.
    pub cache_ttl_seconds: u64,
    /// How many vessels one collection gathers.
    pub max_vessels: u64,
}

impl MaritimeSettings {
    /// `MARITIME_POLL_SECONDS` (default 300) and `AISSTREAM_MAX_VESSELS`
    /// (default 20).
    pub fn from_env(env: &EnvSnapshot) -> (r: Self)
        ensures
            r.cache_ttl_seconds == number_or(env_value(env, "MARITIME_POLL_SECONDS"@), u64::MAX as nat, 300),
            r.max_vessels == number_or(env_value(env, "AISSTREAM_MAX_VESSELS"@), u64::MAX as nat, 20),
    {
        MaritimeSettings {
            cache_ttl_seconds: env.number_or("MARITIME_POLL_SECONDS", u64::MAX, 300),
            max_vessels: env.number_or("AISSTREAM_MAX_VESSELS", u64::MAX, 20),
        }
    }
}

/// How a vessel fetch ended.
pub enum FetchOutcome<T> {
    /// The vessels were still cached.
    Cached(Vec<T>),
    /// The stream delivered vessels.
    Fetched(Vec<T>),
    /// The stream failed with this error.
    Failed(String),
    /// No stream key is configured.
    KeyMissing,
}

/// The error when the collection window closes without any vessel.
pub fn no_vessels_error() -> (r: String)
    ensures
        r@ == "No live vessels detected in the monitored region within the collection window"@,
{
    to_owned_string("No live vessels detected in the monitored region within the collection window")
}

/// The reply of the vessel provider for each way a fetch can end.
pub fn maritime_response<T>(outcome: FetchOutcome<T>) -> (r: GenericFallbackResponse<T>)
    ensures
        match outcome {
            FetchOutcome::Cached(rows) => r.status@ == "ok"@ && (r.provider_path matches Some(p) && p@
                == "redis_cache"@) && r.error is None && r.results@ == rows@,
            FetchOutcome::Fetched(rows) => r.status@ == "ok"@ && (r.provider_path matches Some(p) && p@
                == "aisstream"@) && r.error is None && r.results@ == rows@,
            FetchOutcome::Failed(e) => r.status@ == "provider_error"@ && (r.provider_path matches Some(p)
                && p@ == "aisstream"@) && (r.error matches Some(m) && m@ == e@) && r.results@.len() == 0,
            FetchOutcome::KeyMissing => r.status@ == "provider_missing"@ && (r.provider_path matches Some(
                p,
            ) && p@ == "aisstream"@) && (r.error matches Some(m) && m@ == "AISSTREAM_API_KEY missing"@)
                && r.results@.len() == 0,
        },
{
    match outcome {
        FetchOutcome::Cached(rows) => GenericFallbackResponse {
            status: to_owned_string("ok"),
            provider_path: Some(to_owned_string("redis_cache")),
            error: None,
            results: rows,
        },
        FetchOutcome::Fetched(rows) => GenericFallbackResponse {
            status: to_owned_string("ok"),
            provider_path: Some(to_owned_string("aisstream")),
            error: None,
            results: rows,
        },
        FetchOutcome::Failed(e) => GenericFallbackResponse {
            status: to_owned_string("provider_error"),
            provider_path: Some(to_owned_string("aisstream")),
            error: Some(e),
            results: Vec::new(),
        },
        FetchOutcome::KeyMissing => GenericFallbackResponse {
            status: to_owned_string("provider_missing"),
            provider_path: Some(to_owned_string("aisstream")),
            error: Some(to_owned_string("AISSTREAM_API_KEY missing")),
            results: Vec::new(),
        },
    }
}

} // verus!

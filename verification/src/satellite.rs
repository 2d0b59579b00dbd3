//! Satellite imagery alerts: the credentials of the imagery service, the
//! alert identifiers taken from a catalogue search, and the provider reply.

use vstd::prelude::*;
use crate::reports::GenericFallbackResponse;
use crate::settings::{env_value, number_or, EnvSnapshot};
use crate::text::{chars_of, string_views, to_owned_string};

verus! {

/// A credential that counts: set and not empty.
pub open spec fn present(v: Option<Seq<char>>) -> Option<Seq<char>> {
    match v {
        Some(s) => if s.len() > 0 {
            Some(s)
        } else {
            None
        },
        None => None,
    }
}

/// A variable that is set and not empty.
fn non_empty_var(env: &EnvSnapshot, name: &str) -> (r: Option<String>)
    ensures
        match r {
            Some(v) => present(env_value(env, name@)) == Some(v@),
            None => present(env_value(env, name@)) is None,
        },
{
    match env.get(name) {
        Some(v) => {
            let c = chars_of(v);
            if c.len() > 0 {
                Some(to_owned_string(v))
            } else {
                None
            }
        },
        None => None,
    }
}

/// The client credentials of the imagery service, when both are configured.
pub fn sentinel_credentials(env: &EnvSnapshot) -> (r: Option<(String, String)>)
    ensures
        match r {
            Some((id, secret)) => present(env_value(env, "SENTINEL_CLIENT_ID"@)) == Some(id@) && present(
                env_value(env, "SENTINEL_CLIENT_SECRET"@),
            ) == Some(secret@),
            None => present(env_value(env, "SENTINEL_CLIENT_ID"@)) is None || present(
                env_value(env, "SENTINEL_CLIENT_SECRET"@),
            ) is None,
        },
{
    let id = match non_empty_var(env, "SENTINEL_CLIENT_ID") {
        Some(v) => v,
        None => {
            return None;
        },
    };
    let secret = match non_empty_var(env, "SENTINEL_CLIENT_SECRET") {
        Some(v) => v,
        None => {
            return None;
        },
    };
    Some((id, secret))
}

/// How long catalogue results stay cached: `SENTINEL_POLL_SECONDS`, default an hour.
pub fn satellite_cache_ttl(env: &EnvSnapshot) -> (r: u64)
    ensures
        r == number_or(env_value(env, "SENTINEL_POLL_SECONDS"@), u64::MAX as nat, 3600),
{
    env.number_or("SENTINEL_POLL_SECONDS", u64::MAX, 3600)
}

/// The alert identifiers of a catalogue search: each feature's id, or
/// `SAT-UNK` when it has none; a single `SAT-LADAKH-001` when the search
/// found no feature.
pub open spec fn alert_ids_of(ids: Seq<Option<Seq<char>>>) -> Seq<Seq<char>> {
    if ids.len() == 0 {
        seq!["SAT-LADAKH-001"@]
    } else {
        ids.map_values(|o: Option<Seq<char>>| match o {
            Some(s) => s,
            None => "SAT-UNK"@,
        })
    }
}

/// The alert identifiers of a catalogue search.
pub fn alert_ids(ids: &Vec<Option<String>>) -> (r: Vec<String>)
    ensures
        string_views(r@) == alert_ids_of(ids@.map_values(|o: Option<String>| match o {
            Some(s) => Some(s@),
            None => None,
        })),
{
    let ghost iv = ids@.map_values(|o: Option<String>| match o {
        Some(s) => Some(s@),
        None => None,
    });
    let mut out: Vec<String> = Vec::new();
    if ids.len() == 0 {
        out.push(to_owned_string("SAT-LADAKH-001"));
        assert(string_views(out@) =~= alert_ids_of(iv));
        return out;
    }
    let mut i: usize = 0;
    while i < ids.len()
        invariant
            0 <= i <= ids@.len(),
            iv == ids@.map_values(|o: Option<String>| match o {
                Some(s) => Some(s@),
                None => None,
            }),
            string_views(out@) == alert_ids_of(iv).take(i as int),
            ids@.len() > 0,
        decreases ids.len() - i,
    {
        let id = match &ids[i] {
            Some(s) => s.clone(),
            None => to_owned_string("SAT-UNK"),
        };
        let ghost before = string_views(out@);
        assert(alert_ids_of(iv)[i as int] == id@) by {
            assert(iv[i as int] == match ids@[i as int] {
                Some(s) => Some(s@),
                None => None::<Seq<char>>,
            });
            reveal_strlit("SAT-UNK");
        }
        assert(alert_ids_of(iv).len() == ids@.len());
        out.push(id);
        assert(string_views(out@) =~= before.push(alert_ids_of(iv)[i as int]));
        assert(alert_ids_of(iv).take(i + 1) =~= alert_ids_of(iv).take(i as int).push(alert_ids_of(iv)[i as int]));
        i = i + 1;
    }
    assert(alert_ids_of(iv).take(ids@.len() as int) =~= alert_ids_of(iv));
    out
}

/// The catalogue search endpoint, which also names the answering path.
pub open spec fn catalogue_url() -> Seq<char> {
    "https://sh.dataspace.copernicus.eu/api/v1/catalog/1.0.0/search"@
}

/// How an imagery fetch ended.
pub enum SatelliteOutcome<T> {
    /// The alerts were still cached.
    Cached(Vec<T>),
    /// No access token could be obtained.
    NoToken,
    /// The catalogue answered with alerts.
    Fetched(Vec<T>),
    /// The catalogue failed with this error.
    Failed(String),
}

/// The reply of the imagery provider for each way a fetch can end.
pub fn satellite_response<T>(outcome: SatelliteOutcome<T>) -> (r: GenericFallbackResponse<T>)
    ensures
        match outcome {
            SatelliteOutcome::Cached(rows) => r.status@ == "ok"@ && (r.provider_path matches Some(p) && p@
                == "redis_cache"@) && r.error is None && r.results@ == rows@,
            SatelliteOutcome::NoToken => r.status@ == "sentinel_pending"@ && r.provider_path is None && (
            r.error matches Some(e) && e@ == "Sentinel token unavailable"@) && r.results@.len() == 0,
            SatelliteOutcome::Fetched(rows) => r.status@ == "ok"@ && (r.provider_path matches Some(p) && p@
                == catalogue_url()) && r.error is None && r.results@ == rows@,
            SatelliteOutcome::Failed(e) => r.status@ == "sentinel_pending"@ && (r.provider_path matches Some(
                p,
            ) && p@ == catalogue_url()) && (r.error matches Some(m) && m@ == e@) && r.results@.len() == 0,
        },
{
    match outcome {
        SatelliteOutcome::Cached(rows) => GenericFallbackResponse {
            status: to_owned_string("ok"),
            provider_path: Some(to_owned_string("redis_cache")),
            error: None,
            results: rows,
        },
        SatelliteOutcome::NoToken => GenericFallbackResponse {
            status: to_owned_string("sentinel_pending"),
            provider_path: None,
            error: Some(to_owned_string("Sentinel token unavailable")),
            results: Vec::new(),
        },
        SatelliteOutcome::Fetched(rows) => GenericFallbackResponse {
            status: to_owned_string("ok"),
            provider_path: Some(to_owned_string("https://sh.dataspace.copernicus.eu/api/v1/catalog/1.0.0/search")),
            error: None,
            results: rows,
        },
        SatelliteOutcome::Failed(e) => GenericFallbackResponse {
            status: to_owned_string("sentinel_pending"),
            provider_path: Some(to_owned_string("https://sh.dataspace.copernicus.eu/api/v1/catalog/1.0.0/search")),
            error: Some(e),
            results: Vec::new(),
        },
    }
}


/// The image of a snapshot as standard base64 text, which decodes back to
/// the image's bytes.
pub fn snapshot_image_base64(image: &[u8]) -> (r: String)
    ensures
        r@ == crate::quantum::base64_of(image@),
        crate::quantum::base64_decoded(r@) == Some(image@),
{
    crate::quantum::encode_base64(image)
}

} // verus!

//! Decisions of the live ingest workers: reconnect backoff, poll cadence,
//! token lifetimes and provider checks.

use vstd::prelude::*;
use crate::text::{chars_of, ends_with, equals, has_suffix};

verus! {

/// The first reconnect delay, and the delay restored after a connection
/// that lasted this many seconds.
pub const RECONNECT_BASE_SECS: u64 = 15;

/// The longest reconnect delay, in seconds.
pub const RECONNECT_MAX_SECS: u64 = 300;

/// What the stream worker does after a connection ended.
#[derive(Debug, Clone, Copy, PartialEq, Eq, Structural)]
pub struct ReconnectPlan {
    /// Seconds to wait before reconnecting, before jitter is added.
    pub wait_secs: u64,
    /// The delay to use after the next failure.
    pub next_retry_secs: u64,
}

/// The reconnect plan: a connection that lasted five minutes resets the delay
/// to 15 seconds; the worker waits the delay, and the next delay doubles up to
/// five minutes.
pub open spec fn reconnect_plan_for(retry_secs: nat, connected_secs: nat) -> ReconnectPlan {
    let retry = if connected_secs >= 300 {
        15
    } else {
        retry_secs
    };
    ReconnectPlan {
        wait_secs: retry as u64,
        next_retry_secs: if retry * 2 <= 300 {
            (retry * 2) as u64
        } else {
            300
        },
    }
}

/// Plans the reconnect after a connection that lasted `connected_secs`.
pub fn plan_reconnect(retry_secs: u64, connected_secs: u64) -> (p: ReconnectPlan)
    requires
        retry_secs <= u64::MAX / 2,
    ensures
        p == reconnect_plan_for(retry_secs as nat, connected_secs as nat),
{
    let retry = if connected_secs >= 300 {
        15
    } else {
        retry_secs
    };
    let doubled = retry * 2;
    ReconnectPlan {
        wait_secs: retry,
        next_retry_secs: if doubled <= 300 {
            doubled
        } else {
            300
        },
    }
}

/// Reconnects back off up to five minutes: from any delay between 15 seconds
/// and five minutes, the wait and the next delay stay between 15 seconds and
/// five minutes, whatever the connection lasted.
pub proof fn law_reconnect_delay_bounded(retry_secs: nat, connected_secs: nat)
    requires
        15 <= retry_secs <= 300,
    ensures
        15 <= reconnect_plan_for(retry_secs, connected_secs).wait_secs <= 300,
        15 <= reconnect_plan_for(retry_secs, connected_secs).next_retry_secs <= 300,
{
}

/// The flight poll interval: the configured quiet interval, but never under
/// the 10 seconds that anonymous access allows.
pub fn flight_poll_seconds(quiet_poll_seconds: u64) -> (r: u64)
    ensures
        r == if quiet_poll_seconds >= 10 {
            quiet_poll_seconds
        } else {
            10
        },
{
    if quiet_poll_seconds >= 10 {
        quiet_poll_seconds
    } else {
        10
    }
}

/// How long an access token is used: its announced lifetime (300 seconds if
/// none), less a 30-second margin, never below zero.
pub fn token_lifetime_secs(expires_in: Option<u64>) -> (r: u64)
    ensures
        r == match expires_in {
            Some(e) => if e >= 30 {
                (e - 30) as u64
            } else {
                0
            },
            None => 270,
        },
{
    let e = match expires_in {
        Some(e) => e,
        None => 300,
    };
    e.saturating_sub(30)
}

/// The pause after the flight provider answered with an HTTP status: five
/// minutes after 429 (too many requests), none otherwise.
pub fn rate_limit_pause_secs(status: u16) -> (r: u64)
    ensures
        r == if status == 429 {
            300u64
        } else {
            0
        },
{
    if status == 429 {
        300
    } else {
        0
    }
}

/// A host belongs to the reverse-geocoding service.
pub open spec fn geoapify_host(host: Seq<char>) -> bool {
    host == "geoapify.com"@ || has_suffix(host, ".geoapify.com"@)
}

/// Whether a host is the reverse-geocoding service, which is not a source of
/// live device positions.
pub fn is_geoapify_host(host: &str) -> (r: bool)
    ensures
        r == geoapify_host(host@),
{
    let h = chars_of(host);
    equals(h.as_slice(), "geoapify.com") || ends_with(h.as_slice(), ".geoapify.com")
}

/// A stream provider refused the subscription.
#[derive(Debug, Clone, Copy, PartialEq, Eq, Structural)]
pub struct SubscriptionRejected;

/// The description of a refused subscription; it never repeats the
/// provider's payload, which may echo the credentials.
pub open spec fn rejection_message() -> Seq<char> {
    "AISstream rejected subscription; check API key, bounding boxes and connection limits"@
}

impl SubscriptionRejected {
    /// Describes the refusal.
    pub fn to_string(&self) -> (m: String)
        ensures
            m@ == rejection_message(),
    {
        crate::text::to_owned_string(
            "AISstream rejected subscription; check API key, bounding boxes and connection limits",
        )
    }
}

/// A stream message reports an error when its top-level object has a key
/// `error` or `Error`.
pub open spec fn reports_error(keys: Seq<String>) -> bool {
    exists|i: int| 0 <= i < keys.len() && (keys[i]@ == "error"@ || keys[i]@ == "Error"@)
}

/// Checks a stream message, given the keys of its top-level object, for a
/// refused subscription.
pub fn check_subscription_error(keys: &Vec<String>) -> (r: Result<(), SubscriptionRejected>)
    ensures
        r is Err == reports_error(keys@),
{
    let mut i: usize = 0;
    while i < keys.len()
        invariant
            0 <= i <= keys@.len(),
            forall|k: int| 0 <= k < i ==> !(keys@[k]@ == "error"@ || keys@[k]@ == "Error"@),
        decreases keys.len() - i,
    {
        let kc = chars_of(keys[i].as_str());
        if equals(kc.as_slice(), "error") || equals(kc.as_slice(), "Error") {
            return Err(SubscriptionRejected);
        }
        i = i + 1;
    }
    Ok(())
}

} // verus!

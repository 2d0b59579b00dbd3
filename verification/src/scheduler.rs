//! The provider polling schedule: intervals, backoff after failures, and the
//! counters the scheduler keeps.

use vstd::prelude::*;
use crate::settings::{EnvSnapshot, env_value, number_or};
use crate::text::{
    chars_of, contains, contains_any, has_substring, lemma_mentions_any_texts, lowercase_of, mentions_any,
    mentions_word, to_lowercase,
};

verus! {

/// How often each provider is polled, in seconds, and how much faster
/// polling runs in active zones.
#[derive(Debug, Clone, Copy, PartialEq, Eq, Structural)]
pub struct SchedulerPolicy {
    pub newsapi_poll_seconds: u64,
    pub openweather_poll_seconds: u64,
    pub maritime_poll_seconds: u64,
    pub active_zone_multiplier: u64,
}

impl SchedulerPolicy {
    /// Reads the policy from `NEWSAPI_POLL_SECONDS` (default 1800),
    /// `OPENWEATHER_POLL_SECONDS` (300), `MARITIME_POLL_SECONDS` (300) and
    /// `ACTIVE_ZONE_MULTIPLIER` (2).
    pub fn from_env(env: &EnvSnapshot) -> (p: Self)
        ensures
            p.newsapi_poll_seconds == number_or(
                env_value(env, "NEWSAPI_POLL_SECONDS"@),
                u64::MAX as nat,
                1800,
            ),
            p.openweather_poll_seconds == number_or(
                env_value(env, "OPENWEATHER_POLL_SECONDS"@),
                u64::MAX as nat,
                300,
            ),
            p.maritime_poll_seconds == number_or(
                env_value(env, "MARITIME_POLL_SECONDS"@),
                u64::MAX as nat,
                300,
            ),
            p.active_zone_multiplier == number_or(
                env_value(env, "ACTIVE_ZONE_MULTIPLIER"@),
                u64::MAX as nat,
                2,
            ),
    {
        SchedulerPolicy {
            newsapi_poll_seconds: env.number_or("NEWSAPI_POLL_SECONDS", u64::MAX, 1800),
            openweather_poll_seconds: env.number_or("OPENWEATHER_POLL_SECONDS", u64::MAX, 300),
            maritime_poll_seconds: env.number_or("MARITIME_POLL_SECONDS", u64::MAX, 300),
            active_zone_multiplier: env.number_or("ACTIVE_ZONE_MULTIPLIER", u64::MAX, 2),
        }
    }

    /// The news, weather and maritime intervals in active zones: each base
    /// interval divided by the multiplier (at least 1).
    pub fn active_intervals(&self) -> (r: (u64, u64, u64))
        ensures
            r.0 == self.newsapi_poll_seconds / max1(self.active_zone_multiplier),
            r.1 == self.openweather_poll_seconds / max1(self.active_zone_multiplier),
            r.2 == self.maritime_poll_seconds / max1(self.active_zone_multiplier),
    {
        let m = if self.active_zone_multiplier >= 1 {
            self.active_zone_multiplier
        } else {
            1
        };
        (self.newsapi_poll_seconds / m, self.openweather_poll_seconds / m, self.maritime_poll_seconds
            / m)
    }
}

/// `m`, raised to at least 1.
pub open spec fn max1(m: u64) -> u64 {
    if m >= 1 {
        m
    } else {
        1
    }
}

/// Counters of the scheduler's activity; each wraps around on overflow, as an
/// atomic counter does.
#[derive(Debug, Clone, Copy, PartialEq, Eq, Structural)]
pub struct SchedulerStats {
    pub ticks: u64,
    pub quota_denied: u64,
    pub cache_hits: u64,
    pub backoff_events: u64,
}

impl SchedulerStats {
    /// All counters start at zero.
    pub fn new() -> (s: Self)
        ensures
            s.ticks == 0 && s.quota_denied == 0 && s.cache_hits == 0 && s.backoff_events == 0,
    {
        SchedulerStats { ticks: 0, quota_denied: 0, cache_hits: 0, backoff_events: 0 }
    }

    /// Counts one poll of a provider.
    pub fn record_tick(&mut self)
        ensures
            final(self).ticks == old(self).ticks.wrapping_add(1),
            final(self).quota_denied == old(self).quota_denied,
            final(self).cache_hits == old(self).cache_hits,
            final(self).backoff_events == old(self).backoff_events,
    {
        self.ticks = self.ticks.wrapping_add(1);
    }

    /// Counts what a finished poll found.
    pub fn record_outcome(&mut self, outcome: &PollOutcome)
        ensures
            final(self).ticks == old(self).ticks,
            final(self).cache_hits == if outcome.cache_hit {
                old(self).cache_hits.wrapping_add(1)
            } else {
                old(self).cache_hits
            },
            final(self).quota_denied == if outcome.quota_denied {
                old(self).quota_denied.wrapping_add(1)
            } else {
                old(self).quota_denied
            },
            final(self).backoff_events == if outcome.backed_off {
                old(self).backoff_events.wrapping_add(1)
            } else {
                old(self).backoff_events
            },
    {
        if outcome.cache_hit {
            self.cache_hits = self.cache_hits.wrapping_add(1);
        }
        if outcome.quota_denied {
            self.quota_denied = self.quota_denied.wrapping_add(1);
        }
        if outcome.backed_off {
            self.backoff_events = self.backoff_events.wrapping_add(1);
        }
    }
}

/// A pause of some milliseconds.
#[derive(Debug, Clone, Copy, PartialEq, Eq, Structural)]
pub struct Backoff {
    pub millis: u64,
}

impl Backoff {
    /// The whole seconds of the pause.
    pub fn as_secs(&self) -> (r: u64)
        ensures
            r == self.millis / 1000,
    {
        self.millis / 1000
    }

    /// The milliseconds of the pause.
    pub fn as_millis(&self) -> (r: u64)
        ensures
            r == self.millis,
    {
        self.millis
    }
}

/// Signs of an exhausted quota in a lowercased error.
pub open spec fn quota_words() -> Seq<&'static str> {
    seq!["402", "creditsdepleted", "quota"]
}

/// Signs of a rate limit, a rejection or a timeout in a lowercased error.
pub open spec fn retry_words() -> Seq<&'static str> {
    seq!["429", "401", "403", "timeout"]
}

/// The largest attempt number for which the retry delay fits in 64 bits.
pub const MAX_BACKOFF_ATTEMPT: u64 = 36893488147419099;

/// The backoff after a failure whose lowercased text is `lower`, at the
/// given attempt: 15 minutes for an exhausted quota; for a rate limit, a
/// rejection or a timeout, 800 ms plus 500 ms per attempt plus a jitter of
/// `attempt * 137 mod 900` ms; none otherwise.
pub open spec fn backoff_for(lower: Seq<char>, attempt: nat) -> Option<nat> {
    if mentions_any(lower, quota_words()) {
        Some(900_000)
    } else if mentions_any(lower, retry_words()) {
        Some(800 + attempt * 500 + (attempt * 137) % 900)
    } else {
        None
    }
}

/// Whether the arithmetic of the backoff stays in 64 bits.
pub open spec fn backoff_fits(lower: Seq<char>, attempt: nat) -> bool {
    mentions_any(lower, quota_words()) || !mentions_any(lower, retry_words()) || attempt
        <= MAX_BACKOFF_ATTEMPT
}

/// The backoff for an already lowercased error text.
pub fn compute_backoff_lowered(lower: &str, attempt: u64) -> (r: Option<Backoff>)
    requires
        backoff_fits(lower@, attempt as nat),
    ensures
        match backoff_for(lower@, attempt as nat) {
            Some(ms) => r == Some(Backoff { millis: ms as u64 }),
            None => r is None,
        },
{
    let l = chars_of(lower);
    let quota: [&str; 3] = ["402", "creditsdepleted", "quota"];
    assert(quota@ =~= quota_words());
    if contains_any(l.as_slice(), &quota) {
        return Some(Backoff { millis: 900_000 });
    }
    let retry: [&str; 4] = ["429", "401", "403", "timeout"];
    assert(retry@ =~= retry_words());
    if contains_any(l.as_slice(), &retry) {
        let jitter = (attempt * 137) % 900;
        Some(Backoff { millis: 800 + attempt * 500 + jitter })
    } else {
        None
    }
}

/// The pause after a provider failure reported as `error`, compared without
/// regard to case.
pub fn compute_backoff(error: &str, attempt: u64) -> (r: Option<Backoff>)
    requires
        backoff_fits(lowercase_of(error@), attempt as nat),
    ensures
        match backoff_for(lowercase_of(error@), attempt as nat) {
            Some(ms) => r == Some(Backoff { millis: ms as u64 }),
            None => r is None,
        },
{
    let lower = to_lowercase(error);
    compute_backoff_lowered(lower.as_str(), attempt)
}

/// The wait between polls in seconds: the active-zone interval in alert mode,
/// else the base interval, never under 10 seconds.
pub fn poll_wait_seconds(active_mode: bool, base_interval: u64, active_interval: u64) -> (r: u64)
    ensures
        r == if active_mode {
            if active_interval >= 10 { active_interval } else { 10 }
        } else {
            if base_interval >= 10 { base_interval } else { 10 }
        },
        r >= 10,
{
    let i = if active_mode {
        active_interval
    } else {
        base_interval
    };
    if i >= 10 {
        i
    } else {
        10
    }
}

/// How long the scheduler pauses before the next poll.
#[derive(Debug, Clone, Copy, PartialEq, Eq, Structural)]
pub enum Pause {
    Millis(u64),
    Seconds(u64),
}

/// What the scheduler does after a poll.
#[derive(Debug, Clone, Copy, PartialEq, Eq, Structural)]
pub struct PollOutcome {
    /// The response came from the cache.
    pub cache_hit: bool,
    /// The response reports a quota denial.
    pub quota_denied: bool,
    /// The poll failed in a way that calls for a backoff.
    pub backed_off: bool,
    /// The pause before the next poll.
    pub pause: Pause,
    /// The attempt number for the next poll.
    pub next_attempt: u64,
}

/// The decision after a poll whose serialized response is `response`: a
/// backoff when the response calls for one (counting the attempt up),
/// otherwise the regular wait with the attempt count reset.
pub open spec fn outcome_for(response: Seq<char>, attempt: u64, wait_seconds: u64) -> PollOutcome {
    let b = backoff_for(lowercase_of(response), attempt as nat);
    PollOutcome {
        cache_hit: has_substring(response, "redis_cache"@),
        quota_denied: has_substring(response, "provider_limited"@) || has_substring(
            response,
            "quota"@,
        ),
        backed_off: b is Some,
        pause: match b {
            Some(ms) => Pause::Millis(ms as u64),
            None => Pause::Seconds(wait_seconds),
        },
        next_attempt: if b is Some {
            attempt.saturating_add(1)
        } else {
            0
        },
    }
}

/// Decides the pause and attempt count after a poll of a provider.
pub fn plan_after_poll(response: &str, attempt: u64, wait_seconds: u64) -> (o: PollOutcome)
    requires
        attempt <= MAX_BACKOFF_ATTEMPT,
    ensures
        o == outcome_for(response@, attempt, wait_seconds),
{
    let r = chars_of(response);
    let cache_hit = contains(r.as_slice(), "redis_cache");
    let quota_denied = contains(r.as_slice(), "provider_limited") || contains(r.as_slice(), "quota");
    match compute_backoff(response, attempt) {
        Some(d) => PollOutcome {
            cache_hit,
            quota_denied,
            backed_off: true,
            pause: Pause::Millis(d.millis),
            next_attempt: attempt.saturating_add(1),
        },
        None => PollOutcome {
            cache_hit,
            quota_denied,
            backed_off: false,
            pause: Pause::Seconds(wait_seconds),
            next_attempt: 0,
        },
    }
}


/// A retry pause after a rate limit, a rejection or a timeout lies between
/// 800 ms plus 500 ms per attempt and 899 ms more than that; an exhausted
/// quota always pauses fifteen minutes.
pub proof fn law_backoff_bounds(lower: Seq<char>, attempt: nat)
    ensures
        mentions_any(lower, quota_words()) ==> backoff_for(lower, attempt) == Some(900_000nat),
        !mentions_any(lower, quota_words()) && mentions_any(lower, retry_words()) ==> {
            &&& backoff_for(lower, attempt) is Some
            &&& 800 + attempt * 500 <= backoff_for(lower, attempt)->0
            &&& backoff_for(lower, attempt)->0 < 800 + attempt * 500 + 900
        },
{
}

/// Texts that say a provider's quota or credits are used up.
pub open spec fn exhaustion_signs() -> Seq<Seq<char>> {
    seq!["402"@, "creditsdepleted"@, "quota"@]
}

/// Texts that say a request was rate limited, rejected (401, 403) or timed out.
pub open spec fn transient_signs() -> Seq<Seq<char>> {
    seq!["429"@, "401"@, "403"@, "timeout"@]
}

/// What a failed poll waits, by what its (lowercased) error says: fifteen
/// minutes when the quota is used up; after a rate limit, a rejection such
/// as "401" or "403", or a timeout, 800 ms plus 500 ms per attempt plus a
/// jitter of `137 * attempt mod 900` ms; no pause for any other failure.
pub proof fn law_backoff_by_error_kind(lower: Seq<char>, attempt: nat)
    ensures
        mentions_word(lower, exhaustion_signs()) ==> backoff_for(lower, attempt) == Some(900_000nat),
        !mentions_word(lower, exhaustion_signs()) && mentions_word(lower, transient_signs())
            ==> backoff_for(lower, attempt) == Some((800 + 500 * attempt + (137 * attempt) % 900) as nat),
        !mentions_word(lower, exhaustion_signs()) && !mentions_word(lower, transient_signs())
            ==> backoff_for(lower, attempt) is None,
{
    assert(quota_words().map_values(|k: &str| k@) =~= exhaustion_signs());
    assert(retry_words().map_values(|k: &str| k@) =~= transient_signs());
    assert forall|i: int| 0 <= i < quota_words().len() implies #[trigger] quota_words()[i]@
        == exhaustion_signs()[i] by {
        assert(quota_words().map_values(|k: &str| k@)[i] == quota_words()[i]@);
    }
    assert forall|i: int| 0 <= i < retry_words().len() implies #[trigger] retry_words()[i]@
        == transient_signs()[i] by {
        assert(retry_words().map_values(|k: &str| k@)[i] == retry_words()[i]@);
    }
    lemma_mentions_any_texts(lower, quota_words(), exhaustion_signs());
    lemma_mentions_any_texts(lower, retry_words(), transient_signs());
    assert(attempt * 500 == 500 * attempt && attempt * 137 == 137 * attempt) by (nonlinear_arith);
}

} // verus!

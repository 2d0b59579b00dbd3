//! Provider quotas: the configured limits and the counter rules that enforce
//! them.

use vstd::prelude::*;
use crate::settings::{EnvSnapshot, env_value, number_or, value_or};

verus! {

/// The request limits of each provider.
#[derive(Debug, Clone, Copy, PartialEq, Eq, Structural)]
pub struct ProviderLimits {
    pub mistral_max_per_day: u32,
    pub tavily_max_per_day: u32,
    pub tavily_monthly_limit: u32,
    pub newsapi_max_per_day: u32,
    pub weather_max_per_day: u32,
    pub maritime_max_per_hour: u32,
    pub elevation_max_per_day: u32,
    pub misttrack_max_per_day: u32,
    pub sentinel_hub_monthly_limit: u32,
    pub twitter_monthly_limit: u32,
}

/// A 32-bit limit read from `name`, or `default`.
pub open spec fn limit_setting(env: &EnvSnapshot, name: Seq<char>, default: nat) -> nat {
    number_or(env_value(env, name), u32::MAX as nat, default)
}

impl ProviderLimits {
    /// Reads each limit from its variable, falling back to the free-tier
    /// default when it is unset or not a valid 32-bit number.
    pub fn from_env(env: &EnvSnapshot) -> (l: Self)
        ensures
            l.mistral_max_per_day == limit_setting(env, "MISTRAL_MAX_PER_DAY"@, 50),
            l.tavily_max_per_day == limit_setting(env, "TAVILY_MAX_PER_DAY"@, 33),
            l.tavily_monthly_limit == limit_setting(env, "TAVILY_MONTHLY_LIMIT"@, 1000),
            l.newsapi_max_per_day == limit_setting(env, "NEWSAPI_MAX_PER_DAY"@, 100),
            l.weather_max_per_day == limit_setting(env, "OPENWEATHER_MAX_PER_DAY"@, 1000),
            l.maritime_max_per_hour == limit_setting(env, "MARITIME_MAX_PER_HOUR"@, 100),
            l.elevation_max_per_day == limit_setting(env, "ELEVATION_MAX_PER_DAY"@, 10000),
            l.misttrack_max_per_day == limit_setting(env, "MISTTRACK_MAX_PER_DAY"@, 100),
            l.sentinel_hub_monthly_limit == limit_setting(
                env,
                "SENTINEL_HUB_MAX_UNITS_PER_MONTH"@,
                30000,
            ),
            l.twitter_monthly_limit == limit_setting(env, "TWITTER_MAX_TWEETS_PER_MONTH"@, 1000),
    {
        ProviderLimits {
            mistral_max_per_day: env.number_or("MISTRAL_MAX_PER_DAY", 0xffff_ffff, 50) as u32,
            tavily_max_per_day: env.number_or("TAVILY_MAX_PER_DAY", 0xffff_ffff, 33) as u32,
            tavily_monthly_limit: env.number_or("TAVILY_MONTHLY_LIMIT", 0xffff_ffff, 1000) as u32,
            newsapi_max_per_day: env.number_or("NEWSAPI_MAX_PER_DAY", 0xffff_ffff, 100) as u32,
            weather_max_per_day: env.number_or("OPENWEATHER_MAX_PER_DAY", 0xffff_ffff, 1000) as u32,
            maritime_max_per_hour: env.number_or("MARITIME_MAX_PER_HOUR", 0xffff_ffff, 100) as u32,
            elevation_max_per_day: env.number_or("ELEVATION_MAX_PER_DAY", 0xffff_ffff, 10000)
                as u32,
            misttrack_max_per_day: env.number_or("MISTTRACK_MAX_PER_DAY", 0xffff_ffff, 100) as u32,
            sentinel_hub_monthly_limit: env.number_or(
                "SENTINEL_HUB_MAX_UNITS_PER_MONTH",
                0xffff_ffff,
                30000,
            ) as u32,
            twitter_monthly_limit: env.number_or("TWITTER_MAX_TWEETS_PER_MONTH", 0xffff_ffff, 1000)
                as u32,
        }
    }
}

/// What to do with a request counter after it was incremented to `count`.
#[derive(Debug, Clone, Copy, PartialEq, Eq, Structural)]
pub struct QuotaDecision {
    /// The counter was just created, so its expiry must be set.
    pub set_expiry: bool,
    /// The request is within the limit.
    pub allowed: bool,
}

/// Decides on a request from the counter value after incrementing it: the
/// first request of a window sets the window's expiry, and a request is
/// allowed while the count does not exceed the limit.
pub fn quota_decision(count: u64, limit: u64) -> (d: QuotaDecision)
    ensures
        d.set_expiry == (count == 1),
        d.allowed == (count <= limit),
{
    QuotaDecision { set_expiry: count == 1, allowed: count <= limit }
}

/// Whether a quota with `count` requests already made still has room.
pub fn quota_has_room(count: u64, limit: u64) -> (r: bool)
    ensures
        r == (count < limit),
{
    count < limit
}

/// How many of the requests numbered 1 to `n` in one window are allowed.
pub open spec fn allowed_in_window(n: nat, limit: nat) -> nat
    decreases n,
{
    if n == 0 {
        0
    } else {
        allowed_in_window((n - 1) as nat, limit) + if n <= limit {
            1nat
        } else {
            0nat
        }
    }
}

/// The quota is a cap: of any number of requests counted in one window, the
/// number allowed is the smaller of that number and the limit.
pub proof fn law_quota_caps_requests(n: nat, limit: nat)
    ensures
        allowed_in_window(n, limit) == if n <= limit {
            n
        } else {
            limit
        },
    decreases n,
{
    if n > 0 {
        law_quota_caps_requests((n - 1) as nat, limit);
    }
}

/// Whether quotas are bypassed for testing: `TEST_MODE` is `true`.
pub fn testing_mode(env: &EnvSnapshot) -> (r: bool)
    ensures
        r == (value_or(env_value(env, "TEST_MODE"@), "false"@) == "true"@),
{
    env.value_is("TEST_MODE", "false", "true")
}

/// Whether `year` is a leap year of the Gregorian calendar.
pub open spec fn leap_year(year: int) -> bool {
    (year % 4 == 0 && year % 100 != 0) || year % 400 == 0
}

/// The number of days of a month (30 for a month number out of range).
pub open spec fn month_length(year: int, month: int) -> nat {
    if month == 1 || month == 3 || month == 5 || month == 7 || month == 8 || month == 10 || month
        == 12 {
        31
    } else if month == 4 || month == 6 || month == 9 || month == 11 {
        30
    } else if month == 2 {
        if leap_year(year) {
            29
        } else {
            28
        }
    } else {
        30
    }
}

/// The number of days in a month of a year.
pub fn days_in_month(year: i32, month: u32) -> (d: u64)
    ensures
        d == month_length(year as int, month as int),
{
    match month {
        1 | 3 | 5 | 7 | 8 | 10 | 12 => 31,
        4 | 6 | 9 | 11 => 30,
        2 => if (year % 4 == 0 && year % 100 != 0) || (year % 400 == 0) {
            29
        } else {
            28
        },
        _ => 30,
    }
}

/// The lifetime in seconds of a monthly counter created on `day` of a month:
/// the whole days left in the month, today included.
pub fn monthly_ttl(year: i32, month: u32, day: u32) -> (ttl: u64)
    requires
        1 <= day <= month_length(year as int, month as int),
    ensures
        ttl == month_length(year as int, month as int) * 86400 - (day - 1) * 86400,
        86400 <= ttl <= 31 * 86400,
{
    let days = days_in_month(year, month);
    (days * 86400) - ((day as u64 - 1) * 86400)
}

} // verus!

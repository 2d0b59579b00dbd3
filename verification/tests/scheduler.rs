use biq::scheduler::{
    compute_backoff, plan_after_poll, poll_wait_seconds, Pause, SchedulerPolicy, SchedulerStats,
};
use biq::settings::EnvSnapshot;

fn env(pairs: &[(&str, &str)]) -> EnvSnapshot {
    EnvSnapshot { vars: pairs.iter().map(|(k, v)| (k.to_string(), v.to_string())).collect() }
}

#[test]
fn backoff_is_applied_for_rate_limits() {
    let delay = compute_backoff("HTTP 429 from provider", 2);
    assert!(delay.is_some());
}

#[test]
fn backoff_applied_for_quota() {
    let delay = compute_backoff("quota exceeded", 0);
    assert_eq!(delay.unwrap().as_secs(), 900);
}

#[test]
fn no_backoff_for_success() {
    let delay = compute_backoff("ok", 0);
    assert!(delay.is_none());
}

#[test]
fn retry_backoff_formula() {
    // 800 + 2 * 500 + (2 * 137) % 900
    assert_eq!(compute_backoff("timeout", 2).unwrap().as_millis(), 2074);
    // 800 + 7 * 500 + 959 % 900
    assert_eq!(compute_backoff("HTTP 403", 7).unwrap().as_millis(), 4359);
    assert_eq!(compute_backoff("CreditsDepleted", 5).unwrap().as_millis(), 900_000);
}

#[test]
fn policy_defaults_and_active_intervals() {
    let p = SchedulerPolicy::from_env(&env(&[]));
    assert_eq!(p.newsapi_poll_seconds, 1800);
    assert_eq!(p.openweather_poll_seconds, 300);
    assert_eq!(p.maritime_poll_seconds, 300);
    assert_eq!(p.active_zone_multiplier, 2);
    assert_eq!(p.active_intervals(), (900, 150, 150));
    let z = SchedulerPolicy::from_env(&env(&[("ACTIVE_ZONE_MULTIPLIER", "0")]));
    assert_eq!(z.active_intervals(), (1800, 300, 300));
}

#[test]
fn plan_after_poll_counts_and_pauses() {
    let cached = plan_after_poll("{\"provider_path\":\"redis_cache\"}", 3, 60);
    assert!(cached.cache_hit);
    assert!(!cached.backed_off);
    assert_eq!(cached.pause, Pause::Seconds(60));
    assert_eq!(cached.next_attempt, 0);
    let limited = plan_after_poll("provider_limited: quota", 1, 60);
    assert!(limited.quota_denied);
    assert_eq!(limited.pause, Pause::Millis(900_000));
    assert_eq!(limited.next_attempt, 2);
}

#[test]
fn wait_uses_active_interval_in_active_mode() {
    assert_eq!(poll_wait_seconds(true, 300, 150), 150);
    assert_eq!(poll_wait_seconds(false, 300, 150), 300);
}

#[test]
fn stats_count_outcomes() {
    let mut s = SchedulerStats::new();
    s.record_tick();
    let o = plan_after_poll("redis_cache quota", 0, 10);
    s.record_outcome(&o);
    assert_eq!(s.ticks, 1);
    assert_eq!(s.cache_hits, 1);
    assert_eq!(s.quota_denied, 1);
    assert_eq!(s.backoff_events, 1);
}

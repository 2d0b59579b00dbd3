use biq::alert_mode::{
    activate_alert_mode, adjusted_poll_interval, auto_alert_enabled, deactivate_alert_mode,
    get_polling_multiplier, is_alert_mode_active, update_alert_mode, AlertModeState,
};
use biq::rate_limit::{days_in_month, monthly_ttl, quota_decision, quota_has_room, testing_mode, ProviderLimits};
use biq::settings::EnvSnapshot;
use biq::social::{
    classify_social_error, is_twitter_quota_exhausted, record_social_outcome, set_twitter_quota_exhausted,
    SocialErrorKind, SocialQuota,
};

fn env(pairs: &[(&str, &str)]) -> EnvSnapshot {
    EnvSnapshot { vars: pairs.iter().map(|(k, v)| (k.to_string(), v.to_string())).collect() }
}

#[test]
fn alert_mode_switch() {
    let mut s = AlertModeState::new();
    assert!(!is_alert_mode_active(&s));
    activate_alert_mode(&mut s);
    assert!(is_alert_mode_active(&s));
    assert_eq!(get_polling_multiplier(&s, &env(&[])), 2);
    assert_eq!(adjusted_poll_interval(&s, &env(&[]), 300), 150);
    assert_eq!(adjusted_poll_interval(&s, &env(&[("ACTIVE_ZONE_MULTIPLIER", "0")]), 300), 300);
    deactivate_alert_mode(&mut s);
    assert_eq!(get_polling_multiplier(&s, &env(&[])), 1);
    assert_eq!(adjusted_poll_interval(&s, &env(&[]), 300), 300);
    assert!(!auto_alert_enabled(&env(&[])));
    assert!(auto_alert_enabled(&env(&[("AUTO_ALERT_MODE", "true")])));
}

#[test]
fn alert_mode_follows_score_when_enabled() {
    let mut s = AlertModeState::new();
    update_alert_mode(&mut s, false, true);
    assert!(!s.active);
    update_alert_mode(&mut s, true, true);
    assert!(s.active);
    update_alert_mode(&mut s, true, false);
    assert!(!s.active);
}

#[test]
fn social_quota_switch() {
    let mut q = SocialQuota::new();
    assert!(!is_twitter_quota_exhausted(&q));
    assert_eq!(classify_social_error("HTTP 402 CreditsDepleted"), SocialErrorKind::QuotaExhausted);
    assert_eq!(classify_social_error("401 Unauthorized"), SocialErrorKind::AuthFailed);
    assert_eq!(classify_social_error("timeout"), SocialErrorKind::Other);
    record_social_outcome(&mut q, Some(SocialErrorKind::QuotaExhausted));
    assert!(is_twitter_quota_exhausted(&q));
    record_social_outcome(&mut q, Some(SocialErrorKind::Other));
    assert!(is_twitter_quota_exhausted(&q));
    record_social_outcome(&mut q, None);
    assert!(!is_twitter_quota_exhausted(&q));
    set_twitter_quota_exhausted(&mut q, true);
    assert!(q.exhausted);
}

#[test]
fn quotas_and_calendar() {
    let d = quota_decision(1, 5);
    assert!(d.set_expiry && d.allowed);
    let d = quota_decision(6, 5);
    assert!(!d.set_expiry && !d.allowed);
    assert!(quota_has_room(4, 5));
    assert!(!quota_has_room(5, 5));
    assert_eq!(days_in_month(2024, 2), 29);
    assert_eq!(days_in_month(1900, 2), 28);
    assert_eq!(days_in_month(2000, 2), 29);
    assert_eq!(days_in_month(2025, 4), 30);
    assert_eq!(monthly_ttl(2025, 1, 31), 86400);
    assert_eq!(monthly_ttl(2025, 1, 1), 31 * 86400);
    assert!(testing_mode(&env(&[("TEST_MODE", "true")])));
    assert!(!testing_mode(&env(&[])));
    let l = ProviderLimits::from_env(&env(&[("NEWSAPI_MAX_PER_DAY", "7")]));
    assert_eq!(l.newsapi_max_per_day, 7);
}

#[test]
fn quota_allows_exactly_limit_requests_per_window() {
    let limit = 3;
    let allowed = (1..=10u64).filter(|c| quota_decision(*c, limit).allowed).count();
    assert_eq!(allowed, 3);
}

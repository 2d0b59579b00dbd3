use biq::ingest::{
    check_subscription_error, flight_poll_seconds, is_geoapify_host, plan_reconnect, rate_limit_pause_secs,
    token_lifetime_secs,
};

#[test]
fn rejects_provider_errors_without_echoing_payload() {
    for field in ["error", "Error"] {
        let keys = vec![field.to_string()];
        let error = check_subscription_error(&keys).unwrap_err().to_string();
        assert!(error.contains("rejected subscription"));
        assert!(!error.contains("sensitive-subscription-value"));
    }
    assert!(check_subscription_error(&vec!["MessageType".to_string()]).is_ok());
}

#[test]
fn reconnect_backoff_doubles_and_resets() {
    let p = plan_reconnect(15, 10);
    assert_eq!((p.wait_secs, p.next_retry_secs), (15, 30));
    let p = plan_reconnect(200, 10);
    assert_eq!((p.wait_secs, p.next_retry_secs), (200, 300));
    let p = plan_reconnect(300, 400);
    assert_eq!((p.wait_secs, p.next_retry_secs), (15, 30));
}

#[test]
fn flight_poll_and_token_lifetime() {
    assert_eq!(flight_poll_seconds(45), 45);
    assert_eq!(flight_poll_seconds(3), 10);
    assert_eq!(token_lifetime_secs(None), 270);
    assert_eq!(token_lifetime_secs(Some(20)), 0);
    assert_eq!(token_lifetime_secs(Some(1800)), 1770);
    assert_eq!(rate_limit_pause_secs(429), 300);
    assert_eq!(rate_limit_pause_secs(500), 0);
}

#[test]
fn geoapify_hosts() {
    assert!(is_geoapify_host("geoapify.com"));
    assert!(is_geoapify_host("api.geoapify.com"));
    assert!(!is_geoapify_host("notgeoapify.com"));
    assert!(!is_geoapify_host("gps.example.com"));
}

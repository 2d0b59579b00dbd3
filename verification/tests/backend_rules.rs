use biq::anomaly::{
    anomaly_reasons, anomaly_severity, is_hotspot_zone, is_identity_missing, vehicle_anomaly_reasons,
    vehicle_anomaly_severity,
};
use biq::auth::require_token;
use biq::error::AppError;
use biq::keys::{
    allowlist_key, allowlist_label, anomaly_key, dedupe_key, entity_key, parse_allowlist_key,
    validate_allowlist_entry,
};
use biq::models::{AllowlistEntry, AnomalyReason, AnomalySeverity, EntityKind};

#[test]
fn token_checks() {
    assert_eq!(require_token(Some("Bearer s3cret"), Some("s3cret")), Ok(()));
    assert_eq!(require_token(Some("Bearer wrong"), Some("s3cret")), Err(AppError::Unauthorized));
    assert_eq!(require_token(Some("s3cret"), Some("s3cret")), Err(AppError::Unauthorized));
    assert_eq!(require_token(None, Some("s3cret")), Err(AppError::Unauthorized));
    assert_eq!(
        require_token(Some("Bearer x"), None),
        Err(AppError::ProviderUnavailable(
            "This endpoint is disabled until its server token is configured".to_string()
        ))
    );
}

#[test]
fn error_statuses_and_messages() {
    assert_eq!(AppError::Unauthorized.status_code(), 401);
    assert_eq!(AppError::RateLimited.status_code(), 429);
    assert_eq!(AppError::BadRequest("x".into()).status_code(), 400);
    assert_eq!(AppError::Reqwest.status_code(), 502);
    assert_eq!(AppError::Redis.status_code(), 503);
    assert_eq!(AppError::Redis.public_message(), "Service temporarily unavailable");
    assert_eq!(AppError::BadRequest("bad".into()).public_message(), "bad");
    assert_eq!(AppError::Internal.public_message(), "Upstream provider request failed");
}

#[test]
fn anomaly_decisions() {
    assert!(is_identity_missing(None));
    assert!(is_identity_missing(Some("   ")));
    assert!(!is_identity_missing(Some("AI101")));
    assert_eq!(anomaly_reasons(true, false), vec![AnomalyReason::MissingIdentity]);
    assert_eq!(anomaly_reasons(false, false), vec![AnomalyReason::NotOnAllowlist]);
    assert_eq!(anomaly_reasons(false, true), Vec::<AnomalyReason>::new());
    assert_eq!(anomaly_severity(true, true, false), AnomalySeverity::Critical);
    assert_eq!(vehicle_anomaly_reasons(false), vec![AnomalyReason::NotOnAllowlist]);
    assert_eq!(vehicle_anomaly_severity(true), AnomalySeverity::High);
    assert_eq!(vehicle_anomaly_severity(false), AnomalySeverity::Elevated);
    assert!(!is_hotspot_zone("nowhere"));
}

#[test]
fn storage_keys() {
    assert_eq!(allowlist_key("vessel", "123"), "allowlist:vessel:123");
    assert_eq!(entity_key(EntityKind::Vehicle, "v1"), "entity:vehicle:v1");
    assert_eq!(dedupe_key(EntityKind::Flight, "f1", "z9"), "dedupe:flight:f1:z9");
    assert_eq!(anomaly_key("anom_1"), "anomaly:anom_1");
    assert_eq!(parse_allowlist_key("allowlist:vessel:a:b"), Some(("vessel".to_string(), "a:b".to_string())));
    assert_eq!(parse_allowlist_key("allowlist-vessel"), None);
}

#[test]
fn allowlist_key_reads_back() {
    for (kind, id) in [("flight", "AI101"), ("vessel", "9.1"), ("vehicle", "x_y-z")] {
        let key = allowlist_key(kind, id);
        assert_eq!(parse_allowlist_key(&key), Some((kind.to_string(), id.to_string())));
    }
}

#[test]
fn allowlist_entries_are_validated() {
    let good = AllowlistEntry { kind: "vessel".into(), id: "123".into(), label: None };
    assert_eq!(validate_allowlist_entry(&good), Ok("allowlist:vessel:123".to_string()));
    assert_eq!(allowlist_label(&good), "123");
    let bad = AllowlistEntry { kind: "tank".into(), id: "1".into(), label: Some("T".into()) };
    assert_eq!(
        validate_allowlist_entry(&bad),
        Err(AppError::BadRequest("Invalid entity kind or id".to_string()))
    );
    assert_eq!(allowlist_label(&bad), "T");
}

#[test]
fn hotspot_corridors() {
    assert!(is_hotspot_zone("india_china_lac"));
    assert!(is_hotspot_zone("india_maritime_gujarat"));
    assert!(!is_hotspot_zone("india_nepal"));
}

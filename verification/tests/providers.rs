use biq::config::{configured_providers, tracking_health, ServiceConfig};
use biq::intel::{delivers_update, session_expired};
use biq::feeds::{feed_titles, titles_of_events, XmlItem, XmlKind};
use biq::geo::{coordinate_parts, elevation_zones, nominatim_url, place_name, weather_zones, zone_specs};
use biq::graph::{node_type, synthesis_plan, target_node, SeenIds};
use biq::maritime::{
    dark_key, has_gone_dark, last_seen_key, maritime_response, mmsis_in_view, no_vessels_error, ship_name,
    stream_error, unseen_vessel_of, vessel_id_for, vessel_mmsi, AisCollector, AnomalyType, FetchOutcome,
    MaritimeSettings, PositionVerdict,
};
use biq::reports::{
    cached_reply, fetched_reply, health_report, key_missing_reply, operational_impact, ops_entry,
    provider_answers, provider_status, quantum_health, validate_production_config,
};
use biq::satellite::{alert_ids, satellite_cache_ttl, satellite_response, sentinel_credentials, SatelliteOutcome};
use biq::settings::EnvSnapshot;

fn env(pairs: &[(&str, &str)]) -> EnvSnapshot {
    EnvSnapshot { vars: pairs.iter().map(|(k, v)| (k.to_string(), v.to_string())).collect() }
}

fn strings(v: &[&str]) -> Vec<String> {
    v.iter().map(|s| s.to_string()).collect()
}

fn item(kind: XmlKind, text: &str) -> XmlItem {
    XmlItem { kind, text: text.to_string() }
}

#[test]
fn title_scan_state_machine() {
    let events = vec![
        item(XmlKind::Start, "channel"),
        item(XmlKind::Start, "title"),
        item(XmlKind::Text, "Feed name"),
        item(XmlKind::End, "title"),
        item(XmlKind::Start, "item"),
        item(XmlKind::Start, "title"),
        item(XmlKind::Text, "First"),
        item(XmlKind::End, "title"),
        item(XmlKind::Text, "outside"),
        item(XmlKind::End, "item"),
        item(XmlKind::Start, "item"),
        item(XmlKind::Start, "title"),
        item(XmlKind::Other, ""),
        item(XmlKind::Text, "Second"),
    ];
    assert_eq!(titles_of_events(&events), strings(&["First", "Second"]));
}

#[test]
fn feed_titles_from_a_document() {
    let body = "<?xml version=\"1.0\"?><rss><channel><item><title>A &amp; B</title></item></channel></rss>";
    assert_eq!(feed_titles(body), strings(&["A & B"]));
}

#[test]
fn geocoding_request() {
    assert_eq!(nominatim_url("   "), None);
    assert_eq!(
        nominatim_url("Leh, Ladakh").as_deref(),
        Some("https://nominatim.openstreetmap.org/search?q=Leh%2C%20Ladakh&format=json&limit=1")
    );
    assert_eq!(
        nominatim_url("é~").as_deref(),
        Some("https://nominatim.openstreetmap.org/search?q=%C3%A9~&format=json&limit=1")
    );
    assert_eq!(place_name(" Leh , Ladakh, India"), "Leh");
    assert_eq!(place_name("Nowhere"), "Nowhere");
}

#[test]
fn coordinates_and_zones() {
    assert_eq!(coordinate_parts(" 34.1 , 77.5 "), Some(("34.1".to_string(), "77.5".to_string())));
    assert_eq!(coordinate_parts("karachi"), None);
    assert_eq!(coordinate_parts("1,2,3"), None);
    assert_eq!(
        zone_specs(&env(&[])),
        vec![
            ("34.1526,77.5770".to_string(), "Ladakh".to_string()),
            ("34.5553,76.1340".to_string(), "KargilSector".to_string())
        ]
    );
    assert_eq!(
        zone_specs(&env(&[("ELEVATION_LOCATIONS", "1,2|A;bad;3,4| B ")])),
        vec![("1,2".to_string(), "A".to_string()), ("3,4".to_string(), "B".to_string())]
    );
    assert_eq!(
        weather_zones(&env(&[])),
        vec![
            ("34.1526".to_string(), "77.5770".to_string(), "Ladakh".to_string()),
            ("27.1767".to_string(), "78.0081".to_string(), "Agra".to_string())
        ]
    );
    assert_eq!(
        elevation_zones(&env(&[("ELEVATION_LOCATIONS", " 1 ,2|X;5|Y")])),
        vec![(" 1 ".to_string(), "2".to_string(), "X".to_string())]
    );
}

#[test]
fn vessel_identifiers_and_records() {
    assert_eq!(vessel_mmsi("MMSI-419000123"), "419000123");
    assert_eq!(vessel_id_for(419000123), "MMSI-419000123");
    assert_eq!(vessel_id_for(-7), "MMSI--7");
    assert_eq!(last_seen_key("42"), "ais:vessel:42:last_seen");
    assert_eq!(dark_key("42"), "ais:vessel:42:dark");
    assert_eq!(ship_name(Some("  SEA STAR ")), "SEA STAR");
    assert_eq!(ship_name(None), "UNKNOWN");
    assert_eq!(AnomalyType::DarkVessel.to_string(), "DarkVessel");
    assert_eq!(stream_error("bad key"), "AISstream error: bad key");
    assert!(no_vessels_error().starts_with("No live vessels"));
}

#[test]
fn dark_vessel_detection() {
    let in_view = mmsis_in_view(&strings(&["MMSI-1", "MMSI-2"]));
    assert_eq!(unseen_vessel_of("ais:vessel:1:last_seen", &in_view), None);
    assert_eq!(unseen_vessel_of("ais:vessel:3:last_seen", &in_view), Some("3".to_string()));
    assert_eq!(unseen_vessel_of("ais:vessel:3", &in_view), None);
    assert!(has_gone_dark(10_000, 8_000));
    assert!(!has_gone_dark(10_000, 8_200));
}

#[test]
fn position_collection() {
    let mut c = AisCollector::new(2);
    assert_eq!(c.on_position(0), PositionVerdict::Skip);
    assert_eq!(c.on_position(5), PositionVerdict::Record);
    assert_eq!(c.on_position(5), PositionVerdict::Skip);
    assert_eq!(c.on_position(6), PositionVerdict::RecordAndStop);
    assert_eq!(c.seen, [5, 6].into_iter().collect::<std::collections::HashSet<i64>>());
    assert_eq!(c.recorded, 2);
    let mut first = AisCollector::new(0);
    assert_eq!(first.on_position(9), PositionVerdict::RecordAndStop);
}

#[test]
fn maritime_settings_and_replies() {
    let s = MaritimeSettings::from_env(&env(&[("AISSTREAM_MAX_VESSELS", "5")]));
    assert_eq!((s.cache_ttl_seconds, s.max_vessels), (300, 5));
    let r = maritime_response::<u8>(FetchOutcome::KeyMissing);
    assert_eq!(r.status, "provider_missing");
    assert_eq!(r.error.as_deref(), Some("AISSTREAM_API_KEY missing"));
    let r = maritime_response(FetchOutcome::Fetched(vec![1u8, 2]));
    assert_eq!((r.status.as_str(), r.provider_path.as_deref(), r.results.len()), ("ok", Some("aisstream"), 2));
    let r = maritime_response::<u8>(FetchOutcome::Failed("boom".into()));
    assert_eq!((r.status.as_str(), r.error.as_deref()), ("provider_error", Some("boom")));
    let r = maritime_response(FetchOutcome::Cached(vec![1u8]));
    assert_eq!(r.provider_path.as_deref(), Some("redis_cache"));
}

#[test]
fn health_replies() {
    assert!(provider_answers(200) && provider_answers(401) && provider_answers(403));
    assert!(!provider_answers(404) && !provider_answers(500));
    let h = health_report(true, true, false, true, true);
    assert_eq!(h.integrity, "HIGH");
    assert_eq!(h.services, 5);
    assert_eq!(h.providers[2].provider, "aisstream");
    assert_eq!(h.providers[2].status, "unreachable");
    assert_eq!(health_report(true, true, true, true, false).integrity, "DEGRADED");
    let p = provider_status("redis", true);
    assert_eq!(p.status, "reachable");
    let q = quantum_health("pk".to_string(), false);
    assert_eq!((q.kyber1024.as_str(), q.neo4j.as_str()), ("active", "offline"));
}

#[test]
fn production_checks() {
    assert_eq!(validate_production_config(&env(&[])), None);
    let base = [("ENVIRONMENT", "production"), ("REDIS_URL", "redis://r"), ("NEO4J_URI", "bolt://g")];
    assert_eq!(validate_production_config(&env(&base)), None);
    let mut with_test = base.to_vec();
    with_test.push(("TEST_MODE", "true"));
    assert_eq!(
        validate_production_config(&env(&with_test)).as_deref(),
        Some("[PRODUCTION] TEST_MODE=true is FORBIDDEN in production environment")
    );
    assert_eq!(
        validate_production_config(&env(&[("ENVIRONMENT", "production")])).as_deref(),
        Some("[PRODUCTION] REDIS_URL is required in production")
    );
    let mut kafka = base.to_vec();
    kafka.push(("KAFKA_ENABLED", "true"));
    kafka.push(("KAFKA_SERVERS", "localhost:9092"));
    assert!(validate_production_config(&env(&kafka)).unwrap().contains("KAFKA_SERVERS"));
}

#[test]
fn generic_replies_and_log_lines() {
    let r = fetched_reply::<u8>("openweather", vec![], &strings(&["a", "b"]));
    assert_eq!((r.status.as_str(), r.error.as_deref()), ("provider_missing", Some("a; b")));
    let r = fetched_reply("openweather", vec![3u8], &strings(&["a"]));
    assert_eq!((r.status.as_str(), r.error.is_none()), ("ok", true));
    assert_eq!(cached_reply(vec![1u8]).provider_path.as_deref(), Some("redis_cache"));
    let r = key_missing_reply::<u8>("openweather", "OPENWEATHER_API_KEY missing");
    assert_eq!(r.error.as_deref(), Some("OPENWEATHER_API_KEY missing"));
    assert_eq!(operational_impact("HIGH"), "Limited visibility. Caution required for patrols.");
    assert_eq!(operational_impact("LOW"), "Favorable conditions for operations.");
    assert_eq!(ops_entry("12:00:00", "NEWS", "FETCH", "3 ARTICLES"), "[12:00:00] [NEWS] [FETCH] [3 ARTICLES]");
}

#[test]
fn satellite_pieces() {
    assert_eq!(sentinel_credentials(&env(&[("SENTINEL_CLIENT_ID", "id")])), None);
    assert_eq!(
        sentinel_credentials(&env(&[("SENTINEL_CLIENT_ID", "id"), ("SENTINEL_CLIENT_SECRET", "s")])),
        Some(("id".to_string(), "s".to_string()))
    );
    assert_eq!(sentinel_credentials(&env(&[("SENTINEL_CLIENT_ID", ""), ("SENTINEL_CLIENT_SECRET", "s")])), None);
    assert_eq!(satellite_cache_ttl(&env(&[])), 3600);
    assert_eq!(alert_ids(&vec![]), strings(&["SAT-LADAKH-001"]));
    assert_eq!(alert_ids(&vec![Some("S2A".to_string()), None]), strings(&["S2A", "SAT-UNK"]));
    let r = satellite_response::<u8>(SatelliteOutcome::NoToken);
    assert_eq!((r.status.as_str(), r.provider_path.is_none()), ("sentinel_pending", true));
    let r = satellite_response(SatelliteOutcome::Fetched(vec![1u8]));
    assert_eq!(r.provider_path.as_deref(), Some("https://sh.dataspace.copernicus.eu/api/v1/catalog/1.0.0/search"));
}

#[test]
fn graph_writes_and_export() {
    let plan = synthesis_plan(
        &strings(&["LeT", " "]),
        &strings(&["Leh", ""]),
        &vec![("tavily".to_string(), true), ("news".to_string(), false)],
    );
    assert_eq!(plan.actors, strings(&["LeT"]));
    assert_eq!(plan.zones, strings(&["Leh"]));
    assert_eq!(plan.providers, strings(&["tavily"]));
    assert_eq!(plan.links.len(), 4);
    assert_eq!(plan.links[1], ("LeT".to_string(), "".to_string()));
    let mut seen = SeenIds::new();
    assert!(seen.insert("a"));
    assert!(!seen.insert("a"));
    assert!(seen.insert("b"));
    assert_eq!(
        target_node(&strings(&["Zone"]), Some("Leh".into()), None),
        ("Zone".to_string(), "Leh".to_string(), "Zone:Leh".to_string())
    );
    assert_eq!(
        target_node(&vec![], None, Some("419".into())),
        ("Unknown".to_string(), "419".to_string(), "Unknown:419".to_string())
    );
    assert_eq!(node_type("ThreatEvent"), "threatevent");
}

#[test]
fn snapshot_images_are_base64() {
    assert_eq!(biq::satellite::snapshot_image_base64(b"hi"), "aGk=");
    assert_eq!(biq::satellite::snapshot_image_base64(b""), "");
}

#[test]
fn tracking_health_and_configuration() {
    let c = ServiceConfig::from_env(&env(&[("REDIS_URL", "r"), ("TAVILY_API_KEY", "t")]), true).unwrap();
    let p = configured_providers(&c);
    assert_eq!(p.len(), 7);
    assert_eq!(p[6], ("geoapify", false));
    assert_eq!(p[0], ("opensky", true));
    assert_eq!(p[5], ("tavily", true));
    assert_eq!(p[2], ("gps", false));
    assert_eq!(tracking_health(true), (200, "ok"));
    assert_eq!(tracking_health(false), (503, "degraded"));
}

#[test]
fn live_session_rules() {
    assert!(delivers_update(false, "low"));
    assert!(delivers_update(true, "high"));
    assert!(!delivers_update(true, "medium"));
    assert!(!session_expired(60, 0));
    assert!(session_expired(60, 1));
    assert!(session_expired(61, 0));
}

use biq::intel::{border_risk_level, predicted_target};
use biq::context::{
    background_intent, extract_keywords, extract_location_keywords, merged_priority, profile_query,
    query_type_label, uses_default_zone,
};
use biq::fusion::{collect_drivers, generate_recommendations, weather_band, DriverSignals, WeatherBand};
use biq::intel::{
    answered_from_cache, any_high_severity, correlation_contributors, fallback_explanation,
    first_location_or_global, gated_fetch, graph_locations, provider_limited, providers_available,
    quota_key, quota_refusal, scheduled_update_message, stamped_id, ws_priority_for_risk, GateOutcome,
};
use biq::news::headline_threat;
use biq::osint::{expand_query, first_of_each_url, merged_answer, search_cache_entry, search_cache_key};
use biq::priority::Priority;
use biq::query_router::QueryType;

fn strings(v: &[&str]) -> Vec<String> {
    v.iter().map(|s| s.to_string()).collect()
}

#[test]
fn places_named_in_a_query() {
    assert_eq!(extract_location_keywords("Patrols near LEH and Kargil"), strings(&["Kargil", "Leh"]));
    assert!(extract_location_keywords("open sea").is_empty());
}

#[test]
fn query_keywords_skip_stop_words_and_short_words() {
    assert_eq!(
        extract_keywords("The PLA is at the LAC, near Ladakh!"),
        strings(&["pla", "lac", "near", "ladakh"])
    );
    let many = "alpha bravo charlie delta echoes foxtrot golfer hotel india juliet kilo lima";
    assert_eq!(extract_keywords(many).len(), 10);
    // Two characters of two bytes each make four bytes, so the word counts.
    assert_eq!(extract_keywords("éé ab"), strings(&["éé"]));
}

#[test]
fn query_profile() {
    let p = profile_query("Vessel attack near port");
    assert_eq!(p.query_type, QueryType::Maritime);
    assert_eq!(p.intent, "Maritime");
    assert_eq!(p.priority, Priority::High);
    assert_eq!(p.keywords, strings(&["vessel", "attack", "near", "port"]));
    assert_eq!(query_type_label(QueryType::General), "General");
    assert!(uses_default_zone("ladakh", false));
    assert!(!uses_default_zone("34.1,77.5", false));
    assert!(!uses_default_zone("ladakh", true));
    assert_eq!(background_intent("News"), "News (from background)");
    assert_eq!(merged_priority(Priority::Low, true), Priority::High);
    assert_eq!(merged_priority(Priority::Medium, false), Priority::Medium);
}

#[test]
fn expanded_queries() {
    assert_eq!(
        expand_query("Ladakh border"),
        strings(&[
            "Ladakh border",
            "Ladakh border military activity",
            "Ladakh border conflict",
            "Ladakh border security threat",
            "Ladakh border intelligence report",
        ])
    );
    let q = expand_query("ship satellite imagery border");
    assert_eq!(q.len(), 5);
    assert_eq!(q[3], "ship satellite imagery border naval exercise");
    assert_eq!(q[4], "ship satellite imagery border shipping route");
    assert_eq!(expand_query("x"), strings(&["x", "x security threat", "x intelligence report"]));
}

#[test]
fn search_cache_names() {
    assert_eq!(search_cache_key("Ladakh Border News"), "ladakh_border_news");
    assert_eq!(search_cache_entry("A B"), "cache:tavily:a_b");
}

#[test]
fn merging_search_results() {
    let urls = strings(&["u1", "u2", "u1", "u3", "u2"]);
    assert_eq!(first_of_each_url(&urls), vec![0, 1, 3]);
    assert_eq!(merged_answer(&vec![]), None);
    assert_eq!(merged_answer(&strings(&["a", "b"])), Some("a b".to_string()));
}

#[test]
fn drivers_and_recommendations() {
    let signals = DriverSignals {
        ai_label: Some("AI analysis (score=0.50)".to_string()),
        news_active: true,
        news_count: 12,
        vessel_alert: true,
        financial_threat: false,
        terrain_sensitive: false,
        satellite_activity: true,
        weather: weather_band("CRITICAL"),
    };
    let drivers = collect_drivers(&signals);
    assert_eq!(
        drivers,
        strings(&[
            "AI analysis (score=0.50)",
            "news activity (12 articles)",
            "vessel anomaly",
            "satellite imagery activity",
            "extreme weather conditions",
        ])
    );
    let recs = generate_recommendations("HIGH", &drivers);
    assert_eq!(
        recs,
        strings(&[
            "Immediate attention required",
            "Activate alert mode monitoring",
            "Increase surveillance frequency",
            "Track vessel movement patterns",
            "Analyze recent imagery changes",
            "Review operational weather thresholds",
        ])
    );
    assert_eq!(generate_recommendations("NOMINAL", &vec![]), strings(&["Continue routine monitoring"]));
    assert_eq!(weather_band("MODERATE"), WeatherBand::Moderate);
    assert_eq!(weather_band("LOW"), WeatherBand::Calm);
}

#[test]
fn quota_gates() {
    assert_eq!(gated_fetch(true, false), GateOutcome::Serve { count: true });
    assert_eq!(gated_fetch(true, true), GateOutcome::Serve { count: false });
    assert_eq!(gated_fetch(false, true), GateOutcome::Serve { count: false });
    assert_eq!(gated_fetch(false, false), GateOutcome::QuotaLimited);
    assert!(answered_from_cache(&Some("redis_cache".to_string())));
    assert!(!answered_from_cache(&Some("newsapi+rss".to_string())));
    assert!(!answered_from_cache(&None));
    assert_eq!(quota_key("quota:newsapi", "20250101"), "quota:newsapi:20250101");
}

#[test]
fn cached_answers_never_charge_the_quota() {
    for has_room in [false, true] {
        match gated_fetch(has_room, true) {
            GateOutcome::Serve { count } => assert!(!count),
            GateOutcome::QuotaLimited => panic!("a cached answer is always served"),
        }
    }
}

#[test]
fn refusals() {
    assert!(quota_refusal(&Ok(true), "redis_unavailable", "x").is_none());
    let r = quota_refusal(&Ok(false), "redis_unavailable", "NewsAPI daily quota exceeded").unwrap();
    assert_eq!((r.http_status, r.status.as_str(), r.error.as_str()), (429, "provider_limited", "NewsAPI daily quota exceeded"));
    let r = quota_refusal(&Err("down".to_string()), "redis_error", "x").unwrap();
    assert_eq!((r.http_status, r.status.as_str(), r.error.as_str()), (503, "redis_error", "down"));
    let reply = provider_limited::<u8>("aisstream", "AISstream hourly quota exceeded");
    assert_eq!(reply.status, "provider_limited");
    assert_eq!(reply.provider_path.as_deref(), Some("aisstream"));
    assert!(reply.results.is_empty());
}

#[test]
fn announcements_and_counts() {
    assert_eq!(providers_available(true, false, true, false, true, true), 4);
    assert_eq!(providers_available(false, false, false, false, false, false), 0);
    assert_eq!(ws_priority_for_risk("CRITICAL"), "high");
    assert_eq!(ws_priority_for_risk("ELEVATED"), "medium");
    assert_eq!(ws_priority_for_risk("NOMINAL"), "low");
    assert_eq!(graph_locations(strings(&["Leh"]), "Kargil"), strings(&["Leh", "Kargil"]));
    assert_eq!(graph_locations(strings(&["Leh"]), "Unknown"), strings(&["Leh"]));
    assert_eq!(graph_locations(strings(&[]), ""), strings(&[]));
    assert_eq!(first_location_or_global(&strings(&["Leh", "X"])), "Leh");
    assert_eq!(first_location_or_global(&vec![]), "global");
    assert_eq!(scheduled_update_message("news"), "Scheduled news update");
}

#[test]
fn correlation_factors() {
    assert_eq!(correlation_contributors(false, false, false), strings(&["baseline_activity"]));
    assert_eq!(
        correlation_contributors(true, false, true),
        strings(&["high_risk_vessel_detected", "adverse_weather_conditions"])
    );
    assert_eq!(fallback_explanation(2), "Calculated correlation from 2 factors.");
    assert_eq!(stamped_id("corr-", 1700000000), "corr-1700000000");
    assert_eq!(stamped_id("evt-ml-", -5), "evt-ml--5");
    let keys = strings(&["border"]);
    let high = headline_threat("border attack", "s", &keys, "t").unwrap();
    let low = headline_threat("border calm", "s", &keys, "t").unwrap();
    assert!(!any_high_severity(&vec![headline_threat("border calm", "s", &keys, "t").unwrap()]));
    assert!(any_high_severity(&vec![low, high]));
}

#[test]
fn border_risk_and_prediction_target() {
    assert_eq!(border_risk_level(11), "CRITICAL");
    assert_eq!(border_risk_level(10), "HIGH");
    assert_eq!(border_risk_level(5), "MONITORED");
    assert_eq!(predicted_target(&strings(&["PK", "CN"])), "Ladakh border");
    assert_eq!(predicted_target(&strings(&["PK"])), "Siachen border");
}

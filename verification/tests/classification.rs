use biq::priority::{classify_priority, priority_color, should_trigger_llm, Priority};
use biq::query_router::{classify_query, get_providers_for_query, routing_enabled, QueryType};
use biq::settings::EnvSnapshot;

fn env(pairs: &[(&str, &str)]) -> EnvSnapshot {
    EnvSnapshot { vars: pairs.iter().map(|(k, v)| (k.to_string(), v.to_string())).collect() }
}

#[test]
fn priority_by_keywords() {
    assert_eq!(classify_priority("Missile launch detected"), Priority::High);
    assert_eq!(classify_priority("Border patrol schedule"), Priority::Medium);
    assert_eq!(classify_priority("Tea prices"), Priority::Low);
    assert_eq!(Priority::High.as_str(), "high");
    assert_eq!(Priority::Medium.to_string(), "medium");
    assert_eq!(Priority::default(), Priority::Low);
    assert_eq!(priority_color(Priority::High), "#DC2626");
}

#[test]
fn llm_trigger_rules() {
    assert!(should_trigger_llm(Priority::High, false));
    assert!(should_trigger_llm(Priority::Medium, true));
    assert!(!should_trigger_llm(Priority::Medium, false));
    assert!(!should_trigger_llm(Priority::Low, true));
}

#[test]
fn query_types() {
    assert_eq!(classify_query("Vessel near Karachi port"), QueryType::Maritime);
    assert_eq!(classify_query("heavy rain in Leh"), QueryType::Weather);
    assert_eq!(classify_query("training program"), QueryType::General);
    assert_eq!(classify_query("Sentinel imagery of Ladakh"), QueryType::Satellite);
    assert_eq!(classify_query("bitcoin wallet"), QueryType::Crypto);
    assert_eq!(classify_query("latest border attack"), QueryType::News);
    assert_eq!(get_providers_for_query(QueryType::News), vec!["newsapi", "tavily", "osint"]);
    assert!(routing_enabled(&env(&[])));
    assert!(!routing_enabled(&env(&[("QUERY_ROUTING_ENABLED", "false")])));
}

use biq::news::rss_feeds;
use biq::news::{
    cached_news_response, china_feed_hits, extract_keywords, feed_threats, headline_threat, keywords,
    news_query, news_response, pakistan_feed_hits, parse_keyword_list, severity_from_title,
    threats_from_titles, titles_mentioning, NewsThreat,
};
use biq::settings::EnvSnapshot;

fn env(pairs: &[(&str, &str)]) -> EnvSnapshot {
    EnvSnapshot { vars: pairs.iter().map(|(k, v)| (k.to_string(), v.to_string())).collect() }
}

fn strings(v: &[&str]) -> Vec<String> {
    v.iter().map(|s| s.to_string()).collect()
}

#[test]
fn keywords_are_extracted() {
    let keys = vec!["border".to_string(), "terror".to_string()];
    let hits = extract_keywords("Border terror update", &keys);
    assert_eq!(hits.len(), 2);
}

#[test]
fn keyword_hits_keep_watch_list_order() {
    let keys = strings(&["vessel", "border", "attack"]);
    assert_eq!(extract_keywords("ATTACK near the BORDER", &keys), strings(&["border", "attack"]));
    assert!(extract_keywords("calm seas", &keys).is_empty());
}

#[test]
fn keyword_list_is_trimmed_and_lowercased() {
    assert_eq!(parse_keyword_list(" Border , TERROR,weapon "), strings(&["border", "terror", "weapon"]));
    assert_eq!(parse_keyword_list(""), strings(&[""]));
}

#[test]
fn keywords_default_and_override() {
    assert_eq!(keywords(&env(&[])), strings(&["border", "incursion", "terror", "weapon", "vessel"]));
    assert_eq!(keywords(&env(&[("THREAT_KEYWORDS", "Drone,Missile")])), strings(&["drone", "missile"]));
}

#[test]
fn severity_grading() {
    assert_eq!(severity_from_title("Terror ATTACK reported"), "high");
    assert_eq!(severity_from_title("Border incursion"), "medium");
    assert_eq!(severity_from_title("Armed Conflict escalates"), "medium");
    assert_eq!(severity_from_title("Trade talks"), "low");
}

#[test]
fn headline_threat_needs_a_hit() {
    let keys = strings(&["border"]);
    assert!(headline_threat("Markets rally", "NewsAPI", &keys, "t0").is_none());
    let t: NewsThreat = headline_threat("Attack on border post", "NewsAPI", &keys, "t0").unwrap();
    assert_eq!(t.title, "Attack on border post");
    assert_eq!(t.source, "NewsAPI");
    assert_eq!(t.severity, "high");
    assert_eq!(t.keywords, strings(&["border"]));
    assert_eq!(t.timestamp, "t0");
}

#[test]
fn threats_from_titles_drops_unmatched() {
    let keys = strings(&["vessel"]);
    let titles = strings(&["Vessel seized", "Weather fine", "vessel drill"]);
    let out = threats_from_titles(&titles, "RSS: x", &keys, "t");
    assert_eq!(out.len(), 2);
    assert_eq!(out[0].title, "Vessel seized");
    assert_eq!(out[1].title, "vessel drill");
    assert_eq!(out[1].severity, "low");
}

#[test]
fn feed_threats_read_item_titles() {
    let body = "<rss><channel><title>Border feed</title><item><title>Border clash</title></item>\
                <item><title>Sports</title></item></channel></rss>";
    let keys = strings(&["border"]);
    let out = feed_threats(body, "https://feed", &keys, "t");
    assert_eq!(out.len(), 1);
    assert_eq!(out[0].title, "Border clash");
    assert_eq!(out[0].source, "RSS: https://feed");
}

#[test]
fn news_query_joins_with_or() {
    assert_eq!(news_query(&strings(&["a", "b", "c"])), "a OR b OR c");
    assert_eq!(news_query(&strings(&[])), "");
}

#[test]
fn news_response_ok_and_missing() {
    let keys = strings(&["border"]);
    let t = headline_threat("border", "s", &keys, "t").unwrap();
    let ok = news_response(vec![t], &strings(&["e1"]));
    assert_eq!(ok.status, "ok");
    assert_eq!(ok.provider_path.as_deref(), Some("newsapi+rss"));
    assert!(ok.error.is_none());
    assert_eq!(ok.results.len(), 1);
    let missing = news_response(vec![], &strings(&["NEWSAPI_KEY missing", "RSS error"]));
    assert_eq!(missing.status, "provider_missing");
    assert_eq!(missing.error.as_deref(), Some("NEWSAPI_KEY missing; RSS error"));
    assert!(missing.results.is_empty());
    let cached = cached_news_response(vec![]);
    assert_eq!(cached.provider_path.as_deref(), Some("redis_cache"));
}

#[test]
fn watch_words_match_with_case() {
    let titles = strings(&["Hafiz Saeed speaks", "saeed lowercase", "LeT cadre", "Nothing"]);
    assert_eq!(
        titles_mentioning(&titles, &["Saeed", "JeM", "LeT"]),
        strings(&["Hafiz Saeed speaks", "LeT cadre"])
    );
}

#[test]
fn feed_hits_for_pakistan_and_china() {
    let body = "<rss><channel><item><title>JeM camp found</title></item><item><title>PLA drills in Ladakh</title></item></channel></rss>";
    assert_eq!(pakistan_feed_hits(body), strings(&["JeM camp found"]));
    assert_eq!(china_feed_hits(body), strings(&["PLA drills in Ladakh"]));
    assert!(pakistan_feed_hits("not xml <<<").is_empty());
}

#[test]
fn feed_list_default_and_blanks_dropped() {
    assert_eq!(
        rss_feeds(&env(&[])),
        strings(&["https://www.dawn.com/rss/latest", "https://www.globaltimes.cn/rss"])
    );
    assert_eq!(rss_feeds(&env(&[("RSS_FEEDS", " a ,, b , ")])), strings(&["a", "b"]));
    assert_eq!(rss_feeds(&env(&[("RSS_FEEDS", "")])), Vec::<String>::new());
}

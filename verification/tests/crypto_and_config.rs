use biq::borders::BorderStore;
use biq::error::{failure_detail, RequestFailure};
use biq::config::{gps_poll_mode, positions_url, ConfigError, GpsPollMode, ServiceConfig};
use biq::ids::anomaly_id;
use biq::llm::{
    financial_summary, fusion_lookup_key, fusion_store_key, llm_enabled_for_event, maritime_summary,
    osint_context, osint_snippet, policy_reply, satellite_summary, sentiment_label, should_downgrade,
    strip_code_fences, unavailable, IntelContext, LlmConfig,
};
use biq::quantum::{
    decrypt_with_kyber, encrypt_with_kyber, generate_quantum_keys, try_decrypt_with_kyber,
    try_encrypt_with_kyber,
};
use biq::sanctions::{misttrack_key, ofac_member, parse_ofac_xml, screen_members, screening_response, OfacEntry};
use biq::settings::EnvSnapshot;

fn env(pairs: &[(&str, &str)]) -> EnvSnapshot {
    EnvSnapshot { vars: pairs.iter().map(|(k, v)| (k.to_string(), v.to_string())).collect() }
}

fn strings(v: &[&str]) -> Vec<String> {
    v.iter().map(|s| s.to_string()).collect()
}

#[test]
fn generated_keys_encapsulate_and_decapsulate() {
    let keys = generate_quantum_keys();
    let (secret, ciphertext) = try_encrypt_with_kyber(&keys.public_key).expect("a generated key is accepted");
    let opened = try_decrypt_with_kyber(&ciphertext, &keys.secret_key).expect("sizes are right");
    assert_eq!(opened, secret);
    let (s2, c2) = encrypt_with_kyber(&keys.public_key);
    assert_eq!(decrypt_with_kyber(&c2, &keys.secret_key), s2);
}

#[test]
fn malformed_keys_are_refused() {
    assert!(try_encrypt_with_kyber("not base64!").is_none());
    assert!(try_encrypt_with_kyber("AAAA").is_none());
    assert!(try_decrypt_with_kyber("AAAA", "AAAA").is_none());
}

#[test]
fn ofac_addresses_are_read() {
    let xml = r#"<sdn><publishInformation><id>7</id></publishInformation>
        <entry><id>1</id><lastName>Lazarus</lastName>
          <feature featureType="Digital Currency Address - XBT">
            <featureVersion><versionLocation> bc1qxyz </versionLocation></featureVersion>
          </feature>
          <feature featureType="Vessel Flag"><featureVersion><versionLocation>PA</versionLocation></featureVersion></feature>
        </entry></sdn>"#;
    let entries = parse_ofac_xml(xml, "now");
    assert_eq!(entries.len(), 1);
    assert_eq!(entries[0].address, "bc1qxyz");
    assert_eq!(entries[0].name, "Lazarus");
    assert_eq!(entries[0].programs, strings(&["OFAC_SDN"]));
    assert_eq!(entries[0].last_updated, "now");
    assert!(parse_ofac_xml("<unclosed>", "now").is_empty());
}

#[test]
fn screening_reads_back_stored_members() {
    let entry = OfacEntry {
        address: "1A1zP1eP5QGefi2DMPTfTL5SLmv7DivfNa".into(),
        name: "Actor".into(),
        programs: strings(&["OFAC_SDN", "CYBER2"]),
        last_updated: "t".into(),
    };
    let member = ofac_member(&entry);
    assert_eq!(member, "1A1zP1eP5QGefi2DMPTfTL5SLmv7DivfNa|Actor|OFAC_SDN,CYBER2");
    let hit = screen_members(&vec!["junk".into(), member], "1a1zp1ep5qgefi2dmptftl5slmv7divfna");
    assert!(hit.is_sanctioned);
    assert_eq!(hit.entity_name, "Actor");
    assert_eq!(hit.programs, strings(&["OFAC_SDN", "CYBER2"]));
    let miss = screen_members(&vec!["a|b".into()], "a");
    assert!(!miss.is_sanctioned && miss.entity_name.is_empty() && miss.programs.is_empty());
}

#[test]
fn screening_settings_and_replies() {
    assert_eq!(misttrack_key(&env(&[])), Err("MISTTRACK_API_KEY not configured".to_string()));
    assert_eq!(misttrack_key(&env(&[("MISTTRACK_API_KEY", "")])), Err("MISTTRACK_API_KEY not configured".to_string()));
    assert_eq!(misttrack_key(&env(&[("MISTTRACK_API_KEY", "k")])), Ok("k".to_string()));
    let ok = screening_response(Ok(1u8));
    assert_eq!((ok.status.as_str(), ok.results.len()), ("ok", 1));
    let err = screening_response::<u8>(Err("down".into()));
    assert_eq!((err.status.as_str(), err.error.as_deref()), ("screening_error", Some("down")));
}

#[test]
fn service_settings() {
    assert_eq!(ServiceConfig::from_env(&env(&[]), true).err(), Some(ConfigError::MissingRedisUrl));
    assert_eq!(
        ServiceConfig::from_env(&env(&[("PORT", "99999"), ("REDIS_URL", "r")]), true).err(),
        Some(ConfigError::InvalidPort)
    );
    assert_eq!(ConfigError::InvalidPort.to_string(), "PORT must be a number");
    let c = ServiceConfig::from_env(
        &env(&[
            ("REDIS_URL", "redis://x"),
            ("CORS_ORIGINS", " a , b "),
            ("GPS_POLL_SECONDS", "0"),
            ("INGEST_ENABLED", "no"),
            ("ADMIN_API_TOKEN", "   "),
            ("GPS_API_BASE_URL", "https://api.geoapify.com/v1"),
            ("GPS_API_KEY", "k"),
        ]),
        false,
    )
    .unwrap();
    assert_eq!(c.port, 8000);
    assert_eq!(
        c.cors_origins,
        strings(&[
            "https://bharat-intel-quantum-biq.vercel.app",
            "https://bharat-intel-quantum-biq-frontend.vercel.app",
            "a",
            "b"
        ])
    );
    assert_eq!(c.gps_poll_seconds, 1);
    assert!(c.ingest_enabled);
    assert_eq!(c.admin_api_token, None);
    assert_eq!(c.border_data_dir, "backend/data/borders");
    assert_eq!(c.geoapify_api_key.as_deref(), Some("k"));
    assert_eq!(c.tavily_max_per_day, 33);
    assert_eq!(c.quiet_poll_seconds, 45);
    assert_eq!(gps_poll_mode(&c.gps_api_base_url, &c.gps_api_key), GpsPollMode::NotLiveFeed);
    assert_eq!(gps_poll_mode(&Some("https://gps.example.com".into()), &Some("k".into())), GpsPollMode::Poll);
    assert_eq!(gps_poll_mode(&None, &Some("k".into())), GpsPollMode::Disabled);
    assert_eq!(positions_url("https://gps.example.com"), "https://gps.example.com/positions");
}

#[test]
fn model_policy_and_settings() {
    assert!(llm_enabled_for_event(&env(&[]), true));
    assert!(!llm_enabled_for_event(&env(&[]), false));
    assert!(llm_enabled_for_event(&env(&[("LLM_ONLY_ON_NEW_EVENTS", "false")]), false));
    assert!(!llm_enabled_for_event(&env(&[("LLM_ENABLED", "no")]), true));
    assert_eq!(policy_reply(&env(&[("LLM_ENABLED", "false")])).as_deref(), Some("LLM disabled by policy"));
    assert_eq!(policy_reply(&env(&[])), None);
    assert_eq!(LlmConfig::from_env(&env(&[])).err().as_deref(), Some("MISTRAL_API_KEY missing"));
    let c = LlmConfig::from_env(&env(&[("MISTRAL_API_KEY", "k"), ("MISTRAL_BASE_URL", "http://m//")])).unwrap();
    assert_eq!(c.chat_endpoint(), "http://m/chat/completions");
    assert_eq!(c.authorization(), "Bearer k");
    assert_eq!(c.model, "mistral-small-latest");
    assert_eq!(c.cache_ttl_seconds, 3600);
}

#[test]
fn model_context_and_reply() {
    let mut ctx = IntelContext::new("Ladakh");
    assert_eq!(ctx.correlation_id.len(), 36);
    assert_eq!(ctx.correlation_id.as_bytes()[8], b'-');
    assert_eq!(ctx.correlation_id.as_bytes()[14], b'4');
    ctx.tavily_count = 3;
    ctx.weather_ok = true;
    let prompt = ctx.build_prompt();
    assert!(prompt.starts_with(&format!("CORRELATION_ID: {}\nQUERY: Ladakh\n\nOSINT_SEARCH: \n", ctx.correlation_id)));
    assert!(prompt.contains("\"tavily\": 3,\n    \"news\": 0,\n    \"weather\": true,\n    \"terrain\": false"));
    assert!(prompt.ends_with("\"satellite\": false\n  }\n}"));
    assert_eq!(unavailable("timeout"), "UNAVAILABLE: timeout");
    let long = "x".repeat(250);
    assert_eq!(osint_snippet("T", &long), format!("[T] {}", "x".repeat(200)));
    assert_eq!(osint_context(&strings(&["a", "b"]), Some("yes")), "ANSWER: yes | SOURCES: a | b");
    assert_eq!(osint_context(&strings(&["a"]), None), "a");
    assert_eq!(maritime_summary(10, 1, 2), "10 vessels tracked 1 dark vessel(s) 2 high-risk");
    assert_eq!(financial_summary(0), "0 OFAC-linked wallet(s) detected");
    assert_eq!(satellite_summary(&vec![], 0), ("no recent activity detected".to_string(), false));
    assert_eq!(satellite_summary(&strings(&["thermal", "imagery"]), 2), ("activity detected: thermal, imagery".to_string(), true));
    assert_eq!(sentiment_label(4), "ELEVATED");
    assert_eq!(sentiment_label(3), "STABLE");
    assert_eq!(fusion_lookup_key("Ladakh Border"), "cache:llm:fusion:ladakh_border");
    assert_eq!(fusion_store_key("Ladakh Border"), "cache:llm:fusion:ladakh_border");
    assert_eq!(strip_code_fences("  ```json\n{\"a\":1}\n```  "), "{\"a\":1}");
    assert_eq!(strip_code_fences("{}"), "{}");
    assert!(should_downgrade("There are NO ACTIVE THREATS here"));
    assert!(!should_downgrade("Troop build-up observed"));
}

#[test]
fn anomaly_ids_are_fresh() {
    let a = anomaly_id();
    let b = anomaly_id();
    assert!(a.starts_with("anom_"));
    assert_eq!(a.len(), 41);
    assert_ne!(a, b);
    assert_eq!(a.as_bytes()[19], b'4');
    assert!(matches!(a.as_bytes()[24], b'8' | b'9' | b'a' | b'b'));
}

#[test]
fn hosted_frontend_origins_are_always_allowed() {
    let c = ServiceConfig::from_env(&env(&[("REDIS_URL", "redis://x")]), true).unwrap();
    assert_eq!(
        c.cors_origins,
        strings(&[
            "https://bharat-intel-quantum-biq.vercel.app",
            "https://bharat-intel-quantum-biq-frontend.vercel.app",
            "http://localhost:3000",
            "http://127.0.0.1:3000"
        ])
    );
    assert_eq!(c.border_data_dir, "data/borders");
}

#[test]
fn provider_failures_are_described_without_payloads() {
    assert_eq!(failure_detail(RequestFailure::Status(401)), "HTTP 401");
    assert_eq!(failure_detail(RequestFailure::Status(503)), "HTTP 503");
    assert_eq!(failure_detail(RequestFailure::Timeout), "Request timed out");
    assert_eq!(failure_detail(RequestFailure::Connect), "Connection failed (DNS, TCP or TLS); see server logs");
    assert_eq!(failure_detail(RequestFailure::Transport), "Request transport failed; see server logs");
}

#[test]
fn border_features_are_framed_in_order() {
    let store = BorderStore::from_features(&strings(&["{\"id\":1}", "{\"id\":2}"]));
    assert_eq!(store.geojson_str, "{\"features\":[{\"id\":1},{\"id\":2}],\"type\":\"FeatureCollection\"}");
    let empty = BorderStore::from_features(&Vec::new());
    assert_eq!(empty.geojson_str, "{\"features\":[],\"type\":\"FeatureCollection\"}");
}

use sammy_lib::external_pkc::{
    authorized_payload_for_turn, consult_for_local_turn, consult_for_turn, consult_without_judgment,
    bridge_launch_check, bridge_request_fields, conversational_payload_from_bridge_json, discover_defaults, health_check,
    health_report_from_bridge, pick_python, pick_source_id,
    outcome_from_bridge, package_model_safe_context, parse_health_state, parse_sanitized, preflight_state,
    sanitize_bridge_response, should_retrieve_for_turn, skipped_cloud_bound, validate_or_error,
    validate_settings, audit_action, sanitize_reply, BridgeFailure, BridgePayload, BridgeResponse, EvidenceClass,
    PkcConsultStep, PkcEnvironment, PkcHealthState, PkcHealthStep, PkcTurnOutcome, PkcTurnView, PURPOSE,
};
use sammy_lib::grounding::leaks_pkc_bookkeeping;
use sammy_lib::settings::ProviderConfig;
use std::path::Path;

fn authorized_json(answer: &str) -> String {
    let mut payload = serde_json::Map::new();
    payload.insert("natural_answer".into(), serde_json::Value::String(answer.into()));
    payload.insert("conversational_context".into(), serde_json::Value::String(String::new()));
    payload.insert("authorized".into(), serde_json::Value::Bool(true));
    payload.insert("canonical_hash_verified".into(), serde_json::Value::Bool(true));
    payload.insert("protected_content_materialized".into(), serde_json::Value::Bool(true));
    let mut top = serde_json::Map::new();
    top.insert("bridge_version".into(), serde_json::Value::String("1.0.0".into()));
    top.insert("ok".into(), serde_json::Value::Bool(true));
    top.insert("available".into(), serde_json::Value::Bool(true));
    top.insert("payload".into(), serde_json::Value::Object(payload));
    serde_json::Value::Object(top).to_string()
}

fn payload_of(raw: &str) -> Option<String> {
    conversational_payload_from_bridge_json(raw)
}

/// What the caller observes on this machine for the configured paths.
fn observe(cfg: &ProviderConfig) -> PkcEnvironment {
    let python = sammy_lib::external_pkc::python_exe(cfg);
    let py = Path::new(&python);
    let bridge = Path::new(cfg.pkc_bridge_script.trim());
    let root = Path::new(cfg.pkc_root.trim());
    PkcEnvironment {
        python_ok: false,
        python_absolute: py.is_absolute(),
        python_exists: py.exists(),
        bridge_absolute: bridge.is_absolute(),
        bridge_is_file: bridge.is_file(),
        root_absolute: root.is_absolute(),
        root_is_dir: root.is_dir(),
    }
}

fn finished(step: PkcConsultStep) -> PkcTurnOutcome {
    match step {
        PkcConsultStep::Finished(o) => o,
        PkcConsultStep::InvokeBridge { .. } => panic!("expected the consultation to finish before the gateway"),
    }
}

#[test]
fn authorized_payload_reaches_the_model_path() {
    let payload = payload_of(&authorized_json("Dave grew up in Gloucester Township."));
    assert_eq!(payload.as_deref(), Some("Dave grew up in Gloucester Township."));
}

#[test]
fn unauthorized_payload_is_dropped() {
    let raw = r#"{"bridge_version":"1.0.0","ok":true,"available":true,"payload":{"natural_answer":"MUST_NOT_REACH_MODEL","conversational_context":"","authorized":false,"canonical_hash_verified":false,"protected_content_materialized":false,"safe_reason":"authorization_denied"}}"#;
    assert_eq!(payload_of(raw), None);
}

#[test]
fn unavailable_payload_is_dropped() {
    let raw = r#"{"bridge_version":"1.0.0","ok":false,"available":false,"payload":{"natural_answer":"","authorized":false,"canonical_hash_verified":false,"protected_content_materialized":false,"safe_reason":"pkc_unavailable"}}"#;
    assert_eq!(payload_of(raw), None);
}

#[test]
fn bookkeeping_in_natural_answer_is_dropped() {
    assert_eq!(payload_of(&authorized_json("authorization_denied CSDP-99")), None);
}

#[test]
fn disabled_config_does_not_query() {
    let cfg = ProviderConfig::default();
    assert!(!cfg.pkc_enabled);
    let outcome = finished(consult_without_judgment(&cfg));
    assert_eq!(authorized_payload_for_turn(outcome), None);
}

#[test]
fn malformed_json_is_dropped() {
    assert_eq!(payload_of("not-json"), None);
}

#[test]
fn empty_authorized_payload_is_dropped() {
    assert_eq!(payload_of(&authorized_json("")), None);
}

#[test]
fn sanitization_strips_bookkeeping_and_keeps_classification() {
    let evidence = parse_sanitized(&authorized_json("The family moved often.")).expect("ok");
    assert_eq!(evidence.classification, EvidenceClass::StoredFact);
    assert_eq!(evidence.source_type, "external_pkc");
    assert!(evidence.authorized);
    assert!(!leaks_pkc_bookkeeping(&evidence.model_safe_text));
    let packed = package_model_safe_context(&evidence.model_safe_text);
    assert!(packed.contains("stored/source-backed fact"));
    assert!(packed.contains("You previously described"));
    assert!(packed.contains("That suggests"));
    assert!(!packed.contains("CSDP-"));
    assert!(!packed.contains("canonical_hash"));
}

#[test]
fn sanitized_evidence_records_hash_and_length() {
    let evidence = sanitize_bridge_response(&authorized_json("  abc  ")).unwrap();
    assert_eq!(evidence.model_safe_text, "abc");
    assert_eq!(evidence.payload_chars, 3);
    assert_eq!(evidence.payload_sha256, "ba7816bf8f01cfea414140de5dae2223b00361a396177a9cb410ff61f20015ad");
}

#[test]
fn answer_and_context_are_joined_by_a_newline() {
    let raw = r#"{"bridge_version":"1.0.0","ok":true,"available":true,"payload":{"natural_answer":" first ","conversational_context":"second","authorized":true,"canonical_hash_verified":true,"protected_content_materialized":true}}"#;
    assert_eq!(payload_of(raw).as_deref(), Some("first\nsecond"));
}

#[test]
fn each_gateway_failure_has_its_reason() {
    assert!(matches!(parse_sanitized("not json"), Err(BridgeFailure::Malformed)));
    assert!(matches!(parse_sanitized(r#"{"bridge_version":"2.0.0"}"#), Err(BridgeFailure::Malformed)));
    assert!(matches!(parse_sanitized(r#"{"bridge_version":"1.0.0","ok":true,"available":false}"#), Err(BridgeFailure::Unavailable)));
    assert!(matches!(parse_sanitized(r#"{"bridge_version":"1.0.0","ok":true,"available":true}"#), Err(BridgeFailure::Malformed)));
    assert!(matches!(parse_sanitized(&authorized_json("")), Err(BridgeFailure::Empty)));
    assert!(matches!(parse_sanitized(&authorized_json("CSDP-1")), Err(BridgeFailure::Bookkeeping)));
}

#[test]
fn retrieval_judgment_skips_greetings_math_and_generic_facts() {
    for q in ["hello", "hi sammy", "thanks", "2 + 2", "what is 12*8", "What is the capital of France?", "How do I write a for loop?"] {
        assert!(!should_retrieve_for_turn(q), "{q}");
    }
}

#[test]
fn retrieval_judgment_selects_personal_history_questions() {
    for q in [
        "Where did I grow up?",
        "What do you remember about my childhood?",
        "What are my preferences for tone?",
        "When did I decide to start this project?",
        "Tell me about my family.",
        "What do you know about me?",
    ] {
        assert!(should_retrieve_for_turn(q), "{q}");
    }
}

#[test]
fn retrieval_judgment_edge_cases() {
    assert!(!should_retrieve_for_turn("   "));
    assert!(!should_retrieve_for_turn("Thanks!!"));
    assert!(!should_retrieve_for_turn("(1 + 2) = 3"));
    assert!(should_retrieve_for_turn("I grew up near the sea"));
    assert!(!should_retrieve_for_turn("myth and mythology"));
    assert!(should_retrieve_for_turn("mine-craft"));
}

#[test]
fn health_disabled_without_probe() {
    let cfg = ProviderConfig::default();
    let report = match health_check(&cfg, false, &observe(&cfg)) {
        PkcHealthStep::Report(r) => r,
        PkcHealthStep::InvokeBridge { .. } => panic!("no probe was asked for"),
    };
    assert_eq!(report.state, PkcHealthState::Disabled);
    assert!(!report.probed);
    assert!(report.local_only);
    assert_eq!(report.consumer, "sammy");
    assert_eq!(report.purpose, PURPOSE);
}

#[test]
fn health_without_probe_reports_last_known_state() {
    let cfg = ProviderConfig { pkc_enabled: true, pkc_last_health_state: "available_authorized".into(), ..ProviderConfig::default() };
    match health_check(&cfg, false, &observe(&cfg)) {
        PkcHealthStep::Report(r) => assert_eq!(r.state, PkcHealthState::AvailableAuthorized),
        _ => panic!("no probe was asked for"),
    }
    let cfg = ProviderConfig { pkc_enabled: true, pkc_last_health_state: "garbage".into(), ..ProviderConfig::default() };
    match health_check(&cfg, false, &observe(&cfg)) {
        PkcHealthStep::Report(r) => assert_eq!(r.state, PkcHealthState::ConfiguredNotTested),
        _ => panic!("no probe was asked for"),
    }
}

#[test]
fn probe_reply_is_reported_without_its_text() {
    let cfg = ProviderConfig { pkc_enabled: false, pkc_source_id: "SRC".into(), ..ProviderConfig::default() };
    let env = observe(&cfg);
    let r = health_report_from_bridge(&cfg, &env, "req".into(), Ok(authorized_json("secret body")));
    assert_eq!(r.state, PkcHealthState::AvailableAuthorized);
    assert_eq!(r.authorized, Some(true));
    assert!(r.probed);
    assert_eq!(r.payload_chars, 11);
    assert!(r.owner_message.contains("Enable it"));
    let denied = health_report_from_bridge(&cfg, &env, "req".into(), Err(BridgeFailure::Unauthorized));
    assert_eq!(denied.state, PkcHealthState::AvailableUnauthorized);
    assert_eq!(denied.authorized, Some(false));
    let timeout = health_report_from_bridge(&cfg, &env, "req".into(), Err(BridgeFailure::Timeout));
    assert_eq!(timeout.state, PkcHealthState::PkcUnavailable);
}

#[test]
fn validate_rejects_enabled_without_paths() {
    let cfg = ProviderConfig { pkc_enabled: true, ..ProviderConfig::default() };
    assert!(validate_settings(&cfg, &observe(&cfg)).is_err());
}

#[test]
fn validate_allows_disabled_incomplete() {
    let cfg = ProviderConfig::default();
    assert!(validate_settings(&cfg, &observe(&cfg)).is_ok());
}

#[test]
fn validate_rejects_relative_bridge() {
    let cfg = ProviderConfig {
        pkc_enabled: true,
        pkc_bridge_script: "bridge.py".into(),
        pkc_source_id: "SRC-SHA256-test".into(),
        ..ProviderConfig::default()
    };
    assert!(validate_settings(&cfg, &observe(&cfg)).is_err());
}

#[test]
fn validate_messages_follow_the_first_problem() {
    let cfg = ProviderConfig { pkc_enabled: true, ..ProviderConfig::default() };
    assert_eq!(
        validate_settings(&cfg, &observe(&cfg)).unwrap_err(),
        "Choose a PKC source identity before enabling personal knowledge."
    );
    let cfg = ProviderConfig { pkc_enabled: true, pkc_source_id: "S".into(), ..ProviderConfig::default() };
    assert_eq!(
        validate_settings(&cfg, &observe(&cfg)).unwrap_err(),
        "Set the PKC bridge location before enabling personal knowledge."
    );
    let cfg = ProviderConfig { pkc_enabled: true, pkc_source_id: "S".into(), pkc_bridge_script: "b.py".into(), ..ProviderConfig::default() };
    assert!(matches!(validate_or_error(&cfg, &observe(&cfg)), Err(sammy_lib::error::AppError::Config(_))));
}

#[test]
fn consult_skips_when_disabled() {
    let cfg = ProviderConfig::default();
    let outcome = finished(consult_for_local_turn(&cfg, "Where did I grow up?", &observe(&cfg)));
    assert!(!outcome.used);
    assert_eq!(outcome.state, PkcHealthState::Disabled);
}

#[test]
fn consult_skips_greetings_even_when_enabled() {
    let cfg = ProviderConfig {
        pkc_enabled: true,
        pkc_python_executable: "python-does-not-exist-xyz".into(),
        pkc_bridge_script: r"C:\missing\bridge.py".into(),
        pkc_source_id: "SRC-SHA256-test".into(),
        ..ProviderConfig::default()
    };
    let outcome = finished(consult_for_local_turn(&cfg, "hello", &observe(&cfg)));
    assert!(!outcome.used);
    assert_eq!(outcome.state, PkcHealthState::RetrievalSkipped);
}

#[test]
fn missing_bridge_does_not_panic() {
    let cfg = ProviderConfig {
        pkc_enabled: true,
        pkc_bridge_script: r"C:\missing\storykeeper_pkc_bridge.py".into(),
        pkc_source_id: "SRC-SHA256-test".into(),
        ..ProviderConfig::default()
    };
    let outcome = finished(consult_for_local_turn(&cfg, "Where did I grow up?", &observe(&cfg)));
    assert!(!outcome.used);
    assert_eq!(outcome.state, PkcHealthState::BridgeUnavailable);
    assert!(outcome.owner_view.owner_notice.is_some());
}

#[test]
fn preflight_orders_its_checks() {
    let cfg = ProviderConfig { pkc_enabled: true, pkc_bridge_script: "/b.py".into(), pkc_source_id: "S".into(), ..ProviderConfig::default() };
    let mut env = PkcEnvironment {
        python_ok: true,
        python_absolute: false,
        python_exists: false,
        bridge_absolute: true,
        bridge_is_file: true,
        root_absolute: false,
        root_is_dir: false,
    };
    assert_eq!(preflight_state(&cfg, &env), None);
    env.bridge_is_file = false;
    assert_eq!(preflight_state(&cfg, &env), Some(PkcHealthState::BridgeUnavailable));
    env.python_absolute = true;
    env.python_ok = false;
    assert_eq!(preflight_state(&cfg, &env), Some(PkcHealthState::PythonUnavailable));
    let blank = ProviderConfig { pkc_source_id: "  ".into(), ..cfg.clone() };
    assert_eq!(preflight_state(&blank, &env), Some(PkcHealthState::Misconfigured));
}

#[test]
fn consult_with_a_ready_environment_asks_for_the_gateway() {
    let cfg = ProviderConfig { pkc_enabled: true, pkc_bridge_script: "/b.py".into(), pkc_source_id: " SRC ".into(), ..ProviderConfig::default() };
    let env = PkcEnvironment {
        python_ok: true,
        python_absolute: false,
        python_exists: false,
        bridge_absolute: true,
        bridge_is_file: true,
        root_absolute: false,
        root_is_dir: false,
    };
    match consult_for_local_turn(&cfg, "Where did I grow up?", &env) {
        PkcConsultStep::InvokeBridge { request_id, timeout_secs } => {
            assert!(request_id.starts_with("SAMMY-PKC-"));
            assert_eq!(request_id.len(), "SAMMY-PKC-".len() + 36);
            assert_eq!(timeout_secs, 20);
            let o = outcome_from_bridge(&cfg, request_id.clone(), Ok(authorized_json("Dave grew up here.")));
            assert!(o.used);
            assert_eq!(o.state, PkcHealthState::AvailableAuthorized);
            let e = o.evidence.as_ref().unwrap();
            assert_eq!(e.source_id, "SRC");
            assert_eq!(e.request_id, request_id);
            assert_eq!(o.owner_view.authorized, Some(true));
            assert_eq!(authorized_payload_for_turn(o).as_deref(), Some("Dave grew up here."));
        }
        PkcConsultStep::Finished(_) => panic!("expected a gateway call"),
    }
    let denied = outcome_from_bridge(&cfg, "r".into(), Err(BridgeFailure::Unauthorized));
    assert_eq!(denied.state, PkcHealthState::AvailableUnauthorized);
    assert_eq!(denied.owner_view.authorized, Some(false));
    assert_eq!(denied.skip_reason, Some("unauthorized"));
    assert_eq!(audit_action(&denied), "pkc_authorization_denied");
}

#[test]
fn cloud_bound_turn_skips_without_notice() {
    let o = skipped_cloud_bound();
    assert!(!o.used);
    assert_eq!(o.state, PkcHealthState::CloudTurnSkipped);
    assert_eq!(o.skip_reason, Some("cloud_bound"));
    assert!(o.owner_view.owner_notice.is_none());
    assert_eq!(audit_action(&o), "pkc_retrieval_skipped_cloud");
}

#[test]
fn health_states_parse_back() {
    for s in [PkcHealthState::Disabled, PkcHealthState::AvailableAuthorized, PkcHealthState::RetrievalSkipped] {
        assert_eq!(parse_health_state(s.as_str()), Some(s));
    }
    assert_eq!(parse_health_state("nope"), None);
    assert_eq!(PkcTurnView::default().state, "disabled");
}

#[test]
fn discovery_exposes_consumer_and_purpose() {
    let d = discover_defaults([false; 3], String::new(), String::new(), vec![]);
    assert_eq!(d.consumer, "sammy");
    assert_eq!(d.purpose, PURPOSE);
    assert_eq!(d.notes.len(), 4);
    let found = discover_defaults([true, true, true], "/b.py".into(), "/root".into(), vec!["SRC-SHA256-x".into()]);
    assert!(found.notes.is_empty());
}

#[test]
fn discovery_picks_python_in_order() {
    assert_eq!(pick_python([false, false, false]), "");
    assert_eq!(pick_python([false, true, true]), "py");
    assert_eq!(pick_python([false, false, true]), "python3");
    assert_eq!(pick_python([true, false, true]), "python");
}

#[test]
fn discovery_picks_the_first_source_identity_under_a_root() {
    let strings: Vec<String> = vec!["creative".into(), "SRC-SHA256-aa".into(), "SRC-SHA256-bb".into()];
    assert_eq!(pick_source_id("/pkc", &strings), "SRC-SHA256-aa");
    assert_eq!(pick_source_id("", &strings), "");
    assert_eq!(pick_source_id("/pkc", &vec!["SRC-SHA1-x".into(), "src-sha256-y".into()]), "");
    let d = discover_defaults([false, false, true], String::new(), String::new(), strings);
    assert_eq!(d.python_executable, "python3");
    assert_eq!(d.source_id, "");
    assert_eq!(d.notes.len(), 3);
}

#[test]
fn cloud_bound_turn_never_consults_the_corpus() {
    let env = PkcEnvironment {
        python_ok: true,
        python_absolute: false,
        python_exists: false,
        bridge_absolute: true,
        bridge_is_file: true,
        root_absolute: false,
        root_is_dir: false,
    };
    let cfg = ProviderConfig {
        pkc_enabled: true,
        pkc_source_id: "SRC-SHA256-abc".into(),
        pkc_bridge_script: "/opt/pkc/bridge.py".into(),
        ..ProviderConfig::default()
    };
    let question = "What do you remember about my childhood home?";
    let o = finished(consult_for_turn(&cfg, question, &env, true));
    assert_eq!(o.state, PkcHealthState::CloudTurnSkipped);
    assert!(!o.used);
    assert_eq!(o.skip_reason, Some("cloud_bound"));
    assert!(authorized_payload_for_turn(o).is_none());
    match consult_for_turn(&cfg, question, &env, false) {
        PkcConsultStep::InvokeBridge { timeout_secs, .. } => assert_eq!(timeout_secs, 20),
        PkcConsultStep::Finished(_) => panic!("a local turn with a working gateway consults it"),
    }
}

#[test]
fn gateway_launch_checks_come_in_order() {
    assert_eq!(bridge_launch_check(false, true, true, false), Err(BridgeFailure::BridgeUnavailable));
    assert_eq!(bridge_launch_check(true, false, false, false), Err(BridgeFailure::BridgeUnavailable));
    assert_eq!(bridge_launch_check(true, true, true, false), Err(BridgeFailure::PythonUnavailable));
    assert_eq!(bridge_launch_check(true, true, false, false), Ok(()));
    assert_eq!(bridge_launch_check(true, true, true, true), Ok(()));
}

#[test]
fn gateway_request_names_its_purpose_and_source() {
    let mut cfg = sammy_lib::settings::ProviderConfig::default();
    cfg.pkc_source_id = "  SRC-SHA256-abc ".into();
    let f = bridge_request_fields(&cfg, "Where did I grow up?", "SAMMY-PKC-1");
    assert_eq!(f.len(), 13);
    let get = |k: &str| f.iter().find(|(key, _)| key == k).map(|(_, v)| v.clone()).unwrap();
    assert_eq!(get("source_id"), "SRC-SHA256-abc");
    assert_eq!(get("question"), "Where did I grow up?");
    assert_eq!(get("request_id"), "SAMMY-PKC-1");
    assert_eq!(get("operation"), "protected_retrieval");
    assert_eq!(get("consumer_application"), "sammy");
    assert_eq!(get("bridge_version"), "1.0.0");
    assert_eq!(get("consent_state"), "standing_authorization");
}

#[test]
fn reply_fields_are_read_from_the_raw_text() {
    assert!(matches!(sanitize_reply(None), Err(BridgeFailure::Malformed)));
    let fields = BridgeResponse {
        bridge_version: Some("1.0.0".into()),
        ok: Some(true),
        available: Some(true),
        payload: Some(BridgePayload {
            authorized: Some(true),
            canonical_hash_verified: Some(true),
            protected_content_materialized: Some(true),
            natural_answer: Some("The family moved often.".into()),
            conversational_context: None,
        }),
    };
    let from_fields = sanitize_reply(Some(fields)).expect("authorized fields");
    let from_text = parse_sanitized(&authorized_json("The family moved often.")).expect("authorized text");
    assert_eq!(from_fields.model_safe_text, from_text.model_safe_text);
    assert_eq!(from_fields.payload_sha256, from_text.payload_sha256);
    // A field of the wrong JSON type is not read.
    assert!(matches!(
        parse_sanitized(r#"{"bridge_version":"1.0.0","ok":"yes","available":true,"payload":{}}"#),
        Err(BridgeFailure::Unavailable)
    ));
    assert!(matches!(parse_sanitized("[1,2]"), Err(BridgeFailure::Malformed)));
}

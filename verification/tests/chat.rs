use sammy_lib::chat::{
    cloud_bound, kobold_in_roster, no_provider_error, provider_call_action, provider_for_turn, provider_messages,
    local_roster, reachable_flags, resolve_model, retrieval_filter, retrieved_line, venice_in_roster, LocalSlot,
};
use sammy_lib::conversation::{Message, Role};
use sammy_lib::error::AppError;
use sammy_lib::providers::{resolve_routing, ChatResponse, RoutingDecision, RoutingMode};
use sammy_lib::retrieval::{select_hits, RetrievalRequest, SensitivityFilter};
use sammy_lib::settings::{pkc_identity_changed, ProviderConfig};

fn msg(role: &str, content: &str) -> Message {
    Message {
        message_id: "m".into(),
        conversation_id: "c".into(),
        role: role.into(),
        content: content.into(),
        created_at: "t".into(),
        seq: 0,
    }
}

#[test]
fn resolve_model_uses_configured_default_when_empty() {
    let config = ProviderConfig { koboldcpp_model: "configured-model".into(), ..ProviderConfig::default() };
    assert_eq!(resolve_model(&config, ""), "configured-model");
    assert_eq!(resolve_model(&config, "explicit-model"), "explicit-model");
}

#[test]
fn from_config_without_koboldcpp_is_mock_only() {
    assert!(!kobold_in_roster(&ProviderConfig::default()));
    let ids: Vec<&str> = local_roster(&ProviderConfig::default()).into_iter().map(LocalSlot::id).collect();
    assert_eq!(ids, vec!["mock"]);
}

#[test]
fn from_config_with_disabled_koboldcpp_is_mock_only() {
    let config = ProviderConfig { koboldcpp_endpoint: "http://localhost:5001".into(), koboldcpp_enabled: false, ..ProviderConfig::default() };
    assert!(!kobold_in_roster(&config));
    assert_eq!(local_roster(&config), vec![LocalSlot::Mock]);
}

#[test]
fn from_config_with_enabled_koboldcpp_puts_it_first() {
    let config = ProviderConfig { koboldcpp_endpoint: "http://localhost:5001".into(), koboldcpp_enabled: true, ..ProviderConfig::default() };
    assert!(kobold_in_roster(&config));
    let roster = local_roster(&config);
    assert_eq!(roster.len(), 2);
    assert_eq!(roster[0].id(), "koboldcpp");
    assert_eq!(roster[1].id(), "mock");
}

#[test]
fn from_config_adds_venice_only_when_enabled_with_key() {
    let config = ProviderConfig { venice_enabled: true, venice_model: "venice-1".into(), ..ProviderConfig::default() };
    assert!(!venice_in_roster(&config, &None));
    assert!(venice_in_roster(&config, &Some("key".into())));
    assert!(!venice_in_roster(&config, &Some(String::new())));
}

#[test]
fn from_config_with_empty_endpoint_is_mock_only() {
    let config = ProviderConfig { koboldcpp_endpoint: String::new(), koboldcpp_enabled: true, ..ProviderConfig::default() };
    assert!(!kobold_in_roster(&config));
}

#[test]
fn local_only_turn_is_never_cloud_bound() {
    assert!(!cloud_bound(RoutingMode::LocalOnly, &[false], &[true]));
    assert!(cloud_bound(RoutingMode::CloudOnly, &[], &[]));
    assert!(cloud_bound(RoutingMode::PreferLocal, &[false], &[true]));
    assert!(!cloud_bound(RoutingMode::AskBeforeCrossing, &[true], &[true]));
    assert!(cloud_bound(RoutingMode::PreferCloud, &[true], &[true]));
    assert_eq!(retrieval_filter(true), SensitivityFilter::ExcludeLocalOnly);
    assert_eq!(retrieval_filter(false), SensitivityFilter::All);
}

#[test]
fn cloud_crossing_with_denial_records_no_transmission() {
    let d = RoutingDecision::NeedsCloudConsent { provider_index: 1 };
    match provider_for_turn(d, RoutingMode::PreferCloud, false) {
        Err(AppError::Config(m)) => assert_eq!(m, "cloud crossing denied by owner; no transmission occurred"),
        _ => panic!("expected a refusal"),
    }
    assert_eq!(provider_for_turn(d, RoutingMode::PreferCloud, true).unwrap(), 1);
    assert_eq!(provider_for_turn(RoutingDecision::Use { provider_index: 0 }, RoutingMode::LocalOnly, false).unwrap(), 0);
}

#[test]
fn no_provider_returns_error() {
    match provider_for_turn(RoutingDecision::NoProvider, RoutingMode::LocalOnly, true) {
        Err(AppError::Config(m)) => assert_eq!(m, "no provider satisfies routing mode 'local_only'"),
        _ => panic!("expected an error"),
    }
    assert!(matches!(no_provider_error(RoutingMode::CloudOnly), AppError::Config(_)));
}

#[test]
fn history_drops_system_messages_and_defaults_unknown_roles() {
    let history = vec![msg("system", "s"), msg("user", "hi"), msg("assistant", "hello"), msg("odd", "?")];
    let out = provider_messages(&history);
    assert_eq!(out.len(), 3);
    assert_eq!(out[0].role, Role::User);
    assert_eq!(out[1].role, Role::Assistant);
    assert_eq!(out[2].role, Role::User);
    assert_eq!(out[2].content, "?");
}

#[test]
fn retrieved_lines_name_the_record() {
    assert_eq!(retrieved_line("r1", "The sky is blue."), "[record:r1] The sky is blue.");
}

#[test]
fn reachability_defaults_to_unreachable() {
    assert_eq!(reachable_flags(3, &[true]), vec![true, false, false]);
    assert!(reachable_flags(0, &[true]).is_empty());
}

#[test]
fn local_only_audits_local_call() {
    let r = ChatResponse { content: "x".into(), provider: "mock".into(), model: "m".into(), crossed_to_cloud: false, usage: None };
    assert_eq!(provider_call_action(&r), "provider_local_call");
    let c = ChatResponse { crossed_to_cloud: true, ..r };
    assert_eq!(provider_call_action(&c), "provider_cloud_call");
}

#[test]
fn retrieve_applies_context_budget() {
    let ids = vec!["a".to_string(), "b".to_string(), "a".to_string(), "c".to_string()];
    let lens = vec![10usize, 20, 5, 30];
    assert_eq!(select_hits(&ids, &lens, 100, 10), vec![0, 1, 3]);
    assert_eq!(select_hits(&ids, &lens, 35, 10), vec![0, 1]);
    assert_eq!(select_hits(&ids, &lens, 100, 2), vec![0, 1]);
    assert!(select_hits(&ids, &lens, 5, 10).is_empty());
}

#[test]
fn retrieval_request_defaults() {
    let r = RetrievalRequest::default();
    assert_eq!(r.limit, 10);
    assert_eq!(r.context_budget_chars, 4000);
    assert_eq!(r.sensitivity, SensitivityFilter::All);
    assert!(r.query.is_empty());
}

#[test]
fn pkc_identity_change_ignores_whitespace() {
    let a = ProviderConfig { pkc_source_id: "SRC".into(), ..ProviderConfig::default() };
    let b = ProviderConfig { pkc_source_id: " SRC ".into(), ..ProviderConfig::default() };
    let c = ProviderConfig { pkc_source_id: "OTHER".into(), ..ProviderConfig::default() };
    assert!(!pkc_identity_changed(&a, &b));
    assert!(pkc_identity_changed(&a, &c));
}

#[test]
fn default_config_is_off_with_venice_endpoint() {
    let c = ProviderConfig::default();
    assert_eq!(c.venice_endpoint, "https://api.venice.ai/api/v1");
    assert!(!c.pkc_enabled && !c.koboldcpp_enabled && !c.venice_enabled);
    assert_eq!(sammy_lib::settings::default_venice_endpoint(), "https://api.venice.ai/api/v1");
}

#[test]
fn cloud_bound_agrees_with_where_routing_sends_the_turn() {
    let up = [true];
    let down = [false];
    assert!(!cloud_bound(RoutingMode::PreferLocal, &up, &up));
    assert_eq!(resolve_routing(RoutingMode::PreferLocal, 1, 1, &up, &up), RoutingDecision::Use { provider_index: 0 });
    assert!(cloud_bound(RoutingMode::PreferLocal, &down, &up));
    assert_eq!(
        resolve_routing(RoutingMode::PreferLocal, 1, 1, &down, &up),
        RoutingDecision::NeedsCloudConsent { provider_index: 1 }
    );
    assert!(cloud_bound(RoutingMode::PreferCloud, &up, &up));
    assert_eq!(
        resolve_routing(RoutingMode::PreferCloud, 1, 1, &up, &up),
        RoutingDecision::NeedsCloudConsent { provider_index: 1 }
    );
    assert!(!cloud_bound(RoutingMode::PreferCloud, &up, &down));
    assert_eq!(resolve_routing(RoutingMode::PreferCloud, 1, 1, &up, &down), RoutingDecision::Use { provider_index: 0 });
    assert!(!cloud_bound(RoutingMode::AskBeforeCrossing, &down, &down));
    assert_eq!(resolve_routing(RoutingMode::AskBeforeCrossing, 1, 1, &down, &down), RoutingDecision::NoProvider);
}

#[test]
fn cloud_consent_request_and_its_audit_action() {
    let c = sammy_lib::chat::consent_request("venice", "Venice", "m-1", RoutingMode::PreferLocal, 42);
    assert_eq!((c.provider_id.as_str(), c.provider_display_name.as_str(), c.model.as_str()), ("venice", "Venice", "m-1"));
    assert_eq!(c.routing_mode, "prefer_local");
    assert_eq!(c.estimated_prompt_tokens, 42);
    let reported = sammy_lib::chat::reported_consent(c);
    assert_eq!(reported.estimated_prompt_tokens, 0);
    assert_eq!(reported.provider_id, "venice");
    assert_eq!(sammy_lib::chat::consent_action(true), "cloud_crossing_approved");
    assert_eq!(sammy_lib::chat::consent_action(false), "cloud_crossing_denied");
}

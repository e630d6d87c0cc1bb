use sammy_lib::conversation::Role;
use sammy_lib::providers::{
    estimate_tokens_of, resolve_routing, v1_url, ChatRequest, MockProvider, Provider, ProviderLocality,
    ProviderMessage, RoutingDecision, RoutingMode, TokenUsage,
};

fn req() -> ChatRequest {
    ChatRequest {
        system: "be brief".into(),
        messages: vec![ProviderMessage { role: Role::User, content: "hello".into() }],
        model: "mock-1".into(),
        max_tokens: 64,
        routing: RoutingMode::LocalOnly,
    }
}

#[test]
fn mock_provider_is_deterministic() {
    let p = MockProvider::fixed("hi");
    let r1 = p.chat(&req()).unwrap();
    let r2 = p.chat(&req()).unwrap();
    assert_eq!(r1.content, "hi");
    assert_eq!(r1.content, r2.content);
    assert_eq!(r1.provider, "mock");
    assert!(!r1.crossed_to_cloud);
}

#[test]
fn mock_provider_echo_mode() {
    let p = MockProvider::echo();
    let r = p.chat(&req()).unwrap();
    assert!(r.content.contains("hello"));
    assert_eq!(r.content, "[mock echo] hello");
}

#[test]
fn mock_echo_uses_the_last_user_message() {
    let p = MockProvider::echo();
    let mut r = req();
    r.messages.push(ProviderMessage { role: Role::User, content: "second".into() });
    r.messages.push(ProviderMessage { role: Role::Assistant, content: "reply".into() });
    assert_eq!(p.chat(&r).unwrap().content, "[mock echo] second");
    r.messages.clear();
    assert_eq!(p.chat(&r).unwrap().content, "[mock echo] ");
}

#[test]
fn mock_provider_lists_models() {
    let p = MockProvider::fixed("hi");
    assert_eq!(p.list_models().unwrap(), vec!["mock-1".to_string()]);
    assert!(p.test_connection().is_ok());
    assert_eq!(p.info().id, "mock");
    assert_eq!(p.info().locality, ProviderLocality::Local);
}

#[test]
fn mock_usage_is_a_quarter_of_the_characters() {
    let p = MockProvider::fixed("abcdefghi");
    let usage = p.chat(&req()).unwrap().usage.unwrap();
    assert_eq!(usage.prompt_tokens, 2);
    assert_eq!(usage.completion_tokens, 2);
    assert_eq!(estimate_tokens_of("é€😀x"), 1);
    let d = TokenUsage::default();
    assert_eq!((d.prompt_tokens, d.completion_tokens), (0, 0));
}

#[test]
fn routing_local_only_with_local_available_uses_local() {
    let d = resolve_routing(RoutingMode::LocalOnly, 1, 1, &[true], &[true]);
    assert_eq!(d, RoutingDecision::Use { provider_index: 0 });
}

#[test]
fn routing_local_only_without_local_is_no_provider() {
    let d = resolve_routing(RoutingMode::LocalOnly, 0, 1, &[], &[true]);
    assert_eq!(d, RoutingDecision::NoProvider);
}

#[test]
fn routing_cloud_only_uses_cloud_index_offset() {
    let d = resolve_routing(RoutingMode::CloudOnly, 2, 1, &[true], &[true]);
    assert_eq!(d, RoutingDecision::Use { provider_index: 2 });
}

#[test]
fn routing_prefer_local_falls_back_to_cloud_consent() {
    let d = resolve_routing(RoutingMode::PreferLocal, 1, 1, &[false], &[true]);
    assert_eq!(d, RoutingDecision::NeedsCloudConsent { provider_index: 1 });
}

#[test]
fn routing_ask_before_crossing_uses_local_without_asking() {
    let d = resolve_routing(RoutingMode::AskBeforeCrossing, 1, 1, &[true], &[true]);
    assert_eq!(d, RoutingDecision::Use { provider_index: 0 });
}

#[test]
fn routing_ask_before_crossing_needs_consent_when_only_cloud() {
    let d = resolve_routing(RoutingMode::AskBeforeCrossing, 1, 1, &[false], &[true]);
    assert_eq!(d, RoutingDecision::NeedsCloudConsent { provider_index: 1 });
}

#[test]
fn routing_prefer_cloud_asks_consent_when_cloud_available() {
    let d = resolve_routing(RoutingMode::PreferCloud, 1, 1, &[true], &[true]);
    assert_eq!(d, RoutingDecision::NeedsCloudConsent { provider_index: 1 });
}

#[test]
fn routing_no_providers_anywhere_is_no_provider() {
    let d = resolve_routing(RoutingMode::PreferLocal, 0, 0, &[], &[]);
    assert_eq!(d, RoutingDecision::NoProvider);
}

#[test]
fn routing_picks_the_first_reachable_and_ignores_missing_flags() {
    let d = resolve_routing(RoutingMode::LocalOnly, 3, 0, &[false, true, true], &[]);
    assert_eq!(d, RoutingDecision::Use { provider_index: 1 });
    let d = resolve_routing(RoutingMode::LocalOnly, 3, 0, &[false], &[]);
    assert_eq!(d, RoutingDecision::NoProvider);
    let d = resolve_routing(RoutingMode::PreferCloud, 1, 2, &[true], &[false, false]);
    assert_eq!(d, RoutingDecision::Use { provider_index: 0 });
}

#[test]
fn routing_mode_default_is_ask_before_crossing() {
    assert_eq!(RoutingMode::default(), RoutingMode::AskBeforeCrossing);
    assert_eq!(RoutingMode::DEFAULT, RoutingMode::AskBeforeCrossing);
    assert_eq!(RoutingMode::AskBeforeCrossing.as_str(), "ask_before_crossing");
}

#[test]
fn http_transport_normalizes_trailing_slash() {
    let url1 = v1_url("http://localhost:5001", "/models");
    let url2 = v1_url("http://localhost:5001/", "/models");
    assert_eq!(url1, "http://localhost:5001/v1/models");
    assert_eq!(url1, url2);
    assert_eq!(v1_url("http://h//", "/chat/completions"), "http://h/v1/chat/completions");
}

#[test]
fn chat_reply_text_is_taken_from_the_first_choice() {
    let raw = r#"{"choices":[{"message":{"role":"assistant","content":"Hello there"}}]}"#;
    assert_eq!(sammy_lib::providers::reply_content(raw, "koboldcpp").unwrap(), "Hello there");
    match sammy_lib::providers::reply_content(r#"{"choices":[]}"#, "koboldcpp") {
        Err(sammy_lib::error::AppError::Config(m)) => assert_eq!(m, "koboldcpp missing content"),
        other => panic!("unexpected: {:?}", other),
    }
    match sammy_lib::providers::reply_content("not json", "venice") {
        Err(sammy_lib::error::AppError::Config(m)) => assert!(m.starts_with("venice bad response: ")),
        other => panic!("unexpected: {:?}", other),
    }
}

#[test]
fn forbidden_silent_cloud_fallback() {
    let d = resolve_routing(RoutingMode::AskBeforeCrossing, 1, 1, &[true], &[true]);
    assert!(matches!(d, RoutingDecision::Use { provider_index: 0 }));

    let d2 = resolve_routing(RoutingMode::AskBeforeCrossing, 0, 1, &[], &[true]);
    assert!(matches!(d2, RoutingDecision::NeedsCloudConsent { .. }));

    let d3 = resolve_routing(RoutingMode::LocalOnly, 0, 1, &[], &[true]);
    assert_eq!(d3, RoutingDecision::NoProvider);
}

use sammy_lib::permissions::{first_live_grant, is_live_grant};
use sammy_lib::permissions::{mode_as_str, PermissionMode, Reversibility, RiskLevel};
use sammy_lib::tools::{find, registry};

#[test]
fn registry_has_five_tools() {
    let r = registry();
    assert_eq!(r.len(), 5);
}

#[test]
fn all_tools_declare_no_real_external_action() {
    for t in registry() {
        assert!(
            matches!(t.risk, RiskLevel::ReadOnly | RiskLevel::DraftOnly | RiskLevel::MutatesExternal),
            "{} has unexpected risk",
            t.tool_id
        );
        if t.risk == RiskLevel::MutatesExternal {
            assert!(t.data_leaving_device.contains("mock") || t.operation.contains("Mock"));
        }
    }
}

#[test]
fn find_returns_declaration() {
    let t = find("source_search").unwrap();
    assert_eq!(t.tool_id, "source_search");
    assert!(find("nonexistent").is_none());
}

#[test]
fn the_mock_is_the_only_irreversible_tool() {
    let t = find("mock_external").unwrap();
    assert_eq!(t.reversibility, Reversibility::Irreversible);
    assert_eq!(t.risk.as_str(), "mutates_external");
    let ids: Vec<String> = registry().into_iter().map(|t| t.tool_id).collect();
    assert_eq!(ids, vec!["source_search", "corpus_lookup", "draft_generation", "planning", "mock_external"]);
}

#[test]
fn permission_modes_have_stable_names() {
    assert_eq!(mode_as_str(PermissionMode::AllowSession), "allow_session");
    assert_eq!(mode_as_str(PermissionMode::AlwaysDeny), "always_deny");
    assert_eq!(mode_as_str(PermissionMode::AllowScoped), "allow_scoped");
}

#[test]
fn only_live_grants_permit_a_tool() {
    let now = "2026-01-02T00:00:00+00:00";
    assert!(is_live_grant(false, &None, now));
    assert!(!is_live_grant(true, &None, now));
    assert!(!is_live_grant(false, &Some("2026-01-01T00:00:00+00:00".into()), now));
    assert!(!is_live_grant(false, &Some(now.into()), now));
    assert!(is_live_grant(false, &Some("2026-01-03T00:00:00+00:00".into()), now));
    assert_eq!(first_live_grant(&vec![], now), None);
    let rows = vec![
        (true, None),
        (false, Some("2025-12-31T00:00:00+00:00".to_string())),
        (false, Some("2026-02-01T00:00:00+00:00".to_string())),
        (false, None),
    ];
    assert_eq!(first_live_grant(&rows, now), Some(2));
    assert_eq!(first_live_grant(&rows[..2].to_vec(), now), None);
}

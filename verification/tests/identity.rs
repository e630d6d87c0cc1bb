use sammy_lib::identity::{format_identity, CompanionIdentity, PromptAssembly};

#[test]
fn default_identity_is_sensible() {
    let id = CompanionIdentity::default_new();
    assert_eq!(id.companion_name, "Sammy");
    assert!(!id.core_principles.is_empty());
    assert!(!id.boundaries.is_empty());
    assert_eq!(id.version, 1);
    assert_eq!(id.version_history.len(), 1);
}

#[test]
fn record_edit_bumps_version_and_history() {
    let mut id = CompanionIdentity::default_new();
    id.record_edit("changed tone");
    assert_eq!(id.version, 2);
    assert_eq!(id.version_history.len(), 2);
    assert_eq!(id.version_history[1].summary, "changed tone");
}

#[test]
fn record_edit_saturates_the_version() {
    let mut id = CompanionIdentity::default_new();
    id.version = u32::MAX;
    id.record_edit("again");
    assert_eq!(id.version, u32::MAX);
    assert_eq!(id.version_history[1].version, u32::MAX);
}

#[test]
fn prompt_assembly_has_sections_in_order() {
    let id = CompanionIdentity::default_new();
    let pa = PromptAssembly::new(&id, "ask_before_crossing", &["source_search"], &[]);
    let ids: Vec<&str> = pa.sections.iter().map(|s| s.id.as_str()).collect();
    assert_eq!(
        ids,
        vec!["security", "vault", "identity", "preferences", "knowledge", "grounding", "routing", "tools", "citations"]
    );
}

#[test]
fn prompt_assembly_never_contains_secrets() {
    let id = CompanionIdentity::default_new();
    let pa = PromptAssembly::new(&id, "local_only", &[], &[]);
    let rendered = pa.render_system();
    assert!(!rendered.contains("DEK"));
    assert!(!rendered.contains("passphrase"));
    assert!(!rendered.contains("vault key"));
    assert!(rendered.contains("Do not introduce concrete sensory details"));
    assert!(rendered.contains("SOURCE-BACKED FACTS"));
}

#[test]
fn prompt_assembly_includes_retrieved_knowledge() {
    let id = CompanionIdentity::default_new();
    let pa = PromptAssembly::new(&id, "local_only", &[], &["The sky is blue. [rec-1]".to_string()]);
    let knowledge = pa.sections.iter().find(|s| s.id == "knowledge").unwrap();
    assert!(knowledge.body.contains("The sky is blue"));
}

#[test]
fn prompt_sections_exact_bodies() {
    let mut id = CompanionIdentity::default_new();
    id.user_communication_preferences = vec!["Short answers.".into(), "No emoji.".into()];
    let pa = PromptAssembly::new(&id, "local_only", &["a", "b"], &["k1".to_string(), "k2".to_string()]);
    assert_eq!(pa.sections[2].title, "Companion identity — Sammy");
    assert_eq!(pa.sections[3].body, "Short answers.\nNo emoji.");
    assert_eq!(pa.sections[4].body, "k1\n---\nk2");
    assert!(pa.sections[6].body.starts_with("Current routing mode: local_only. "));
    assert_eq!(pa.sections[7].body, "Available tools (read-only / draft only, no external execution):\na\nb");
    let rendered = pa.render_system();
    assert!(rendered.starts_with("## Application security rules\n"));
    assert!(rendered.contains("\n\n## Vault rules\n"));
}

#[test]
fn identity_text_lists_only_non_empty_sections() {
    let id = CompanionIdentity::default_new();
    let t = format_identity(&id);
    assert!(t.starts_with("Name: Sammy\nRole: Personal consigliere\nCore principles:\n- Be honest"));
    assert!(t.ends_with("Uncertainty: Say 'I don't know' rather than guess, and offer to find a source.\n"));
    assert!(!t.contains("Preferences"));
}

#[test]
fn inspection_view_reports_lengths_not_bodies() {
    let id = CompanionIdentity::default_new();
    let pa = PromptAssembly::new(&id, "local_only", &[], &[]);
    let view = pa.inspection_view();
    assert!(view.iter().all(|s| s.body_chars > 0));
    assert_eq!(view.len(), pa.sections.len());
    assert_eq!(view[0].body_chars as usize, pa.sections[0].body.chars().count());
}

use sammy_lib::error::AppError;
use sammy_lib::knowledge::{RecordStatus, RecordType, Sensitivity};
use sammy_lib::memory::{
    approval_sensitivity, approval_source_ids, check_keep_statement, created_keep, duplicate_keep, duplicate_keep_of,
    first_with_same_text, keep_reason, keep_step, normalize_text, origin_conversation, owner_edited, parse_epistemic_class,
    record_type_for_class, require_grounded_answer, CandidateState, DuplicateKind, KeepStep,
};

#[test]
fn malformed_keep_text_is_rejected() {
    match check_keep_statement("   ", "stored_fact") {
        Err(AppError::Config(m)) => assert_eq!(m, "Write the statement you want to review before adding it."),
        _ => panic!("expected a refusal"),
    }
    let long = "x".repeat(2001);
    assert!(matches!(check_keep_statement(&long, "fact"), Err(AppError::Config(_))));
    assert!(matches!(check_keep_statement("CSDP-1 said so", "fact"), Err(AppError::Config(_))));
    assert!(matches!(check_keep_statement("ok", "opinion"), Err(AppError::Config(_))));
}

#[test]
fn keep_statement_is_normalized_and_classed() {
    let (text, class) = check_keep_statement("  I  grew up\n in  Gloucester ", " fact ").unwrap();
    assert_eq!(text, "I grew up in Gloucester");
    assert_eq!(class, "stored_fact");
    assert_eq!(keep_reason("testimony"), "Owner asked to review something they previously described.");
    assert_eq!(keep_reason("stored_fact"), "Owner asked to review stored personal knowledge from PKC.");
}

#[test]
fn normalize_collapses_whitespace() {
    assert_eq!(normalize_text("a\t b\n\nc"), "a b c");
    assert_eq!(normalize_text("   "), "");
    assert!(!owner_edited("a  b", "a b"));
    assert!(owner_edited("a b", "a c"));
}

#[test]
fn epistemic_classes_map_to_record_types() {
    assert_eq!(parse_epistemic_class("fact"), Some("stored_fact"));
    assert_eq!(parse_epistemic_class(" testimony "), Some("testimony"));
    assert_eq!(parse_epistemic_class("guess"), None);
    assert_eq!(record_type_for_class(Some("testimony")), RecordType::Quote);
    assert_eq!(record_type_for_class(Some("inference")), RecordType::Conclusion);
    assert_eq!(record_type_for_class(None), RecordType::Fact);
}

#[test]
fn inference_approval_does_not_become_fact() {
    assert_eq!(record_type_for_class(parse_epistemic_class("inference")), RecordType::Conclusion);
}

#[test]
fn pkc_approvals_stay_local() {
    assert_eq!(approval_sensitivity("external_pkc"), Sensitivity::LocalOnly);
    assert_eq!(approval_sensitivity("conversation"), Sensitivity::Normal);
    assert_eq!(approval_source_ids(&Some("SRC".into())), vec!["SRC".to_string()]);
    assert!(approval_source_ids(&Some("  ".into())).is_empty());
    assert!(approval_source_ids(&None).is_empty());
}

#[test]
fn keep_results_say_what_happened() {
    let d = duplicate_keep("k1".into(), true);
    assert!(!d.created && d.duplicate && d.already_durable);
    let c = created_keep("c1".into(), Some("r9".into()));
    assert!(c.created && !c.duplicate);
    assert_eq!(c.conflict_record_id.as_deref(), Some("r9"));
}

#[test]
fn only_approved_candidates_are_retrievable() {
    assert!(CandidateState::Approved.is_retrievable());
    assert!(!CandidateState::Pending.is_retrievable());
    assert_eq!(CandidateState::parse("deferred"), Some(CandidateState::Deferred));
    assert_eq!(origin_conversation(), "conversation");
}

#[test]
fn knowledge_enums_round_trip() {
    assert_eq!(RecordStatus::parse(RecordStatus::Approved.as_str()), Some(RecordStatus::Approved));
    assert!(RecordStatus::Approved.is_current());
    assert_eq!(Sensitivity::parse("local_only"), Some(Sensitivity::LocalOnly));
    assert_eq!(RecordType::parse(RecordType::Quote.as_str()), Some(RecordType::Quote));
}

#[test]
fn conflict_needs_the_same_source_and_different_text() {
    let ids = r#"["SRC-SHA256-abc"]"#;
    assert!(sammy_lib::memory::conflicts_with(ids, "SRC-SHA256-abc", "Dave grew up in Ohio.", "Dave grew up in Iowa."));
    assert!(!sammy_lib::memory::conflicts_with(ids, "SRC-SHA256-abc", "Dave  grew up\tin Ohio.", "Dave grew up in Ohio."));
    assert!(!sammy_lib::memory::conflicts_with(ids, "SRC-SHA256-xyz", "Dave grew up in Ohio.", "Dave grew up in Iowa."));
}

#[test]
fn keep_requires_an_answer_that_used_personal_knowledge() {
    assert!(require_grounded_answer(Some(true)).is_ok());
    for p in [None, Some(false)] {
        match require_grounded_answer(p) {
            Err(AppError::Config(m)) => assert_eq!(m, "This answer did not use personal knowledge."),
            _ => panic!("an ungrounded answer must not be kept"),
        }
    }
}

#[test]
fn keep_duplicates_are_found_in_order() {
    let s = |x: &str| Some(x.to_string());
    match keep_step(s("c1"), s("k1"), s("c2")) {
        KeepStep::Duplicate(id, k) => {
            assert_eq!(id, "c1");
            assert_eq!(k, DuplicateKind::PendingForMessage);
            assert_eq!(k.reason(), "pending_for_message");
        }
        KeepStep::Create => panic!("expected a duplicate"),
    }
    match keep_step(None, s("k1"), s("c2")) {
        KeepStep::Duplicate(id, k) => {
            assert_eq!(id, "k1");
            assert_eq!(k.reason(), "already_durable");
            let r = duplicate_keep_of(id, k);
            assert!(r.duplicate && r.already_durable && !r.created);
        }
        KeepStep::Create => panic!("expected a duplicate"),
    }
    match keep_step(None, None, s("c2")) {
        KeepStep::Duplicate(id, k) => {
            assert_eq!((id.as_str(), k.reason()), ("c2", "pending_same_text"));
            assert!(!duplicate_keep_of(id, k).already_durable);
        }
        KeepStep::Create => panic!("expected a duplicate"),
    }
    assert!(matches!(keep_step(None, None, None), KeepStep::Create));
}

#[test]
fn a_kept_statement_is_found_by_its_normalized_text() {
    let entries: Vec<(String, String)> = vec![
        ("c1".into(), "Something else".into()),
        ("c2".into(), "  The   family\tmoved  often ".into()),
        ("c3".into(), "The family moved often".into()),
    ];
    assert_eq!(first_with_same_text(&entries, "The family moved often"), Some("c2".to_string()));
    assert_eq!(first_with_same_text(&entries, "the family moved often"), None);
    assert_eq!(first_with_same_text(&Vec::new(), "x"), None);
}

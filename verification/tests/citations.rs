use sammy_lib::citations::{AnnotatedAnswer, Citation, CitationLocation, ClaimBlock, ClaimLabel, TrustClassification};
use sammy_lib::conversation::Role;
use sammy_lib::retrieval::{assemble_answer, GroundingHit};

#[test]
fn inference_answer_has_no_citations() {
    let a = AnnotatedAnswer::inference("a guess");
    assert_eq!(a.trust, TrustClassification::Inference);
    assert!(a.citations.is_empty());
}

#[test]
fn unknown_answer_is_honest() {
    let a = AnnotatedAnswer::unknown();
    assert_eq!(a.trust, TrustClassification::Unknown);
    assert!(a.plain_text.to_lowercase().contains("don't know"));
}

#[test]
fn citations_consistency_detects_fabricated_id() {
    let a = AnnotatedAnswer {
        plain_text: "x".into(),
        trust: TrustClassification::SourceSupported,
        citations: vec![Citation {
            id: "c1".into(),
            location: CitationLocation::KnowledgeRecord { record_id: "r1".into() },
            snippet: "...".into(),
        }],
        claims: vec![ClaimBlock { text: "claim".into(), label: ClaimLabel::StoredFact, citations: vec!["c1".into()] }],
    };
    assert!(a.citations_are_consistent());

    let bad = AnnotatedAnswer {
        plain_text: "x".into(),
        trust: TrustClassification::SourceSupported,
        citations: vec![],
        claims: vec![ClaimBlock { text: "claim".into(), label: ClaimLabel::StoredFact, citations: vec!["c1".into()] }],
    };
    assert!(!bad.citations_are_consistent());
}

#[test]
fn trust_and_label_names() {
    assert_eq!(TrustClassification::SourceSupported.as_str(), "source_supported");
    assert_eq!(TrustClassification::MixedSourceAndInference.as_str(), "mixed_source_and_inference");
    assert_eq!(ClaimLabel::ApprovedConclusion.as_str(), "approved_conclusion");
    assert_eq!(ClaimLabel::Uncertain.as_str(), "uncertain");
}

#[test]
fn assemble_answer_grounded_when_hits_exist() {
    let hits = vec![
        GroundingHit { record_id: "r1".into(), snippet: "The sky is blue.".into() },
        GroundingHit { record_id: "r2".into(), snippet: "Grass is green.".into() },
    ];
    let a = assemble_answer("Colours.", &hits);
    assert_eq!(a.trust, TrustClassification::SourceSupported);
    assert_eq!(a.citations.len(), 2);
    assert_eq!(a.citations[1].id, "cite-1");
    assert_eq!(a.claims[0].citations, vec!["cite-0".to_string(), "cite-1".to_string()]);
    assert!(a.citations_are_consistent());
}

#[test]
fn assemble_answer_inference_when_no_hits() {
    let a = assemble_answer("I think so.", &[]);
    assert_eq!(a.trust, TrustClassification::Inference);
    assert!(a.citations.is_empty());
    assert!(a.citations_are_consistent());
}

#[test]
fn role_round_trips() {
    for r in [Role::System, Role::User, Role::Assistant, Role::Tool] {
        assert_eq!(Role::parse(r.as_str()), Some(r));
    }
    assert_eq!(Role::parse("nope"), None);
}

#[test]
fn forbidden_fake_citation_ids() {
    let a = AnnotatedAnswer {
        plain_text: "claim".into(),
        trust: TrustClassification::SourceSupported,
        citations: vec![Citation {
            id: "real-cite".into(),
            location: CitationLocation::KnowledgeRecord { record_id: "r1".into() },
            snippet: "...".into(),
        }],
        claims: vec![ClaimBlock {
            text: "claim".into(),
            label: ClaimLabel::StoredFact,
            citations: vec!["fake-cite".into()],
        }],
    };
    assert!(!a.citations_are_consistent(), "fabricated citation IDs must be detected");
}

use sammy_lib::grounding::{leaks_pkc_bookkeeping, presents_unsupported_concrete_scene, GROUNDING_RULES};

const EVIDENCE: &str = "Dave grew up in Gloucester Township. The family moved often.";
const USER: &str = "I remember the house more than any one room.";
const DOORWAY: &str = "The way the light shifted as you moved through that narrow doorway sounds like a very specific moment.";

#[test]
fn doorway_light_follow_up_is_unsupported_without_evidence() {
    assert!(presents_unsupported_concrete_scene(DOORWAY, EVIDENCE, USER));
}

#[test]
fn doorway_is_allowed_when_user_said_it() {
    assert!(!presents_unsupported_concrete_scene(
        DOORWAY,
        EVIDENCE,
        "I moved through that narrow doorway and the light shifted.",
    ));
}

#[test]
fn doorway_is_allowed_when_evidence_contains_it() {
    assert!(!presents_unsupported_concrete_scene(
        DOORWAY,
        "He paused in the narrow doorway as the light shifted.",
        USER,
    ));
}

#[test]
fn open_question_is_not_flagged() {
    assert!(!presents_unsupported_concrete_scene("What detail from that house stays with you?", EVIDENCE, USER));
}

#[test]
fn invented_details_are_flagged_by_category() {
    let invented = [
        ("lighting", "The dim amber glow in that kitchen is still with you."),
        ("room", "The hallway turned left into the parlor before you spoke."),
        ("weather", "It was raining that afternoon when you arrived."),
        ("position", "You were standing by the stove as you said that."),
        ("face", "I can still see the tightness around your father's jaw."),
        ("sound", "The screen door slammed behind you."),
        ("smell", "The smell of oil heat filled the house."),
        ("sequence", "First you unpacked, then you sat on the stairs."),
    ];
    for (category, model) in invented {
        assert!(presents_unsupported_concrete_scene(model, EVIDENCE, USER), "{category}");
    }
}

#[test]
fn open_questions_are_not_invented_facts() {
    for question in [
        "What was the weather like?",
        "Where were you standing?",
        "Do you remember any smells?",
        "What happened first?",
    ] {
        assert!(!presents_unsupported_concrete_scene(question, EVIDENCE, USER), "{question}");
    }
}

#[test]
fn sparse_evidence_does_not_license_invented_scene() {
    const SPARSE: &str = "The family moved often.";
    assert!(presents_unsupported_concrete_scene(DOORWAY, SPARSE, USER));
    assert!(!presents_unsupported_concrete_scene(
        "That suggests the moves mattered, though the stored record is brief.",
        SPARSE,
        USER,
    ));
}

#[test]
fn scene_check_ignores_case() {
    assert!(presents_unsupported_concrete_scene("THE SCREEN DOOR SLAMMED.", EVIDENCE, USER));
    assert!(!presents_unsupported_concrete_scene("THE SCREEN DOOR SLAMMED.", "the Screen Door slammed", USER));
}

#[test]
fn bookkeeping_is_detected() {
    assert!(leaks_pkc_bookkeeping("authorization_denied for CSDP-1"));
    assert!(!leaks_pkc_bookkeeping("You grew up in Gloucester Township."));
}

#[test]
fn bookkeeping_check_is_case_sensitive() {
    assert!(!leaks_pkc_bookkeeping("csdp-1"));
    assert!(leaks_pkc_bookkeeping("x canonical_hash y"));
}

#[test]
fn grounding_rules_name_the_three_classes() {
    assert!(GROUNDING_RULES.contains("SOURCE-BACKED FACTS"));
    assert!(GROUNDING_RULES.contains("USER TESTIMONY"));
    assert!(GROUNDING_RULES.contains("MODEL INFERENCE"));
}

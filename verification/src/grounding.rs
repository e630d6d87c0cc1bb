//! Grounding and fidelity rules shared by prompt assembly and the external
//! knowledge adapter, and the checks that hold model text to them.

use vstd::prelude::*;
use crate::text::{chars_of, contains_chars, occurs_at, seq_contains};

verus! {

/// The grounding rules placed in every system prompt.
pub const GROUNDING_RULES: &'static str = "\
Distinguish three classes of material:\n\
1. SOURCE-BACKED FACTS: only what appears in authorized retrieved evidence \
(including external PKC evidence labeled source-backed).\n\
2. USER TESTIMONY: only what the owner said in this conversation.\n\
3. MODEL INFERENCE: conversational wording, empathy, and questions. \
Inference is not a remembered fact.\n\
\n\
Do not introduce concrete sensory details, events, locations, objects, or \
memories as though they are established facts unless they appear in retrieved \
evidence or the owner's current or prior statement in this conversation.\n\
Do not invent a doorway, lighting, smell, weather, room, street, object, or \
episode to make an answer feel vivid.\n\
Never present inference as something you already know about the owner's life.\n\
Never mention PKC, retrieval, authorization, hashes, source IDs, policy IDs, \
or other bookkeeping in user-facing text.\n\
If evidence is missing, say you do not have that fact. Do not fill the gap \
with a concrete invented scene.\n\
When PKC stored evidence supports a claim, you may speak it as stored knowledge.\n\
When the owner previously described something, prefer \"You previously described…\" \
rather than treating recollection as independently verified fact.\n\
When you are reasoning, prefer \"That suggests…\" rather than \"What happened was…\".";

/// The number of concrete-scene markers.
pub const SCENE_MARKER_COUNT: usize = 10;

/// The number of bookkeeping markers.
pub const BOOKKEEPING_MARKER_COUNT: usize = 8;

/// The `i`-th phrase that presents an invented concrete scene.
pub open spec fn scene_marker(i: int) -> Seq<char> {
    if i == 0 {
        "narrow doorway"@
    } else if i == 1 {
        "light shifted"@
    } else if i == 2 {
        "dim amber glow"@
    } else if i == 3 {
        "hallway turned left into the parlor"@
    } else if i == 4 {
        "it was raining that afternoon"@
    } else if i == 5 {
        "you were standing by the stove"@
    } else if i == 6 {
        "tightness around your father's jaw"@
    } else if i == 7 {
        "the screen door slammed"@
    } else if i == 8 {
        "the smell of oil heat"@
    } else {
        "first you unpacked, then you sat on the stairs"@
    }
}

/// The `i`-th internal bookkeeping token that must never reach the owner.
pub open spec fn bookkeeping_marker(i: int) -> Seq<char> {
    if i == 0 {
        "CSDP-"@
    } else if i == 1 {
        "RULE-SAMMY-PRIVATE-CONSULIERE"@
    } else if i == 2 {
        "RULE-STORYKEEPER-PRIVATE-AUTOBIOGRAPHY"@
    } else if i == 3 {
        "evidence_bookkeeping"@
    } else if i == 4 {
        "record_trust_state"@
    } else if i == 5 {
        "authorization_denied"@
    } else if i == 6 {
        "canonical_hash"@
    } else {
        "protected_content_materialized"@
    }
}

/// Every bookkeeping marker is one line and holds an upper-case `S` or an
/// underscore; the position of one such character is returned.
pub proof fn lemma_marker_rare_char(i: int) -> (j: int)
    requires
        0 <= i < BOOKKEEPING_MARKER_COUNT,
    ensures
        0 <= j < bookkeeping_marker(i).len(),
        bookkeeping_marker(i)[j] == 'S' || bookkeeping_marker(i)[j] == '_',
        forall|k: int| 0 <= k < bookkeeping_marker(i).len() ==> bookkeeping_marker(i)[k] != '\n',
{
    reveal_strlit("CSDP-");
    reveal_strlit("RULE-SAMMY-PRIVATE-CONSULIERE");
    reveal_strlit("RULE-STORYKEEPER-PRIVATE-AUTOBIOGRAPHY");
    reveal_strlit("evidence_bookkeeping");
    reveal_strlit("record_trust_state");
    reveal_strlit("authorization_denied");
    reveal_strlit("canonical_hash");
    reveal_strlit("protected_content_materialized");
    if i == 0 {
        1
    } else if i == 1 || i == 2 {
        5
    } else if i == 3 {
        8
    } else if i == 4 {
        6
    } else if i == 5 {
        13
    } else {
        9
    }
}

fn scene_marker_at(i: usize) -> (m: &'static str)
    requires
        i < SCENE_MARKER_COUNT,
    ensures
        m@ == scene_marker(i as int),
{
    if i == 0 {
        "narrow doorway"
    } else if i == 1 {
        "light shifted"
    } else if i == 2 {
        "dim amber glow"
    } else if i == 3 {
        "hallway turned left into the parlor"
    } else if i == 4 {
        "it was raining that afternoon"
    } else if i == 5 {
        "you were standing by the stove"
    } else if i == 6 {
        "tightness around your father's jaw"
    } else if i == 7 {
        "the screen door slammed"
    } else if i == 8 {
        "the smell of oil heat"
    } else {
        "first you unpacked, then you sat on the stairs"
    }
}

fn bookkeeping_marker_at(i: usize) -> (m: &'static str)
    requires
        i < BOOKKEEPING_MARKER_COUNT,
    ensures
        m@ == bookkeeping_marker(i as int),
{
    if i == 0 {
        "CSDP-"
    } else if i == 1 {
        "RULE-SAMMY-PRIVATE-CONSULIERE"
    } else if i == 2 {
        "RULE-STORYKEEPER-PRIVATE-AUTOBIOGRAPHY"
    } else if i == 3 {
        "evidence_bookkeeping"
    } else if i == 4 {
        "record_trust_state"
    } else if i == 5 {
        "authorization_denied"
    } else if i == 6 {
        "canonical_hash"
    } else {
        "protected_content_materialized"
    }
}

/// What `str::to_lowercase` makes of a string (full Unicode lowercasing).
pub uninterp spec fn unicode_lowercase(s: Seq<char>) -> Seq<char>;

/// `str::to_lowercase`.
#[verifier::external_body]
fn lowercase(s: &str) -> (r: String)
    ensures
        r@ == unicode_lowercase(s@),
{
    s.to_lowercase()
}

/// The text a scene may legitimately come from: the evidence and the
/// owner's statement, both lowercased, one per line.
pub open spec fn allowed_text(evidence: Seq<char>, user: Seq<char>) -> Seq<char> {
    unicode_lowercase(evidence) + "\n"@ + unicode_lowercase(user)
}

/// Model text presents the `i`-th concrete scene while neither the evidence
/// nor the owner mentioned it.
pub open spec fn unsupported_marker(model: Seq<char>, evidence: Seq<char>, user: Seq<char>, i: int) -> bool {
    &&& seq_contains(unicode_lowercase(model), scene_marker(i))
    &&& !seq_contains(allowed_text(evidence, user), scene_marker(i))
}

/// Whether model text treats a concrete scene as remembered fact that is
/// absent from both the evidence and the owner's statement (compared
/// without regard to case).
pub fn presents_unsupported_concrete_scene(model: &str, evidence: &str, user: &str) -> (r: bool)
    ensures
        r == exists|i: int| 0 <= i < SCENE_MARKER_COUNT && #[trigger] unsupported_marker(model@, evidence@, user@, i),
{
    let mut allowed = lowercase(evidence);
    crate::text::push_str(&mut allowed, "\n");
    let lower_user = lowercase(user);
    crate::text::push_str(&mut allowed, lower_user.as_str());
    let allowed_chars = chars_of(allowed.as_str());
    let hay_owned = lowercase(model);
    let hay = chars_of(hay_owned.as_str());
    let mut i: usize = 0;
    while i < SCENE_MARKER_COUNT
        invariant
            i <= SCENE_MARKER_COUNT,
            hay@ == unicode_lowercase(model@),
            allowed_chars@ == allowed_text(evidence@, user@),
            forall|k: int| 0 <= k < i ==> !#[trigger] unsupported_marker(model@, evidence@, user@, k),
        decreases SCENE_MARKER_COUNT - i,
    {
        let marker = chars_of(scene_marker_at(i));
        if contains_chars(&hay, &marker) && !contains_chars(&allowed_chars, &marker) {
            assert(unsupported_marker(model@, evidence@, user@, i as int));
            return true;
        }
        i = i + 1;
    }
    false
}

/// Containment of texts is transitive.
proof fn lemma_contains_transitive(a: Seq<char>, b: Seq<char>, c: Seq<char>)
    requires
        seq_contains(a, b),
        seq_contains(b, c),
    ensures
        seq_contains(a, c),
{
    let p = choose|p: int| occurs_at(a, b, p);
    let q = choose|q: int| occurs_at(b, c, q);
    assert(a.subrange(p + q, p + q + c.len()) =~= b.subrange(q, q + c.len()));
    assert(occurs_at(a, c, p + q));
}

/// The scene check never flags more when what it may draw on grows: if the
/// lowercased evidence and owner text of a second turn contain those of a
/// first, every scene flagged in the second was flagged in the first. And
/// model text with no scene phrase is never flagged.
pub proof fn lemma_scene_check_monotone(model: Seq<char>, e1: Seq<char>, u1: Seq<char>, e2: Seq<char>, u2: Seq<char>)
    requires
        seq_contains(allowed_text(e2, u2), allowed_text(e1, u1)),
    ensures
        forall|i: int| 0 <= i < SCENE_MARKER_COUNT && #[trigger] unsupported_marker(model, e2, u2, i)
            ==> unsupported_marker(model, e1, u1, i),
        (forall|i: int| 0 <= i < SCENE_MARKER_COUNT ==> !seq_contains(unicode_lowercase(model), #[trigger] scene_marker(i)))
            ==> !exists|i: int| 0 <= i < SCENE_MARKER_COUNT && #[trigger] unsupported_marker(model, e1, u1, i),
{
    assert forall|i: int| 0 <= i < SCENE_MARKER_COUNT && #[trigger] unsupported_marker(model, e2, u2, i)
        implies unsupported_marker(model, e1, u1, i) by {
        if seq_contains(allowed_text(e1, u1), scene_marker(i)) {
            lemma_contains_transitive(allowed_text(e2, u2), allowed_text(e1, u1), scene_marker(i));
        }
    }
}

/// Some bookkeeping marker occurs in the text (case-sensitive).
pub open spec fn has_bookkeeping(text: Seq<char>) -> bool {
    exists|i: int| 0 <= i < BOOKKEEPING_MARKER_COUNT && seq_contains(text, #[trigger] bookkeeping_marker(i))
}

/// Whether text contains internal bookkeeping (case-sensitive).
pub fn leaks_pkc_bookkeeping(text: &str) -> (r: bool)
    ensures
        r == has_bookkeeping(text@),
{
    let hay = chars_of(text);
    let mut i: usize = 0;
    while i < BOOKKEEPING_MARKER_COUNT
        invariant
            i <= BOOKKEEPING_MARKER_COUNT,
            hay@ == text@,
            forall|k: int| 0 <= k < i ==> !seq_contains(text@, #[trigger] bookkeeping_marker(k)),
        decreases BOOKKEEPING_MARKER_COUNT - i,
    {
        let marker = chars_of(bookkeeping_marker_at(i));
        if contains_chars(&hay, &marker) {
            return true;
        }
        i = i + 1;
    }
    false
}

} // verus!

//! Read-only adapter to the external personal knowledge corpus. This is not
//! the vault's own corpus: it is a separate product, consulted through an
//! authorized gateway, whose conversational payload is sanitized before any
//! model sees it. The feature is off by default, never writes, never lets
//! unauthorized or bookkeeping text through, and is never consulted for a
//! cloud-bound turn.
//!
//! The gateway runs as a separate process; the caller runs it and reports
//! what it observed, and this module makes every decision around it.

use vstd::prelude::*;
use vstd::utf8::encode_utf8;
use crate::crypto::digest::{hex_lower, sha256_digest};
use crate::error::AppError;
use crate::grounding::{bookkeeping_marker, has_bookkeeping, lemma_marker_rare_char, BOOKKEEPING_MARKER_COUNT};
use crate::settings::ProviderConfig;
use crate::text::{
    ascii_lower_seq, chars_eq, chars_of, contains_chars, is_unicode_ws, is_whitespace,
    lower_ascii_chars, matches_at, occurs_at, owned, seq_contains, string_from_chars, trim_chars, trim_spec, views_of,
};

verus! {

/// The number of greetings and thanks.
pub const GREETING_COUNT: usize = 15;

/// The number of recall phrases.
pub const RECALL_PHRASE_COUNT: usize = 8;

/// The number of event cues.
pub const EVENT_CUE_COUNT: usize = 15;

/// The `i`-th greeting or thanks that needs no lookup.
pub open spec fn greeting(i: int) -> Seq<char> {
    if i == 0 {
        "hi"@
    } else if i == 1 {
        "hello"@
    } else if i == 2 {
        "hey"@
    } else if i == 3 {
        "yo"@
    } else if i == 4 {
        "sup"@
    } else if i == 5 {
        "thanks"@
    } else if i == 6 {
        "thank you"@
    } else if i == 7 {
        "thx"@
    } else if i == 8 {
        "good morning"@
    } else if i == 9 {
        "good afternoon"@
    } else if i == 10 {
        "good evening"@
    } else if i == 11 {
        "good night"@
    } else if i == 12 {
        "hello sammy"@
    } else if i == 13 {
        "hi sammy"@
    } else {
        "hey sammy"@
    }
}

fn greeting_at(i: usize) -> (m: &'static str)
    requires
        i < GREETING_COUNT,
    ensures
        m@ == greeting(i as int),
{
    if i == 0 {
        "hi"
    } else if i == 1 {
        "hello"
    } else if i == 2 {
        "hey"
    } else if i == 3 {
        "yo"
    } else if i == 4 {
        "sup"
    } else if i == 5 {
        "thanks"
    } else if i == 6 {
        "thank you"
    } else if i == 7 {
        "thx"
    } else if i == 8 {
        "good morning"
    } else if i == 9 {
        "good afternoon"
    } else if i == 10 {
        "good evening"
    } else if i == 11 {
        "good night"
    } else if i == 12 {
        "hello sammy"
    } else if i == 13 {
        "hi sammy"
    } else {
        "hey sammy"
    }
}

/// The `i`-th phrase that asks about the owner's stored knowledge.
pub open spec fn recall_phrase(i: int) -> Seq<char> {
    if i == 0 {
        "what do you know about me"@
    } else if i == 1 {
        "do you remember"@
    } else if i == 2 {
        "tell me about my"@
    } else if i == 3 {
        "when did i"@
    } else if i == 4 {
        "where did i"@
    } else if i == 5 {
        "who is my"@
    } else if i == 6 {
        "what do i"@
    } else {
        "what have i"@
    }
}

fn recall_phrase_at(i: usize) -> (m: &'static str)
    requires
        i < RECALL_PHRASE_COUNT,
    ensures
        m@ == recall_phrase(i as int),
{
    if i == 0 {
        "what do you know about me"
    } else if i == 1 {
        "do you remember"
    } else if i == 2 {
        "tell me about my"
    } else if i == 3 {
        "when did i"
    } else if i == 4 {
        "where did i"
    } else if i == 5 {
        "who is my"
    } else if i == 6 {
        "what do i"
    } else {
        "what have i"
    }
}

/// The `i`-th cue of a past event, preference or project.
pub open spec fn event_cue(i: int) -> Seq<char> {
    if i == 0 {
        "grow"@
    } else if i == 1 {
        "grew"@
    } else if i == 2 {
        "child"@
    } else if i == 3 {
        "family"@
    } else if i == 4 {
        "remember"@
    } else if i == 5 {
        "recall"@
    } else if i == 6 {
        "prefer"@
    } else if i == 7 {
        "preference"@
    } else if i == 8 {
        "decid"@
    } else if i == 9 {
        "lived"@
    } else if i == 10 {
        "project"@
    } else if i == 11 {
        "relationship"@
    } else if i == 12 {
        "used to"@
    } else if i == 13 {
        "documented"@
    } else {
        "history"@
    }
}

fn event_cue_at(i: usize) -> (m: &'static str)
    requires
        i < EVENT_CUE_COUNT,
    ensures
        m@ == event_cue(i as int),
{
    if i == 0 {
        "grow"
    } else if i == 1 {
        "grew"
    } else if i == 2 {
        "child"
    } else if i == 3 {
        "family"
    } else if i == 4 {
        "remember"
    } else if i == 5 {
        "recall"
    } else if i == 6 {
        "prefer"
    } else if i == 7 {
        "preference"
    } else if i == 8 {
        "decid"
    } else if i == 9 {
        "lived"
    } else if i == 10 {
        "project"
    } else if i == 11 {
        "relationship"
    } else if i == 12 {
        "used to"
    } else if i == 13 {
        "documented"
    } else {
        "history"
    }
}

/// Punctuation that `is_greeting_or_thanks` strips from both ends.
pub open spec fn is_edge_punct(c: char) -> bool {
    c == '!' || c == '?' || c == '.' || c == ','
}

/// Number of leading edge punctuation characters.
pub open spec fn leading_punct(s: Seq<char>) -> nat
    decreases s.len(),
{
    if s.len() > 0 && is_edge_punct(s[0]) {
        1 + leading_punct(s.drop_first())
    } else {
        0
    }
}

/// Number of trailing edge punctuation characters.
pub open spec fn trailing_punct(s: Seq<char>) -> nat
    decreases s.len(),
{
    if s.len() > 0 && is_edge_punct(s.last()) {
        1 + trailing_punct(s.drop_last())
    } else {
        0
    }
}

/// `s` with edge punctuation removed from both ends.
pub open spec fn strip_punct(s: Seq<char>) -> Seq<char> {
    let a = leading_punct(s);
    if a == s.len() {
        Seq::empty()
    } else {
        s.subrange(a as int, s.len() - trailing_punct(s))
    }
}

proof fn lemma_leading_punct_bound(s: Seq<char>)
    ensures
        leading_punct(s) <= s.len(),
        forall|k: int| 0 <= k < leading_punct(s) ==> is_edge_punct(#[trigger] s[k]),
        leading_punct(s) < s.len() ==> !is_edge_punct(s[leading_punct(s) as int]),
    decreases s.len(),
{
    if s.len() > 0 && is_edge_punct(s[0]) {
        lemma_leading_punct_bound(s.drop_first());
        assert forall|k: int| 0 <= k < leading_punct(s) implies is_edge_punct(#[trigger] s[k]) by {
            if k > 0 {
                assert(s[k] == s.drop_first()[k - 1]);
            }
        }
        if leading_punct(s) < s.len() {
            assert(s[leading_punct(s) as int] == s.drop_first()[leading_punct(s.drop_first()) as int]);
        }
    }
}

proof fn lemma_trailing_punct_bound(s: Seq<char>)
    ensures
        trailing_punct(s) <= s.len(),
        forall|k: int| s.len() - trailing_punct(s) <= k < s.len() ==> is_edge_punct(#[trigger] s[k]),
        trailing_punct(s) < s.len() ==> !is_edge_punct(s[s.len() - 1 - trailing_punct(s)]),
    decreases s.len(),
{
    if s.len() > 0 && is_edge_punct(s.last()) {
        lemma_trailing_punct_bound(s.drop_last());
        assert forall|k: int| s.len() - trailing_punct(s) <= k < s.len() implies is_edge_punct(#[trigger] s[k]) by {
            if k < s.len() - 1 {
                assert(s[k] == s.drop_last()[k]);
            }
        }
        if trailing_punct(s) < s.len() {
            assert(s[s.len() - 1 - trailing_punct(s)] == s.drop_last()[s.drop_last().len() - 1 - trailing_punct(s.drop_last())]);
        }
    }
}

fn is_punct(c: char) -> (r: bool)
    ensures
        r == is_edge_punct(c),
{
    c == '!' || c == '?' || c == '.' || c == ','
}

/// Characters of `s` with edge punctuation removed from both ends.
fn strip_punct_chars(s: &Vec<char>) -> (r: Vec<char>)
    ensures
        r@ == strip_punct(s@),
{
    proof {
        lemma_leading_punct_bound(s@);
        lemma_trailing_punct_bound(s@);
    }
    let mut a: usize = 0;
    while a < s.len() && is_punct(s[a])
        invariant
            a <= s@.len(),
            forall|k: int| 0 <= k < a ==> is_edge_punct(#[trigger] s@[k]),
            leading_punct(s@) <= s@.len(),
            forall|k: int| 0 <= k < leading_punct(s@) ==> is_edge_punct(#[trigger] s@[k]),
            leading_punct(s@) < s@.len() ==> !is_edge_punct(s@[leading_punct(s@) as int]),
            a <= leading_punct(s@),
        decreases s@.len() - a,
    {
        a = a + 1;
    }
    let mut r: Vec<char> = Vec::new();
    if a == s.len() {
        return r;
    }
    let mut b: usize = s.len();
    while b > a && is_punct(s[b - 1])
        invariant
            a < s@.len(),
            a <= b <= s@.len(),
            a == leading_punct(s@),
            !is_edge_punct(s@[a as int]),
            forall|k: int| b <= k < s@.len() ==> is_edge_punct(#[trigger] s@[k]),
            trailing_punct(s@) <= s@.len(),
            forall|k: int| s@.len() - trailing_punct(s@) <= k < s@.len() ==> is_edge_punct(#[trigger] s@[k]),
            trailing_punct(s@) < s@.len() ==> !is_edge_punct(s@[s@.len() - 1 - trailing_punct(s@)]),
            s@.len() - b <= trailing_punct(s@),
        decreases b,
    {
        b = b - 1;
    }
    let mut i = a;
    while i < b
        invariant
            a <= i <= b <= s@.len(),
            r@ == s@.subrange(a as int, i as int),
        decreases b - i,
    {
        r.push(s[i]);
        i = i + 1;
        proof {
            assert(r@ =~= s@.subrange(a as int, i as int));
        }
    }
    r
}

/// A greeting or thanks, compared after edge punctuation and surrounding
/// whitespace are removed.
pub open spec fn is_greeting_spec(lower: Seq<char>) -> bool {
    exists|i: int| 0 <= i < GREETING_COUNT && trim_spec(strip_punct(lower)) == #[trigger] greeting(i)
}

fn is_greeting_or_thanks(lower: &Vec<char>) -> (r: bool)
    ensures
        r == is_greeting_spec(lower@),
{
    let stripped = strip_punct_chars(lower);
    let compact = trim_chars(&stripped);
    let mut i: usize = 0;
    while i < GREETING_COUNT
        invariant
            i <= GREETING_COUNT,
            compact@ == trim_spec(strip_punct(lower@)),
            forall|k: int| 0 <= k < i ==> compact@ != #[trigger] greeting(k),
        decreases GREETING_COUNT - i,
    {
        let g = chars_of(greeting_at(i));
        if chars_eq(&compact, &g) {
            return true;
        }
        i = i + 1;
    }
    false
}

/// A character that may appear in pure arithmetic.
pub open spec fn is_arith_char(c: char) -> bool {
    ('0' <= c && c <= '9') || c == '+' || c == '-' || c == '*' || c == '/' || c == '('
        || c == ')' || c == '=' || c == '.'
}

/// Pure arithmetic: ignoring whitespace, at least one digit and nothing but
/// digits, operators, brackets, `=` and `.`.
pub open spec fn is_pure_arithmetic_spec(s: Seq<char>) -> bool {
    &&& exists|k: int| 0 <= k < s.len() && '0' <= #[trigger] s[k] && s[k] <= '9'
    &&& forall|k: int| 0 <= k < s.len() && !is_unicode_ws(#[trigger] s[k]) ==> is_arith_char(s[k])
}

fn is_pure_arithmetic(lower: &Vec<char>) -> (r: bool)
    ensures
        r == is_pure_arithmetic_spec(lower@),
{
    let mut has_digit = false;
    let mut i: usize = 0;
    while i < lower.len()
        invariant
            i <= lower@.len(),
            has_digit == exists|k: int| 0 <= k < i && '0' <= #[trigger] lower@[k] && lower@[k] <= '9',
            forall|k: int| 0 <= k < i && !is_unicode_ws(#[trigger] lower@[k]) ==> is_arith_char(lower@[k]),
        decreases lower@.len() - i,
    {
        let c = lower[i];
        if !is_whitespace(c) {
            let ok = ('0' <= c && c <= '9') || c == '+' || c == '-' || c == '*' || c == '/'
                || c == '(' || c == ')' || c == '=' || c == '.';
            if !ok {
                return false;
            }
        }
        if '0' <= c && c <= '9' {
            has_digit = true;
        }
        i = i + 1;
    }
    has_digit
}

/// A character that `has_word` treats as part of a word.
pub open spec fn is_word_char(c: char) -> bool {
    ('a' <= c && c <= 'z') || ('A' <= c && c <= 'Z') || c == '\''
}

/// `word` stands at `i` in `hay` with no word character directly before or
/// after it.
pub open spec fn word_at(hay: Seq<char>, word: Seq<char>, i: int) -> bool {
    &&& occurs_at(hay, word, i)
    &&& (i == 0 || !is_word_char(hay[i - 1]))
    &&& (i + word.len() == hay.len() || !is_word_char(hay[i + word.len()]))
}

/// `word` is one of the pieces of `hay` split at every character that is
/// not a word character.
pub open spec fn has_word_spec(hay: Seq<char>, word: Seq<char>) -> bool {
    exists|i: int| #[trigger] word_at(hay, word, i)
}

fn is_word_character(c: char) -> (r: bool)
    ensures
        r == is_word_char(c),
{
    ('a' <= c && c <= 'z') || ('A' <= c && c <= 'Z') || c == '\''
}

fn has_word(hay: &Vec<char>, word: &str) -> (r: bool)
    ensures
        r == has_word_spec(hay@, word@),
{
    let w = chars_of(word);
    if w.len() > hay.len() {
        proof {
            assert forall|i: int| !word_at(hay@, word@, i) by {}
        }
        return false;
    }
    let last = hay.len() - w.len();
    let mut i: usize = 0;
    while i <= last
        invariant
            w@ == word@,
            w@.len() <= hay@.len(),
            hay@.len() == hay.len(),
            last == hay@.len() - w@.len(),
            i <= last + 1,
            forall|k: int| 0 <= k < i ==> !#[trigger] word_at(hay@, word@, k),
        decreases last + 1 - i,
    {
        if matches_at(hay, &w, i) {
            let before_ok = i == 0 || !is_word_character(hay[i - 1]);
            assert(i + w@.len() <= hay@.len());
            let after_ok = i == last || !is_word_character(hay[i + w.len()]);
            if before_ok && after_ok {
                assert(word_at(hay@, word@, i as int));
                return true;
            }
        }
        if i == last {
            proof {
                assert forall|k: int| !#[trigger] word_at(hay@, word@, k) by {
                    if 0 <= k && k <= i {
                    }
                }
            }
            return false;
        }
        i = i + 1;
    }
    false
}

/// Some phrase of the table occurs in `s`.
pub open spec fn contains_recall_phrase(s: Seq<char>) -> bool {
    exists|i: int| 0 <= i < RECALL_PHRASE_COUNT && seq_contains(s, #[trigger] recall_phrase(i))
}

/// Some event cue occurs in `s`.
pub open spec fn contains_event_cue(s: Seq<char>) -> bool {
    exists|i: int| 0 <= i < EVENT_CUE_COUNT && seq_contains(s, #[trigger] event_cue(i))
}

/// A personal-knowledge cue: a recall phrase; "my", "mine" or "myself" as
/// a word; or "i", "i'm", "i've" or "i'd" as a word together with an event
/// cue.
pub open spec fn has_personal_cue_spec(lower: Seq<char>) -> bool {
    ||| contains_recall_phrase(lower)
    ||| has_word_spec(lower, "my"@)
    ||| has_word_spec(lower, "mine"@)
    ||| has_word_spec(lower, "myself"@)
    ||| ((has_word_spec(lower, "i"@) || has_word_spec(lower, "i'm"@) || has_word_spec(lower, "i've"@)
        || has_word_spec(lower, "i'd"@)) && contains_event_cue(lower))
}

fn has_personal_knowledge_cue(lower: &Vec<char>) -> (r: bool)
    ensures
        r == has_personal_cue_spec(lower@),
{
    let mut i: usize = 0;
    while i < RECALL_PHRASE_COUNT
        invariant
            i <= RECALL_PHRASE_COUNT,
            forall|k: int| 0 <= k < i ==> !seq_contains(lower@, #[trigger] recall_phrase(k)),
        decreases RECALL_PHRASE_COUNT - i,
    {
        let phrase = chars_of(recall_phrase_at(i));
        if contains_chars(lower, &phrase) {
            assert(seq_contains(lower@, recall_phrase(i as int)));
            return true;
        }
        i = i + 1;
    }
    if has_word(lower, "my") || has_word(lower, "mine") || has_word(lower, "myself") {
        return true;
    }
    let has_i = has_word(lower, "i") || has_word(lower, "i'm") || has_word(lower, "i've")
        || has_word(lower, "i'd");
    if !has_i {
        return false;
    }
    let mut j: usize = 0;
    while j < EVENT_CUE_COUNT
        invariant
            j <= EVENT_CUE_COUNT,
            forall|k: int| 0 <= k < j ==> !seq_contains(lower@, #[trigger] event_cue(k)),
            !contains_recall_phrase(lower@),
            !has_word_spec(lower@, "my"@),
            !has_word_spec(lower@, "mine"@),
            !has_word_spec(lower@, "myself"@),
            has_word_spec(lower@, "i"@) || has_word_spec(lower@, "i'm"@) || has_word_spec(lower@, "i've"@)
                || has_word_spec(lower@, "i'd"@),
        decreases EVENT_CUE_COUNT - j,
    {
        let cue = chars_of(event_cue_at(j));
        if contains_chars(lower, &cue) {
            assert(seq_contains(lower@, event_cue(j as int)));
            return true;
        }
        j = j + 1;
    }
    false
}

/// Whether a personal-knowledge lookup is useful for this owner message:
/// not for an empty message, a greeting or thanks, or pure arithmetic; and
/// only when the message (trimmed, ASCII-lowercased) carries a personal cue.
pub open spec fn retrieval_useful(question: Seq<char>) -> bool {
    let trimmed = trim_spec(question);
    let lower = ascii_lower_seq(trimmed);
    &&& trimmed.len() > 0
    &&& !is_greeting_spec(lower)
    &&& !is_pure_arithmetic_spec(lower)
    &&& has_personal_cue_spec(lower)
}

/// Decide whether a personal-knowledge lookup is useful for this message.
/// Conservative: without a personal cue there is no lookup.
pub fn should_retrieve_for_turn(question: &str) -> (r: bool)
    ensures
        r == retrieval_useful(question@),
{
    let all = chars_of(question);
    let trimmed = trim_chars(&all);
    if trimmed.len() == 0 {
        return false;
    }
    let lower = lower_ascii_chars(&trimmed);
    if is_greeting_or_thanks(&lower) {
        return false;
    }
    if is_pure_arithmetic(&lower) {
        return false;
    }
    has_personal_knowledge_cue(&lower)
}

/// Every first-person possessive or reflexive word ("my", "mine",
/// "myself"), every recall phrase, and "i"/"i'm"/"i've"/"i'd" beside an
/// event cue is a personal-knowledge cue: a non-empty message carrying one
/// that is neither a greeting nor pure arithmetic is worth a lookup.
pub proof fn lemma_personal_cues_ask_for_lookup(question: Seq<char>)
    ensures
        ({
            let lower = ascii_lower_seq(trim_spec(question));
            &&& has_word_spec(lower, "my"@) ==> has_personal_cue_spec(lower)
            &&& has_word_spec(lower, "mine"@) ==> has_personal_cue_spec(lower)
            &&& has_word_spec(lower, "myself"@) ==> has_personal_cue_spec(lower)
            &&& contains_recall_phrase(lower) ==> has_personal_cue_spec(lower)
            &&& (has_word_spec(lower, "i"@) || has_word_spec(lower, "i'm"@) || has_word_spec(lower, "i've"@)
                || has_word_spec(lower, "i'd"@)) && contains_event_cue(lower) ==> has_personal_cue_spec(lower)
            &&& (trim_spec(question).len() > 0 && !is_greeting_spec(lower) && !is_pure_arithmetic_spec(lower)
                && (has_word_spec(lower, "my"@) || has_word_spec(lower, "mine"@) || has_word_spec(lower, "myself"@)
                    || contains_recall_phrase(lower)))
                ==> retrieval_useful(question)
            &&& retrieval_useful(question) ==> trim_spec(question).len() > 0 && !is_greeting_spec(lower)
                && !is_pure_arithmetic_spec(lower)
        }),
{
}

/// Health and per-turn states of the external knowledge connection. A
/// green indicator needs `AvailableAuthorized` after an actual probe.
#[derive(Debug, Clone, Copy, PartialEq, Eq, Structural)]
pub enum PkcHealthState {
    Disabled,
    ConfiguredNotTested,
    Connecting,
    AvailableAuthorized,
    AvailableUnauthorized,
    PkcUnavailable,
    BridgeUnavailable,
    PythonUnavailable,
    Misconfigured,
    LocalModelUnavailable,
    CloudTurnSkipped,
    RetrievalSkipped,
}

/// The stable string form of each [`PkcHealthState`].
pub open spec fn pkc_health_state_name(x: PkcHealthState) -> Seq<char> {
    match x {
        PkcHealthState::Disabled => "disabled"@,
        PkcHealthState::ConfiguredNotTested => "configured_not_tested"@,
        PkcHealthState::Connecting => "connecting"@,
        PkcHealthState::AvailableAuthorized => "available_authorized"@,
        PkcHealthState::AvailableUnauthorized => "available_unauthorized"@,
        PkcHealthState::PkcUnavailable => "pkc_unavailable"@,
        PkcHealthState::BridgeUnavailable => "bridge_unavailable"@,
        PkcHealthState::PythonUnavailable => "python_unavailable"@,
        PkcHealthState::Misconfigured => "misconfigured"@,
        PkcHealthState::LocalModelUnavailable => "local_model_unavailable"@,
        PkcHealthState::CloudTurnSkipped => "cloud_turn_skipped"@,
        PkcHealthState::RetrievalSkipped => "retrieval_skipped"@,
    }
}

/// The [`PkcHealthState`] whose string form is `s`, if any.
pub open spec fn pkc_health_state_from_name(s: Seq<char>) -> Option<PkcHealthState> {
    if s == "disabled"@ {
        Some(PkcHealthState::Disabled)
    } else if s == "configured_not_tested"@ {
        Some(PkcHealthState::ConfiguredNotTested)
    } else if s == "connecting"@ {
        Some(PkcHealthState::Connecting)
    } else if s == "available_authorized"@ {
        Some(PkcHealthState::AvailableAuthorized)
    } else if s == "available_unauthorized"@ {
        Some(PkcHealthState::AvailableUnauthorized)
    } else if s == "pkc_unavailable"@ {
        Some(PkcHealthState::PkcUnavailable)
    } else if s == "bridge_unavailable"@ {
        Some(PkcHealthState::BridgeUnavailable)
    } else if s == "python_unavailable"@ {
        Some(PkcHealthState::PythonUnavailable)
    } else if s == "misconfigured"@ {
        Some(PkcHealthState::Misconfigured)
    } else if s == "local_model_unavailable"@ {
        Some(PkcHealthState::LocalModelUnavailable)
    } else if s == "cloud_turn_skipped"@ {
        Some(PkcHealthState::CloudTurnSkipped)
    } else if s == "retrieval_skipped"@ {
        Some(PkcHealthState::RetrievalSkipped)
    } else {
        None
    }
}

impl PkcHealthState {
    /// The stable string form.
    pub fn as_str(self) -> (s: &'static str)
        ensures
            s@ == pkc_health_state_name(self),
    {
        match self {
            PkcHealthState::Disabled => "disabled",
            PkcHealthState::ConfiguredNotTested => "configured_not_tested",
            PkcHealthState::Connecting => "connecting",
            PkcHealthState::AvailableAuthorized => "available_authorized",
            PkcHealthState::AvailableUnauthorized => "available_unauthorized",
            PkcHealthState::PkcUnavailable => "pkc_unavailable",
            PkcHealthState::BridgeUnavailable => "bridge_unavailable",
            PkcHealthState::PythonUnavailable => "python_unavailable",
            PkcHealthState::Misconfigured => "misconfigured",
            PkcHealthState::LocalModelUnavailable => "local_model_unavailable",
            PkcHealthState::CloudTurnSkipped => "cloud_turn_skipped",
            PkcHealthState::RetrievalSkipped => "retrieval_skipped",
        }
    }
}

/// The health state recorded under a stable name, if any.
pub fn parse_health_state(s: &str) -> (r: Option<PkcHealthState>)
    ensures
        r == pkc_health_state_from_name(s@),
{
    if crate::text::str_eq(s, "disabled") {
        Some(PkcHealthState::Disabled)
    } else if crate::text::str_eq(s, "configured_not_tested") {
        Some(PkcHealthState::ConfiguredNotTested)
    } else if crate::text::str_eq(s, "connecting") {
        Some(PkcHealthState::Connecting)
    } else if crate::text::str_eq(s, "available_authorized") {
        Some(PkcHealthState::AvailableAuthorized)
    } else if crate::text::str_eq(s, "available_unauthorized") {
        Some(PkcHealthState::AvailableUnauthorized)
    } else if crate::text::str_eq(s, "pkc_unavailable") {
        Some(PkcHealthState::PkcUnavailable)
    } else if crate::text::str_eq(s, "bridge_unavailable") {
        Some(PkcHealthState::BridgeUnavailable)
    } else if crate::text::str_eq(s, "python_unavailable") {
        Some(PkcHealthState::PythonUnavailable)
    } else if crate::text::str_eq(s, "misconfigured") {
        Some(PkcHealthState::Misconfigured)
    } else if crate::text::str_eq(s, "local_model_unavailable") {
        Some(PkcHealthState::LocalModelUnavailable)
    } else if crate::text::str_eq(s, "cloud_turn_skipped") {
        Some(PkcHealthState::CloudTurnSkipped)
    } else if crate::text::str_eq(s, "retrieval_skipped") {
        Some(PkcHealthState::RetrievalSkipped)
    } else {
        None
    }
}

/// Parsing the string form of a [`PkcHealthState`] gives it back.
pub proof fn lemma_pkc_health_state_round_trip(x: PkcHealthState)
    ensures
        pkc_health_state_from_name(pkc_health_state_name(x)) == Some(x),
{
    match x {
        PkcHealthState::Disabled => {
            reveal_strlit("disabled");
        },
        PkcHealthState::ConfiguredNotTested => {
            reveal_strlit("configured_not_tested");
            reveal_strlit("disabled");
            assert("configured_not_tested"@.len() != "disabled"@.len());
        },
        PkcHealthState::Connecting => {
            reveal_strlit("connecting");
            reveal_strlit("disabled");
            assert("connecting"@.len() != "disabled"@.len());
            reveal_strlit("configured_not_tested");
            assert("connecting"@.len() != "configured_not_tested"@.len());
        },
        PkcHealthState::AvailableAuthorized => {
            reveal_strlit("available_authorized");
            reveal_strlit("disabled");
            assert("available_authorized"@.len() != "disabled"@.len());
            reveal_strlit("configured_not_tested");
            assert("available_authorized"@.len() != "configured_not_tested"@.len());
            reveal_strlit("connecting");
            assert("available_authorized"@.len() != "connecting"@.len());
        },
        PkcHealthState::AvailableUnauthorized => {
            reveal_strlit("available_unauthorized");
            reveal_strlit("disabled");
            assert("available_unauthorized"@.len() != "disabled"@.len());
            reveal_strlit("configured_not_tested");
            assert("available_unauthorized"@.len() != "configured_not_tested"@.len());
            reveal_strlit("connecting");
            assert("available_unauthorized"@.len() != "connecting"@.len());
            reveal_strlit("available_authorized");
            assert("available_unauthorized"@.len() != "available_authorized"@.len());
        },
        PkcHealthState::PkcUnavailable => {
            reveal_strlit("pkc_unavailable");
            reveal_strlit("disabled");
            assert("pkc_unavailable"@.len() != "disabled"@.len());
            reveal_strlit("configured_not_tested");
            assert("pkc_unavailable"@.len() != "configured_not_tested"@.len());
            reveal_strlit("connecting");
            assert("pkc_unavailable"@.len() != "connecting"@.len());
            reveal_strlit("available_authorized");
            assert("pkc_unavailable"@.len() != "available_authorized"@.len());
            reveal_strlit("available_unauthorized");
            assert("pkc_unavailable"@.len() != "available_unauthorized"@.len());
        },
        PkcHealthState::BridgeUnavailable => {
            reveal_strlit("bridge_unavailable");
            reveal_strlit("disabled");
            assert("bridge_unavailable"@.len() != "disabled"@.len());
            reveal_strlit("configured_not_tested");
            assert("bridge_unavailable"@.len() != "configured_not_tested"@.len());
            reveal_strlit("connecting");
            assert("bridge_unavailable"@.len() != "connecting"@.len());
            reveal_strlit("available_authorized");
            assert("bridge_unavailable"@.len() != "available_authorized"@.len());
            reveal_strlit("available_unauthorized");
            assert("bridge_unavailable"@.len() != "available_unauthorized"@.len());
            reveal_strlit("pkc_unavailable");
            assert("bridge_unavailable"@.len() != "pkc_unavailable"@.len());
        },
        PkcHealthState::PythonUnavailable => {
            reveal_strlit("python_unavailable");
            reveal_strlit("disabled");
            assert("python_unavailable"@.len() != "disabled"@.len());
            reveal_strlit("configured_not_tested");
            assert("python_unavailable"@.len() != "configured_not_tested"@.len());
            reveal_strlit("connecting");
            assert("python_unavailable"@.len() != "connecting"@.len());
            reveal_strlit("available_authorized");
            assert("python_unavailable"@.len() != "available_authorized"@.len());
            reveal_strlit("available_unauthorized");
            assert("python_unavailable"@.len() != "available_unauthorized"@.len());
            reveal_strlit("pkc_unavailable");
            assert("python_unavailable"@.len() != "pkc_unavailable"@.len());
            reveal_strlit("bridge_unavailable");
            assert("python_unavailable"@[0] != "bridge_unavailable"@[0]);
        },
        PkcHealthState::Misconfigured => {
            reveal_strlit("misconfigured");
            reveal_strlit("disabled");
            assert("misconfigured"@.len() != "disabled"@.len());
            reveal_strlit("configured_not_tested");
            assert("misconfigured"@.len() != "configured_not_tested"@.len());
            reveal_strlit("connecting");
            assert("misconfigured"@.len() != "connecting"@.len());
            reveal_strlit("available_authorized");
            assert("misconfigured"@.len() != "available_authorized"@.len());
            reveal_strlit("available_unauthorized");
            assert("misconfigured"@.len() != "available_unauthorized"@.len());
            reveal_strlit("pkc_unavailable");
            assert("misconfigured"@.len() != "pkc_unavailable"@.len());
            reveal_strlit("bridge_unavailable");
            assert("misconfigured"@.len() != "bridge_unavailable"@.len());
            reveal_strlit("python_unavailable");
            assert("misconfigured"@.len() != "python_unavailable"@.len());
        },
        PkcHealthState::LocalModelUnavailable => {
            reveal_strlit("local_model_unavailable");
            reveal_strlit("disabled");
            assert("local_model_unavailable"@.len() != "disabled"@.len());
            reveal_strlit("configured_not_tested");
            assert("local_model_unavailable"@.len() != "configured_not_tested"@.len());
            reveal_strlit("connecting");
            assert("local_model_unavailable"@.len() != "connecting"@.len());
            reveal_strlit("available_authorized");
            assert("local_model_unavailable"@.len() != "available_authorized"@.len());
            reveal_strlit("available_unauthorized");
            assert("local_model_unavailable"@.len() != "available_unauthorized"@.len());
            reveal_strlit("pkc_unavailable");
            assert("local_model_unavailable"@.len() != "pkc_unavailable"@.len());
            reveal_strlit("bridge_unavailable");
            assert("local_model_unavailable"@.len() != "bridge_unavailable"@.len());
            reveal_strlit("python_unavailable");
            assert("local_model_unavailable"@.len() != "python_unavailable"@.len());
            reveal_strlit("misconfigured");
            assert("local_model_unavailable"@.len() != "misconfigured"@.len());
        },
        PkcHealthState::CloudTurnSkipped => {
            reveal_strlit("cloud_turn_skipped");
            reveal_strlit("disabled");
            assert("cloud_turn_skipped"@.len() != "disabled"@.len());
            reveal_strlit("configured_not_tested");
            assert("cloud_turn_skipped"@.len() != "configured_not_tested"@.len());
            reveal_strlit("connecting");
            assert("cloud_turn_skipped"@.len() != "connecting"@.len());
            reveal_strlit("available_authorized");
            assert("cloud_turn_skipped"@.len() != "available_authorized"@.len());
            reveal_strlit("available_unauthorized");
            assert("cloud_turn_skipped"@.len() != "available_unauthorized"@.len());
            reveal_strlit("pkc_unavailable");
            assert("cloud_turn_skipped"@.len() != "pkc_unavailable"@.len());
            reveal_strlit("bridge_unavailable");
            assert("cloud_turn_skipped"@[0] != "bridge_unavailable"@[0]);
            reveal_strlit("python_unavailable");
            assert("cloud_turn_skipped"@[0] != "python_unavailable"@[0]);
            reveal_strlit("misconfigured");
            assert("cloud_turn_skipped"@.len() != "misconfigured"@.len());
            reveal_strlit("local_model_unavailable");
            assert("cloud_turn_skipped"@.len() != "local_model_unavailable"@.len());
        },
        PkcHealthState::RetrievalSkipped => {
            reveal_strlit("retrieval_skipped");
            reveal_strlit("disabled");
            assert("retrieval_skipped"@.len() != "disabled"@.len());
            reveal_strlit("configured_not_tested");
            assert("retrieval_skipped"@.len() != "configured_not_tested"@.len());
            reveal_strlit("connecting");
            assert("retrieval_skipped"@.len() != "connecting"@.len());
            reveal_strlit("available_authorized");
            assert("retrieval_skipped"@.len() != "available_authorized"@.len());
            reveal_strlit("available_unauthorized");
            assert("retrieval_skipped"@.len() != "available_unauthorized"@.len());
            reveal_strlit("pkc_unavailable");
            assert("retrieval_skipped"@.len() != "pkc_unavailable"@.len());
            reveal_strlit("bridge_unavailable");
            assert("retrieval_skipped"@.len() != "bridge_unavailable"@.len());
            reveal_strlit("python_unavailable");
            assert("retrieval_skipped"@.len() != "python_unavailable"@.len());
            reveal_strlit("misconfigured");
            assert("retrieval_skipped"@.len() != "misconfigured"@.len());
            reveal_strlit("local_model_unavailable");
            assert("retrieval_skipped"@.len() != "local_model_unavailable"@.len());
            reveal_strlit("cloud_turn_skipped");
            assert("retrieval_skipped"@.len() != "cloud_turn_skipped"@.len());
        },
    }
}

/// What the owner is told about each state.
pub open spec fn owner_message_text(x: PkcHealthState) -> Seq<char> {
    match x {
        PkcHealthState::Disabled => "Personal knowledge is off. Enable it in Settings to use it in local chat."@,
        PkcHealthState::ConfiguredNotTested => "Settings are saved but not yet verified. Use Test connection."@,
        PkcHealthState::Connecting => "Checking the personal-knowledge connection…"@,
        PkcHealthState::AvailableAuthorized => "Personal knowledge is available and authorized for Sammy."@,
        PkcHealthState::AvailableUnauthorized => "The knowledge system answered, but Sammy is not authorized for this source."@,
        PkcHealthState::PkcUnavailable => "The personal-knowledge system is not reachable. Sammy chat still works without it."@,
        PkcHealthState::BridgeUnavailable => "The PKC bridge script is missing or moved. Chat still works without personal knowledge."@,
        PkcHealthState::PythonUnavailable => "Python was not found. Chat still works without personal knowledge."@,
        PkcHealthState::Misconfigured => "Personal-knowledge settings are incomplete or invalid. Chat still works."@,
        PkcHealthState::LocalModelUnavailable => "The local model is not reachable. Personal knowledge is not sent to cloud models."@,
        PkcHealthState::CloudTurnSkipped => "This turn uses a cloud model, so personal knowledge was not consulted."@,
        PkcHealthState::RetrievalSkipped => "This message did not need a personal-knowledge lookup."@,
    }
}

impl PkcHealthState {
    /// The message shown to the owner for this state.
    pub fn owner_message(self) -> (m: &'static str)
        ensures
            m@ == owner_message_text(self),
    {
        match self {
            PkcHealthState::Disabled => "Personal knowledge is off. Enable it in Settings to use it in local chat.",
            PkcHealthState::ConfiguredNotTested => "Settings are saved but not yet verified. Use Test connection.",
            PkcHealthState::Connecting => "Checking the personal-knowledge connection…",
            PkcHealthState::AvailableAuthorized => "Personal knowledge is available and authorized for Sammy.",
            PkcHealthState::AvailableUnauthorized => "The knowledge system answered, but Sammy is not authorized for this source.",
            PkcHealthState::PkcUnavailable => "The personal-knowledge system is not reachable. Sammy chat still works without it.",
            PkcHealthState::BridgeUnavailable => "The PKC bridge script is missing or moved. Chat still works without personal knowledge.",
            PkcHealthState::PythonUnavailable => "Python was not found. Chat still works without personal knowledge.",
            PkcHealthState::Misconfigured => "Personal-knowledge settings are incomplete or invalid. Chat still works.",
            PkcHealthState::LocalModelUnavailable => "The local model is not reachable. Personal knowledge is not sent to cloud models.",
            PkcHealthState::CloudTurnSkipped => "This turn uses a cloud model, so personal knowledge was not consulted.",
            PkcHealthState::RetrievalSkipped => "This message did not need a personal-knowledge lookup.",
        }
    }
}

/// The epistemic class of a piece of evidence.
#[derive(Debug, Clone, Copy, PartialEq, Eq, Structural)]
pub enum EvidenceClass {
    StoredFact,
    Testimony,
    Inference,
}

/// The stable string form of each [`EvidenceClass`].
pub open spec fn evidence_class_name(x: EvidenceClass) -> Seq<char> {
    match x {
        EvidenceClass::StoredFact => "stored_fact"@,
        EvidenceClass::Testimony => "testimony"@,
        EvidenceClass::Inference => "inference"@,
    }
}

impl EvidenceClass {
    /// The stable string form.
    pub fn as_str(self) -> (s: &'static str)
        ensures
            s@ == evidence_class_name(self),
    {
        match self {
            EvidenceClass::StoredFact => "stored_fact",
            EvidenceClass::Testimony => "testimony",
            EvidenceClass::Inference => "inference",
        }
    }
}
/// Version of the gateway protocol this adapter speaks.
pub const BRIDGE_VERSION: &'static str = "1.0.0";

/// Consumer identity sent on every request and shown in Settings.
pub const CONSUMER_APPLICATION: &'static str = "sammy";

/// Authorized purpose sent on every request and shown in Settings.
pub const PURPOSE: &'static str = "personal_consigliere";

/// Seconds a health probe may take.
pub const HEALTH_TIMEOUT_SECS: u64 = 12;

/// Seconds a retrieval may take.
pub const RETRIEVAL_TIMEOUT_SECS: u64 = 20;

/// Evidence after the sanitization boundary. The model sees only
/// `model_safe_text`; the owner's view never includes the body.
#[derive(Debug, Clone)]
pub struct PkcEvidence {
    pub source_id: String,
    pub source_type: &'static str,
    pub classification: EvidenceClass,
    pub authorized: bool,
    pub request_id: String,
    pub payload_sha256: String,
    pub payload_chars: u32,
    pub model_safe_text: String,
}

/// Body-free view of a turn's consultation, for the chat UI, the audit log
/// and persistence.
#[derive(Debug, Clone, PartialEq, Eq)]
pub struct PkcTurnView {
    pub used: bool,
    pub state: String,
    pub owner_notice: Option<String>,
    pub source_id: Option<String>,
    pub classification: Option<String>,
    pub request_id: Option<String>,
    pub payload_sha256: Option<String>,
    pub payload_chars: u32,
    pub authorized: Option<bool>,
    pub skip_reason: Option<String>,
}

/// The text of an optional string.
pub open spec fn text_of(o: Option<String>) -> Option<Seq<char>> {
    match o {
        Some(s) => Some(s@),
        None => None,
    }
}

/// The text of an optional string slice.
pub open spec fn str_text_of(o: Option<&'static str>) -> Option<Seq<char>> {
    match o {
        Some(s) => Some(s@),
        None => None,
    }
}

impl Default for PkcTurnView {
    fn default() -> (v: Self)
        ensures
            !v.used,
            v.state@ == pkc_health_state_name(PkcHealthState::Disabled),
            v.owner_notice is None,
            v.source_id is None,
            v.classification is None,
            v.request_id is None,
            v.payload_sha256 is None,
            v.payload_chars == 0,
            v.authorized is None,
            v.skip_reason is None,
    {
        PkcTurnView {
            used: false,
            state: PkcHealthState::Disabled.as_str().to_owned(),
            owner_notice: None,
            source_id: None,
            classification: None,
            request_id: None,
            payload_sha256: None,
            payload_chars: 0,
            authorized: None,
            skip_reason: None,
        }
    }
}

/// What a consultation produced for one turn.
#[derive(Debug, Clone)]
pub struct PkcTurnOutcome {
    pub state: PkcHealthState,
    pub used: bool,
    pub skip_reason: Option<&'static str>,
    pub evidence: Option<PkcEvidence>,
    pub owner_view: PkcTurnView,
}

/// Local defaults found on this machine, offered to the owner in Settings.
#[derive(Debug, Clone)]
pub struct PkcDiscovery {
    pub python_executable: String,
    pub bridge_script: String,
    pub pkc_root: String,
    pub source_id: String,
    pub consumer: String,
    pub purpose: String,
    pub notes: Vec<String>,
}

/// The health of the connection, without any corpus text.
#[derive(Debug, Clone)]
pub struct PkcHealthReport {
    pub state: PkcHealthState,
    pub owner_message: String,
    pub consumer: String,
    pub purpose: String,
    pub local_only: bool,
    pub python_ok: bool,
    pub bridge_ok: bool,
    pub root_ok: bool,
    pub source_configured: bool,
    pub authorized: Option<bool>,
    pub probed: bool,
    pub payload_chars: u32,
    pub payload_sha256: Option<String>,
}

/// The owner's view of a turn in which the given evidence was used.
pub open spec fn is_evidence_view(v: PkcTurnView, e: PkcEvidence, state: PkcHealthState) -> bool {
    &&& v.used
    &&& v.state@ == pkc_health_state_name(state)
    &&& v.owner_notice is None
    &&& text_of(v.source_id) == Some(e.source_id@)
    &&& text_of(v.classification) == Some(evidence_class_name(e.classification))
    &&& text_of(v.request_id) == Some(e.request_id@)
    &&& text_of(v.payload_sha256) == Some(e.payload_sha256@)
    &&& v.payload_chars == e.payload_chars
    &&& v.authorized == Some(true)
    &&& v.skip_reason is None
}

/// The owner's view of a turn built from evidence that was used.
fn view_from_evidence(evidence: &PkcEvidence, state: PkcHealthState) -> (v: PkcTurnView)
    ensures
        is_evidence_view(v, *evidence, state),
{
    PkcTurnView {
        used: true,
        state: state.as_str().to_owned(),
        owner_notice: None,
        source_id: Some(evidence.source_id.clone()),
        classification: Some(evidence.classification.as_str().to_owned()),
        request_id: Some(evidence.request_id.clone()),
        payload_sha256: Some(evidence.payload_sha256.clone()),
        payload_chars: evidence.payload_chars,
        authorized: Some(true),
        skip_reason: None,
    }
}

/// `o` is the outcome with the given state, use, skip reason and evidence,
/// whose owner view repeats them without any body and carries the state's
/// owner message exactly when `notice` holds.
pub open spec fn is_outcome(
    o: PkcTurnOutcome,
    state: PkcHealthState,
    used: bool,
    skip: Option<Seq<char>>,
    evidence: Option<PkcEvidence>,
    notice: bool,
) -> bool {
    let v = o.owner_view;
    &&& o.state == state
    &&& o.used == used
    &&& str_text_of(o.skip_reason) == skip
    &&& o.evidence == evidence
    &&& v.used == used
    &&& v.state@ == pkc_health_state_name(state)
    &&& text_of(v.owner_notice) == (if notice { Some(owner_message_text(state)) } else { None })
    &&& text_of(v.source_id) == (match evidence { Some(e) => Some(e.source_id@), None => None })
    &&& text_of(v.classification) == (match evidence {
        Some(e) => Some(evidence_class_name(e.classification)),
        None => None,
    })
    &&& text_of(v.request_id) == (match evidence { Some(e) => Some(e.request_id@), None => None })
    &&& text_of(v.payload_sha256) == (match evidence {
        Some(e) => Some(e.payload_sha256@),
        None => None,
    })
    &&& v.payload_chars == (match evidence { Some(e) => e.payload_chars, None => 0 })
    &&& v.authorized == (if used {
        Some(true)
    } else if skip == Some("unauthorized"@) {
        Some(false)
    } else {
        None
    })
    &&& text_of(v.skip_reason) == skip
}

fn opt_owned(s: Option<&'static str>) -> (r: Option<String>)
    ensures
        text_of(r) == str_text_of(s),
{
    match s {
        Some(t) => Some(t.to_owned()),
        None => None,
    }
}

fn outcome(
    state: PkcHealthState,
    used: bool,
    skip_reason: Option<&'static str>,
    evidence: Option<PkcEvidence>,
    notice: bool,
) -> (o: PkcTurnOutcome)
    ensures
        is_outcome(o, state, used, str_text_of(skip_reason), evidence, notice),
{
    let owner_notice = if notice {
        Some(state.owner_message().to_owned())
    } else {
        None
    };
    let unauthorized = match skip_reason {
        Some(s) => crate::text::str_eq(s, "unauthorized"),
        None => false,
    };
    let authorized = if used {
        Some(true)
    } else if unauthorized {
        Some(false)
    } else {
        None
    };
    let (source_id, classification, request_id, payload_sha256, payload_chars) = match &evidence {
        Some(e) => (
            Some(e.source_id.clone()),
            Some(e.classification.as_str().to_owned()),
            Some(e.request_id.clone()),
            Some(e.payload_sha256.clone()),
            e.payload_chars,
        ),
        None => (None, None, None, None, 0),
    };
    let owner_view = PkcTurnView {
        used,
        state: state.as_str().to_owned(),
        owner_notice,
        source_id,
        classification,
        request_id,
        payload_sha256,
        payload_chars,
        authorized,
        skip_reason: opt_owned(skip_reason),
    };
    PkcTurnOutcome { state, used, skip_reason, evidence, owner_view }
}

/// The outcome of a turn that is bound for the cloud: the corpus is not
/// consulted, and the owner needs no notice.
pub fn skipped_cloud_bound() -> (o: PkcTurnOutcome)
    ensures
        is_outcome(o, PkcHealthState::CloudTurnSkipped, false, Some("cloud_bound"@), None, false),
{
    outcome(PkcHealthState::CloudTurnSkipped, false, Some("cloud_bound"), None, false)
}

/// What the caller observed on this machine about the configured
/// interpreter and paths (all paths taken trimmed).
#[derive(Debug, Clone, Copy)]
pub struct PkcEnvironment {
    /// The interpreter of `python_exe` answered `--version` successfully.
    pub python_ok: bool,
    /// `python_exe` is an absolute path.
    pub python_absolute: bool,
    /// `python_exe` names an existing path.
    pub python_exists: bool,
    /// The gateway script path is absolute.
    pub bridge_absolute: bool,
    /// The gateway script path is an existing file.
    pub bridge_is_file: bool,
    /// The corpus root path is absolute.
    pub root_absolute: bool,
    /// The corpus root path is an existing directory.
    pub root_is_dir: bool,
}

/// The interpreter that runs the gateway: the configured one, trimmed, or
/// `python` when none is configured.
pub open spec fn python_exe_spec(cfg: ProviderConfig) -> Seq<char> {
    if trim_spec(cfg.pkc_python_executable@).len() == 0 {
        "python"@
    } else {
        trim_spec(cfg.pkc_python_executable@)
    }
}

/// The interpreter that runs the gateway.
pub fn python_exe(cfg: &ProviderConfig) -> (s: String)
    ensures
        s@ == python_exe_spec(*cfg),
{
    let t = trim_chars(&chars_of(cfg.pkc_python_executable.as_str()));
    if t.len() == 0 {
        "python".to_owned()
    } else {
        crate::text::string_from_chars(&t)
    }
}

fn trimmed_is_empty(s: &String) -> (r: bool)
    ensures
        r == (trim_spec(s@).len() == 0),
{
    trim_chars(&chars_of(s.as_str())).len() == 0
}

/// Why settings cannot be saved as they stand, if they cannot. Incomplete
/// settings are fine while the feature is off.
pub open spec fn settings_problem(cfg: ProviderConfig, env: PkcEnvironment) -> Option<Seq<char>> {
    if !cfg.pkc_enabled {
        None
    } else if trim_spec(cfg.pkc_source_id@).len() == 0 {
        Some("Choose a PKC source identity before enabling personal knowledge."@)
    } else if trim_spec(cfg.pkc_bridge_script@).len() == 0 {
        Some("Set the PKC bridge location before enabling personal knowledge."@)
    } else if !env.bridge_absolute {
        Some("The PKC bridge path must be an absolute file path."@)
    } else if !env.bridge_is_file {
        Some("The PKC bridge file was not found at that location."@)
    } else if trim_spec(cfg.pkc_root@).len() != 0 && !env.root_absolute {
        Some("The PKC location must be an absolute folder path."@)
    } else if trim_spec(cfg.pkc_root@).len() != 0 && !env.root_is_dir {
        Some("The PKC location was not found. It may have been moved."@)
    } else if env.python_absolute && !env.python_exists {
        Some("The Python executable was not found at that location."@)
    } else {
        None
    }
}

/// Validate settings the owner is about to save.
pub fn validate_settings(cfg: &ProviderConfig, env: &PkcEnvironment) -> (r: Result<(), String>)
    ensures
        match settings_problem(*cfg, *env) {
            None => r is Ok,
            Some(m) => r matches Err(e) && e@ == m,
        },
{
    if !cfg.pkc_enabled {
        return Ok(());
    }
    if trimmed_is_empty(&cfg.pkc_source_id) {
        return Err("Choose a PKC source identity before enabling personal knowledge.".to_owned());
    }
    if trimmed_is_empty(&cfg.pkc_bridge_script) {
        return Err("Set the PKC bridge location before enabling personal knowledge.".to_owned());
    }
    if !env.bridge_absolute {
        return Err("The PKC bridge path must be an absolute file path.".to_owned());
    }
    if !env.bridge_is_file {
        return Err("The PKC bridge file was not found at that location.".to_owned());
    }
    if !trimmed_is_empty(&cfg.pkc_root) {
        if !env.root_absolute {
            return Err("The PKC location must be an absolute folder path.".to_owned());
        }
        if !env.root_is_dir {
            return Err("The PKC location was not found. It may have been moved.".to_owned());
        }
    }
    if env.python_absolute && !env.python_exists {
        return Err("The Python executable was not found at that location.".to_owned());
    }
    Ok(())
}

/// The settings as an application error, when they cannot be saved.
pub fn validate_or_error(cfg: &ProviderConfig, env: &PkcEnvironment) -> (r: Result<(), AppError>)
    ensures
        match settings_problem(*cfg, *env) {
            None => r is Ok,
            Some(m) => r matches Err(AppError::Config(e)) && e@ == m,
        },
{
    match validate_settings(cfg, env) {
        Ok(()) => Ok(()),
        Err(m) => Err(AppError::Config(m)),
    }
}

/// The corpus root is usable: none is configured, or it is a directory.
pub open spec fn root_ok_spec(cfg: ProviderConfig, env: PkcEnvironment) -> bool {
    trim_spec(cfg.pkc_root@).len() == 0 || env.root_is_dir
}

/// The state that stops a consultation before the gateway is run, if any.
pub open spec fn preflight(cfg: ProviderConfig, env: PkcEnvironment) -> Option<PkcHealthState> {
    if trim_spec(cfg.pkc_bridge_script@).len() == 0 || trim_spec(cfg.pkc_source_id@).len() == 0 {
        Some(PkcHealthState::Misconfigured)
    } else if env.python_absolute && !env.python_ok {
        Some(PkcHealthState::PythonUnavailable)
    } else if !env.bridge_is_file {
        Some(PkcHealthState::BridgeUnavailable)
    } else if !root_ok_spec(cfg, env) {
        Some(PkcHealthState::PkcUnavailable)
    } else {
        None
    }
}

/// The state that stops a consultation before the gateway is run, if any.
pub fn preflight_state(cfg: &ProviderConfig, env: &PkcEnvironment) -> (r: Option<PkcHealthState>)
    ensures
        r == preflight(*cfg, *env),
{
    if trimmed_is_empty(&cfg.pkc_bridge_script) || trimmed_is_empty(&cfg.pkc_source_id) {
        return Some(PkcHealthState::Misconfigured);
    }
    if env.python_absolute && !env.python_ok {
        return Some(PkcHealthState::PythonUnavailable);
    }
    if !env.bridge_is_file {
        return Some(PkcHealthState::BridgeUnavailable);
    }
    if !(trimmed_is_empty(&cfg.pkc_root) || env.root_is_dir) {
        return Some(PkcHealthState::PkcUnavailable);
    }
    None
}

/// Why a gateway call produced no evidence.
#[derive(Debug, Clone, Copy, PartialEq, Eq, Structural)]
pub enum BridgeFailure {
    PythonUnavailable,
    BridgeUnavailable,
    Timeout,
    Malformed,
    Unavailable,
    Unauthorized,
    Empty,
    Bookkeeping,
}

/// The fields of the gateway's reply that the sanitization boundary reads:
/// each is the JSON value under that key when it has the expected type.
#[derive(Debug, Clone)]
pub struct BridgeResponse {
    pub bridge_version: Option<String>,
    pub ok: Option<bool>,
    pub available: Option<bool>,
    /// Present when the reply has a `payload` key.
    pub payload: Option<BridgePayload>,
}

/// The fields of the reply's `payload` that the boundary reads.
#[derive(Debug, Clone)]
pub struct BridgePayload {
    pub authorized: Option<bool>,
    pub canonical_hash_verified: Option<bool>,
    pub protected_content_materialized: Option<bool>,
    pub natural_answer: Option<String>,
    pub conversational_context: Option<String>,
}

/// The text of an optional string, empty when absent.
pub open spec fn text_or_empty(o: Option<String>) -> Seq<char> {
    match o {
        Some(s) => s@,
        None => Seq::empty(),
    }
}

/// The natural answer and the conversational context, each trimmed, joined
/// by a newline, leaving out an empty part.
pub open spec fn combined_payload(natural: Seq<char>, context: Seq<char>) -> Seq<char> {
    let n = trim_spec(natural);
    let c = trim_spec(context);
    if n.len() == 0 {
        c
    } else if c.len() == 0 {
        n
    } else {
        n + "\n"@ + c
    }
}

/// The sanitization verdict on a reply (`None` when the reply is not
/// JSON): the model-safe text, or why there is none.
pub open spec fn sanitize_verdict(parsed: Option<BridgeResponse>) -> Result<Seq<char>, BridgeFailure> {
    match parsed {
        None => Err(BridgeFailure::Malformed),
        Some(r) => if text_of(r.bridge_version) != Some("1.0.0"@) {
            Err(BridgeFailure::Malformed)
        } else if r.ok != Some(true) || r.available != Some(true) {
            Err(BridgeFailure::Unavailable)
        } else {
            match r.payload {
                None => Err(BridgeFailure::Malformed),
                Some(p) => if p.authorized != Some(true) || p.canonical_hash_verified != Some(true)
                    || p.protected_content_materialized != Some(true) {
                    Err(BridgeFailure::Unauthorized)
                } else {
                    let c = combined_payload(text_or_empty(p.natural_answer), text_or_empty(p.conversational_context));
                    if c.len() == 0 {
                        Err(BridgeFailure::Empty)
                    } else if has_bookkeeping(c) {
                        Err(BridgeFailure::Bookkeeping)
                    } else {
                        Ok(c)
                    }
                },
            }
        },
    }
}

/// Evidence whose model-safe text is `text`, classed as a stored fact,
/// authorized, with the SHA-256 of its UTF-8 bytes in lowercase hex and its
/// length in characters (modulo 2^32).
pub open spec fn is_evidence_of(e: PkcEvidence, text: Seq<char>) -> bool {
    &&& e.source_type@ == "external_pkc"@
    &&& e.classification == EvidenceClass::StoredFact
    &&& e.authorized
    &&& e.payload_sha256@ == hex_lower(sha256_digest(encode_utf8(text)))
    &&& e.payload_chars == text.len() as u32
    &&& e.model_safe_text@ == text
}

fn text_or_empty_of(o: &Option<String>) -> (r: Vec<char>)
    ensures
        r@ == text_or_empty(*o),
{
    match o {
        Some(s) => chars_of(s.as_str()),
        None => Vec::new(),
    }
}

fn combine(natural: &Option<String>, context: &Option<String>) -> (r: String)
    ensures
        r@ == combined_payload(text_or_empty(*natural), text_or_empty(*context)),
{
    let n = trim_chars(&text_or_empty_of(natural));
    let c = trim_chars(&text_or_empty_of(context));
    if n.len() == 0 {
        crate::text::string_from_chars(&c)
    } else if c.len() == 0 {
        crate::text::string_from_chars(&n)
    } else {
        let mut out = crate::text::string_from_chars(&n);
        crate::text::push_char(&mut out, '\n');
        let tail = crate::text::string_from_chars(&c);
        crate::text::push_str(&mut out, tail.as_str());
        proof {
            reveal_strlit("\n");
            assert(n@ + "\n"@ + c@ =~= n@.push('\n') + c@);
        }
        out
    }
}

/// The model-safe text keeps both trimmed parts of a payload: it opens
/// with the trimmed natural answer, ends with the trimmed conversational
/// context, adds at most one line break between them, and is empty only
/// when both trimmed parts are.
pub proof fn lemma_combined_payload_keeps_both_parts(natural: Seq<char>, context: Seq<char>)
    ensures
        ({
            let n = trim_spec(natural);
            let c = trim_spec(context);
            let t = combined_payload(natural, context);
            &&& (t.len() == 0) <==> (n.len() == 0 && c.len() == 0)
            &&& n.len() <= t.len() && t.subrange(0, n.len() as int) == n
            &&& c.len() <= t.len() && t.subrange(t.len() - c.len(), t.len() as int) == c
            &&& t.len() == n.len() + c.len() + (if n.len() > 0 && c.len() > 0 { 1int } else { 0int })
        }),
{
    let n = trim_spec(natural);
    let c = trim_spec(context);
    let t = combined_payload(natural, context);
    reveal_strlit("\n");
    if n.len() > 0 && c.len() > 0 {
        assert(t == n + "\n"@ + c);
        assert(t.subrange(0, n.len() as int) =~= n);
        assert(t.subrange(t.len() - c.len(), t.len() as int) =~= c);
    } else if n.len() == 0 {
        assert(t == c);
        assert(t.subrange(0, 0) =~= n);
        assert(t.subrange(t.len() - c.len(), t.len() as int) =~= c);
    } else {
        assert(t == n);
        assert(t.subrange(0, n.len() as int) =~= n);
        assert(t.subrange(t.len() - c.len(), t.len() as int) =~= c);
    }
}

/// An authorized, materialized, hash-verified reply of the gateway's
/// version is refused as empty exactly when both its natural answer and its
/// conversational context are blank; otherwise its evidence text (when it
/// carries no bookkeeping) holds the trimmed context whole.
pub proof fn lemma_authorized_reply_keeps_its_context(r: BridgeResponse, p: BridgePayload)
    requires
        text_of(r.bridge_version) == Some("1.0.0"@),
        r.ok == Some(true),
        r.available == Some(true),
        r.payload == Some(p),
        p.authorized == Some(true),
        p.canonical_hash_verified == Some(true),
        p.protected_content_materialized == Some(true),
    ensures
        (sanitize_verdict(Some(r)) == Err::<Seq<char>, BridgeFailure>(BridgeFailure::Empty))
            <==> (trim_spec(text_or_empty(p.natural_answer)).len() == 0
                && trim_spec(text_or_empty(p.conversational_context)).len() == 0),
        sanitize_verdict(Some(r)) matches Ok(t) ==> seq_contains(t, trim_spec(text_or_empty(p.conversational_context)))
            && seq_contains(t, trim_spec(text_or_empty(p.natural_answer))),
        trim_spec(text_or_empty(p.natural_answer)).len() == 0
            && !has_bookkeeping(trim_spec(text_or_empty(p.conversational_context)))
            && trim_spec(text_or_empty(p.conversational_context)).len() > 0
            ==> sanitize_verdict(Some(r)) == Ok::<Seq<char>, BridgeFailure>(trim_spec(text_or_empty(p.conversational_context))),
{
    let na = text_or_empty(p.natural_answer);
    let cx = text_or_empty(p.conversational_context);
    lemma_combined_payload_keeps_both_parts(na, cx);
    let t = combined_payload(na, cx);
    let n = trim_spec(na);
    let c = trim_spec(cx);
    assert(occurs_at(t, n, 0));
    assert(occurs_at(t, c, t.len() - c.len()));
    if n.len() == 0 && c.len() > 0 {
        assert(t.subrange(t.len() - c.len(), t.len() as int) == t);
        assert(t =~= c);
    }
}

/// The sanitization boundary on the fields read from a gateway reply: they
/// become authorized, bookkeeping-free evidence, or the reason they cannot.
pub fn sanitize_reply(parsed: Option<BridgeResponse>) -> (r: Result<PkcEvidence, BridgeFailure>)
    ensures
        match sanitize_verdict(parsed) {
            Ok(text) => r matches Ok(e) && is_evidence_of(e, text) && e.source_id@.len() == 0
                && e.request_id@.len() == 0,
            Err(f) => r == Err::<PkcEvidence, BridgeFailure>(f),
        },
{
    let resp = match parsed {
        None => return Err(BridgeFailure::Malformed),
        Some(r) => r,
    };
    let version_ok = match &resp.bridge_version {
        Some(v) => crate::text::str_eq(v.as_str(), BRIDGE_VERSION),
        None => false,
    };
    if !version_ok {
        return Err(BridgeFailure::Malformed);
    }
    if resp.ok != Some(true) || resp.available != Some(true) {
        return Err(BridgeFailure::Unavailable);
    }
    let payload = match resp.payload {
        None => return Err(BridgeFailure::Malformed),
        Some(p) => p,
    };
    if payload.authorized != Some(true) || payload.canonical_hash_verified != Some(true)
        || payload.protected_content_materialized != Some(true) {
        return Err(BridgeFailure::Unauthorized);
    }
    let combined = combine(&payload.natural_answer, &payload.conversational_context);
    let chars = chars_of(combined.as_str());
    if chars.len() == 0 {
        return Err(BridgeFailure::Empty);
    }
    if crate::grounding::leaks_pkc_bookkeeping(combined.as_str()) {
        return Err(BridgeFailure::Bookkeeping);
    }
    let digest = crate::crypto::digest::sha256(combined.as_str().as_bytes());
    let hash = crate::crypto::digest::hex_encode(digest.as_slice());
    let n: usize = chars.len();
    Ok(PkcEvidence {
        source_id: String::new(),
        source_type: "external_pkc",
        classification: EvidenceClass::StoredFact,
        authorized: true,
        request_id: String::new(),
        payload_sha256: hash,
        payload_chars: n as u32,
        model_safe_text: combined,
    })
}

/// The sanitized evidence of the fields read from a reply, if they yield any.
pub fn sanitized_evidence(parsed: Option<BridgeResponse>) -> (r: Option<PkcEvidence>)
    ensures
        match sanitize_verdict(parsed) {
            Ok(text) => r matches Some(e) && is_evidence_of(e, text),
            Err(_) => r is None,
        },
{
    match sanitize_reply(parsed) {
        Ok(e) => Some(e),
        Err(_) => None,
    }
}

/// The conversational text of the fields read from a reply, only when it is
/// authorized, materialized and free of bookkeeping.
pub fn conversational_payload_of_reply(parsed: Option<BridgeResponse>) -> (r: Option<String>)
    ensures
        match sanitize_verdict(parsed) {
            Ok(text) => r matches Some(s) && s@ == text,
            Err(_) => r is None,
        },
{
    match sanitized_evidence(parsed) {
        Some(e) => Some(e.model_safe_text),
        None => None,
    }
}

/// The fields that `serde_json` reads from the gateway's reply text: `None`
/// when the text is not JSON, else each field when it has the expected type
/// (a missing or mistyped field is `None`; `payload` is present when the
/// reply has that key).
pub uninterp spec fn bridge_reply_of(raw: Seq<char>) -> Option<BridgeResponse>;

/// `serde_json::from_str::<Value>` on the reply, then `as_bool`/`as_str` on
/// the keys the boundary reads.
#[verifier::external_body]
fn read_bridge_reply(raw: &str) -> (r: Option<BridgeResponse>)
    ensures
        r == bridge_reply_of(raw@),
{
    let v: serde_json::Value = serde_json::from_str(raw).ok()?;
    let payload = match v.get("payload") {
        Some(p) => Some(BridgePayload {
            authorized: p["authorized"].as_bool(),
            canonical_hash_verified: p["canonical_hash_verified"].as_bool(),
            protected_content_materialized: p["protected_content_materialized"].as_bool(),
            natural_answer: p["natural_answer"].as_str().map(str::to_owned),
            conversational_context: p["conversational_context"].as_str().map(str::to_owned),
        }),
        None => None,
    };
    let version = v["bridge_version"].as_str().map(str::to_owned);
    Some(BridgeResponse { bridge_version: version, ok: v["ok"].as_bool(), available: v["available"].as_bool(), payload })
}

/// The sanitization boundary: the gateway's reply text becomes authorized,
/// bookkeeping-free evidence, or the reason it cannot.
pub fn parse_sanitized(raw: &str) -> (r: Result<PkcEvidence, BridgeFailure>)
    ensures
        match sanitize_verdict(bridge_reply_of(raw@)) {
            Ok(text) => r matches Ok(e) && is_evidence_of(e, text) && e.source_id@.len() == 0
                && e.request_id@.len() == 0,
            Err(f) => r == Err::<PkcEvidence, BridgeFailure>(f),
        },
{
    sanitize_reply(read_bridge_reply(raw))
}

/// The sanitized evidence of a reply text, if it yields any.
pub fn sanitize_bridge_response(raw: &str) -> (r: Option<PkcEvidence>)
    ensures
        match sanitize_verdict(bridge_reply_of(raw@)) {
            Ok(text) => r matches Some(e) && is_evidence_of(e, text),
            Err(_) => r is None,
        },
{
    sanitized_evidence(read_bridge_reply(raw))
}

/// The conversational text of a reply text, only when it is authorized,
/// materialized and free of bookkeeping.
pub fn conversational_payload_from_bridge_json(raw: &str) -> (r: Option<String>)
    ensures
        match sanitize_verdict(bridge_reply_of(raw@)) {
            Ok(text) => r matches Some(s) && s@ == text,
            Err(_) => r is None,
        },
{
    conversational_payload_of_reply(read_bridge_reply(raw))
}

/// The evidence of a finished gateway call: its sanitized reply, stamped
/// with the request id and the configured source (trimmed).
pub fn evidence_from_reply(
    cfg: &ProviderConfig,
    request_id: String,
    reply: Result<String, BridgeFailure>,
) -> (r: Result<PkcEvidence, BridgeFailure>)
    ensures
        match reply {
            Err(f) => r == Err::<PkcEvidence, BridgeFailure>(f),
            Ok(raw) => match sanitize_verdict(bridge_reply_of(raw@)) {
                Ok(text) => r matches Ok(e) && is_evidence_of(e, text) && e.request_id@ == request_id@
                    && e.source_id@ == trim_spec(cfg.pkc_source_id@),
                Err(f) => r == Err::<PkcEvidence, BridgeFailure>(f),
            },
        },
{
    let raw = match reply {
        Err(f) => return Err(f),
        Ok(p) => p,
    };
    let mut evidence = match parse_sanitized(raw.as_str()) {
        Err(f) => return Err(f),
        Ok(e) => e,
    };
    evidence.request_id = request_id;
    evidence.source_id = crate::text::string_from_chars(&trim_chars(&chars_of(cfg.pkc_source_id.as_str())));
    Ok(evidence)
}

/// The state a gateway failure leaves a turn in.
pub open spec fn failure_state(f: BridgeFailure) -> PkcHealthState {
    match f {
        BridgeFailure::Unauthorized => PkcHealthState::AvailableUnauthorized,
        BridgeFailure::PythonUnavailable => PkcHealthState::PythonUnavailable,
        BridgeFailure::BridgeUnavailable => PkcHealthState::BridgeUnavailable,
        BridgeFailure::Timeout | BridgeFailure::Unavailable => PkcHealthState::PkcUnavailable,
        BridgeFailure::Empty | BridgeFailure::Bookkeeping | BridgeFailure::Malformed => PkcHealthState::Misconfigured,
    }
}

/// The skip reason recorded for a gateway failure.
pub open spec fn failure_reason(f: BridgeFailure) -> Seq<char> {
    match f {
        BridgeFailure::Unauthorized => "unauthorized"@,
        BridgeFailure::PythonUnavailable => "python_unavailable"@,
        BridgeFailure::BridgeUnavailable => "bridge_unavailable"@,
        BridgeFailure::Timeout | BridgeFailure::Unavailable => "pkc_unavailable"@,
        BridgeFailure::Empty | BridgeFailure::Bookkeeping | BridgeFailure::Malformed => "misconfigured"@,
    }
}

/// The outcome of a turn whose gateway call ended as `r`: used evidence,
/// or the failure's state and reason with a notice to the owner.
pub open spec fn is_reply_outcome(o: PkcTurnOutcome, r: Result<PkcEvidence, BridgeFailure>) -> bool {
    match r {
        Ok(e) => {
            &&& o.state == PkcHealthState::AvailableAuthorized
            &&& o.used
            &&& o.skip_reason is None
            &&& o.evidence == Some(e)
            &&& is_evidence_view(o.owner_view, e, PkcHealthState::AvailableAuthorized)
        },
        Err(f) => is_outcome(o, failure_state(f), false, Some(failure_reason(f)), None, true),
    }
}

/// The outcome of a consultation whose gateway call ended as given.
pub fn outcome_from_bridge(
    cfg: &ProviderConfig,
    request_id: String,
    reply: Result<String, BridgeFailure>,
) -> (o: PkcTurnOutcome)
    ensures
        exists|r: Result<PkcEvidence, BridgeFailure>| {
            &&& is_reply_outcome(o, r)
            &&& match reply {
                Err(f) => r == Err::<PkcEvidence, BridgeFailure>(f),
                Ok(raw) => match sanitize_verdict(bridge_reply_of(raw@)) {
                    Ok(text) => r matches Ok(e) && is_evidence_of(e, text) && e.request_id@ == request_id@
                        && e.source_id@ == trim_spec(cfg.pkc_source_id@),
                    Err(f) => r == Err::<PkcEvidence, BridgeFailure>(f),
                },
            }
        },
{
    let r = evidence_from_reply(cfg, request_id, reply);
    let o = match r {
        Ok(evidence) => {
            let view = view_from_evidence(&evidence, PkcHealthState::AvailableAuthorized);
            PkcTurnOutcome {
                state: PkcHealthState::AvailableAuthorized,
                used: true,
                skip_reason: None,
                owner_view: view,
                evidence: Some(evidence),
            }
        },
        Err(BridgeFailure::Unauthorized) => outcome(
            PkcHealthState::AvailableUnauthorized, false, Some("unauthorized"), None, true),
        Err(BridgeFailure::PythonUnavailable) => outcome(
            PkcHealthState::PythonUnavailable, false, Some("python_unavailable"), None, true),
        Err(BridgeFailure::BridgeUnavailable) => outcome(
            PkcHealthState::BridgeUnavailable, false, Some("bridge_unavailable"), None, true),
        Err(BridgeFailure::Timeout) | Err(BridgeFailure::Unavailable) => outcome(
            PkcHealthState::PkcUnavailable, false, Some("pkc_unavailable"), None, true),
        Err(BridgeFailure::Empty) | Err(BridgeFailure::Bookkeeping) | Err(BridgeFailure::Malformed) => outcome(
            PkcHealthState::Misconfigured, false, Some("misconfigured"), None, true),
    };
    assert(is_reply_outcome(o, r));
    o
}

/// A consultation either ends before the gateway is run, or asks the
/// caller to run it with this request id and time limit.
#[derive(Debug, Clone)]
pub enum PkcConsultStep {
    Finished(PkcTurnOutcome),
    InvokeBridge { request_id: String, timeout_secs: u64 },
}

/// A fresh request id: `SAMMY-PKC-` and a random UUID.
fn new_request_id() -> (s: String)
    ensures
        exists|v: u128| crate::ids::is_v4(v) && s@ == "SAMMY-PKC-"@ + crate::ids::uuid_text(v),
{
    let mut s = "SAMMY-PKC-".to_owned();
    let u = crate::ids::new_uuid_string();
    crate::text::push_str(&mut s, u.as_str());
    s
}

/// The first step of a consultation that does not judge the question:
/// nothing when the feature is off, else a retrieval-time gateway call.
pub fn consult_without_judgment(cfg: &ProviderConfig) -> (s: PkcConsultStep)
    ensures
        !cfg.pkc_enabled ==> (s matches PkcConsultStep::Finished(o)
            && is_outcome(o, PkcHealthState::Disabled, false, Some("disabled"@), None, false)),
        cfg.pkc_enabled ==> (s matches PkcConsultStep::InvokeBridge { request_id, timeout_secs }
            && timeout_secs == RETRIEVAL_TIMEOUT_SECS
            && exists|v: u128| crate::ids::is_v4(v) && request_id@ == "SAMMY-PKC-"@ + crate::ids::uuid_text(v)),
{
    if !cfg.pkc_enabled {
        return PkcConsultStep::Finished(outcome(PkcHealthState::Disabled, false, Some("disabled"), None, false));
    }
    PkcConsultStep::InvokeBridge { request_id: new_request_id(), timeout_secs: RETRIEVAL_TIMEOUT_SECS }
}

/// The first step of consulting the corpus for a turn whose local route is
/// already committed: nothing when the feature is off, when the message
/// needs no lookup, or when a preflight check fails (with a notice to the
/// owner); otherwise a gateway call.
pub fn consult_for_local_turn(cfg: &ProviderConfig, question: &str, env: &PkcEnvironment) -> (s: PkcConsultStep)
    ensures
        !cfg.pkc_enabled ==> (s matches PkcConsultStep::Finished(o)
            && is_outcome(o, PkcHealthState::Disabled, false, Some("disabled"@), None, false)),
        cfg.pkc_enabled && !retrieval_useful(question@) ==> (s matches PkcConsultStep::Finished(o)
            && is_outcome(o, PkcHealthState::RetrievalSkipped, false, Some("not_useful"@), None, false)),
        cfg.pkc_enabled && retrieval_useful(question@) && preflight(*cfg, *env) is Some ==>
            (s matches PkcConsultStep::Finished(o) && is_outcome(o, preflight(*cfg, *env)->0, false,
                Some(pkc_health_state_name(preflight(*cfg, *env)->0)), None, true)),
        cfg.pkc_enabled && retrieval_useful(question@) && preflight(*cfg, *env) is None ==>
            (s matches PkcConsultStep::InvokeBridge { request_id, timeout_secs }
            && timeout_secs == RETRIEVAL_TIMEOUT_SECS),
{
    if !cfg.pkc_enabled {
        return PkcConsultStep::Finished(outcome(PkcHealthState::Disabled, false, Some("disabled"), None, false));
    }
    if !should_retrieve_for_turn(question) {
        return PkcConsultStep::Finished(
            outcome(PkcHealthState::RetrievalSkipped, false, Some("not_useful"), None, false),
        );
    }
    match preflight_state(cfg, env) {
        Some(state) => PkcConsultStep::Finished(outcome(state, false, Some(state.as_str()), None, true)),
        None => consult_without_judgment(cfg),
    }
}

/// The first step of consulting the corpus for any turn. A turn whose
/// context may reach a cloud provider skips the corpus outright, so no
/// external knowledge can travel with it; any other turn is consulted as a
/// turn with a committed local route.
pub fn consult_for_turn(
    cfg: &ProviderConfig,
    question: &str,
    env: &PkcEnvironment,
    cloud_bound: bool,
) -> (s: PkcConsultStep)
    ensures
        cloud_bound ==> (s matches PkcConsultStep::Finished(o)
            && is_outcome(o, PkcHealthState::CloudTurnSkipped, false, Some("cloud_bound"@), None, false)),
        !cloud_bound && !cfg.pkc_enabled ==> (s matches PkcConsultStep::Finished(o)
            && is_outcome(o, PkcHealthState::Disabled, false, Some("disabled"@), None, false)),
        !cloud_bound && cfg.pkc_enabled && !retrieval_useful(question@) ==> (s matches PkcConsultStep::Finished(o)
            && is_outcome(o, PkcHealthState::RetrievalSkipped, false, Some("not_useful"@), None, false)),
        !cloud_bound && cfg.pkc_enabled && retrieval_useful(question@) && preflight(*cfg, *env) is Some ==>
            (s matches PkcConsultStep::Finished(o) && is_outcome(o, preflight(*cfg, *env)->0, false,
                Some(pkc_health_state_name(preflight(*cfg, *env)->0)), None, true)),
        !cloud_bound && cfg.pkc_enabled && retrieval_useful(question@) && preflight(*cfg, *env) is None ==>
            (s matches PkcConsultStep::InvokeBridge { request_id, timeout_secs }
            && timeout_secs == RETRIEVAL_TIMEOUT_SECS),
{
    if cloud_bound {
        PkcConsultStep::Finished(skipped_cloud_bound())
    } else {
        consult_for_local_turn(cfg, question, env)
    }
}

/// The payload a turn may hand the model: the sanitized text of used
/// evidence, or nothing.
pub fn authorized_payload_for_turn(outcome: PkcTurnOutcome) -> (r: Option<String>)
    ensures
        match outcome.evidence {
            Some(e) => r matches Some(s) && s@ == e.model_safe_text@,
            None => r is None,
        },
{
    match outcome.evidence {
        Some(e) => Some(e.model_safe_text),
        None => None,
    }
}

/// The preamble that frames a sanitized payload for the model.
pub const MODEL_SAFE_PREAMBLE: &'static str = "[personal knowledge — stored/source-backed fact]\n\
Use the block below as stored knowledge from an authorized personal corpus.\n\
Present stored facts as stored knowledge when they are supported.\n\
If referring to the owner's own words from this conversation, attribute them as testimony \
(\"You previously described…\") rather than as independently verified fact.\n\
If you reason beyond the stored evidence, frame it as inference (\"That suggests…\") — \
not as source truth.\n\
Do not invent concrete scene details (doorway, lighting, weather, facial expression, smell, \
exact sequence) as if the corpus supplied them.\n\
---\n";

/// The framing around a payload carries no bookkeeping: no line break or
/// character a marker needs beyond what its one-line markers allow.
proof fn lemma_preamble_plain()
    ensures
        forall|j: int| 0 <= j < MODEL_SAFE_PREAMBLE@.len() ==> MODEL_SAFE_PREAMBLE@[j] != '_'
            && MODEL_SAFE_PREAMBLE@[j] != 'S',
        MODEL_SAFE_PREAMBLE@.len() > 0,
        MODEL_SAFE_PREAMBLE@.last() == '\n',
{
    reveal_strlit("[personal knowledge — stored/source-backed fact]\n\
Use the block below as stored knowledge from an authorized personal corpus.\n\
Present stored facts as stored knowledge when they are supported.\n\
If referring to the owner's own words from this conversation, attribute them as testimony \
(\"You previously described…\") rather than as independently verified fact.\n\
If you reason beyond the stored evidence, frame it as inference (\"That suggests…\") — \
not as source truth.\n\
Do not invent concrete scene details (doorway, lighting, weather, facial expression, smell, \
exact sequence) as if the corpus supplied them.\n\
---\n");
}

/// The packaged context opens with the personal-knowledge heading, frames
/// testimony and inference, and ends with a `---` line and then the payload
/// itself.
pub proof fn lemma_packaged_context_frame(payload: Seq<char>)
    ensures
        (MODEL_SAFE_PREAMBLE@ + payload).subrange(0, 49) == "[personal knowledge — stored/source-backed fact]\n"@,
        seq_contains(MODEL_SAFE_PREAMBLE@ + payload, "You previously described"@),
        seq_contains(MODEL_SAFE_PREAMBLE@ + payload, "That suggests"@),
        (MODEL_SAFE_PREAMBLE@ + payload).subrange(MODEL_SAFE_PREAMBLE@.len() - 4, (MODEL_SAFE_PREAMBLE@ + payload).len() as int)
            == "---\n"@ + payload,
{
    reveal_strlit("[personal knowledge — stored/source-backed fact]\n\
Use the block below as stored knowledge from an authorized personal corpus.\n\
Present stored facts as stored knowledge when they are supported.\n\
If referring to the owner's own words from this conversation, attribute them as testimony \
(\"You previously described…\") rather than as independently verified fact.\n\
If you reason beyond the stored evidence, frame it as inference (\"That suggests…\") — \
not as source truth.\n\
Do not invent concrete scene details (doorway, lighting, weather, facial expression, smell, \
exact sequence) as if the corpus supplied them.\n\
---\n");
    reveal_strlit("[personal knowledge — stored/source-backed fact]\n");
    reveal_strlit("You previously described");
    reveal_strlit("That suggests");
    reveal_strlit("---\n");
    let pre = MODEL_SAFE_PREAMBLE@;
    let t = pre + payload;
    assert(t.subrange(0, 49) =~= "[personal knowledge — stored/source-backed fact]\n"@);
    assert(t.subrange(pre.len() - 4, t.len() as int) =~= "---\n"@ + payload);
    assert(t.subrange(283, 307) =~= "You previously described"@);
    assert(occurs_at(t, "You previously described"@, 283));
    assert(t.subrange(421, 434) =~= "That suggests"@);
    assert(occurs_at(t, "That suggests"@, 421));
}

/// Packaging adds no bookkeeping: the packaged context carries a
/// bookkeeping marker only where the sanitized payload itself does.
pub proof fn lemma_packaging_adds_no_bookkeeping(payload: Seq<char>)
    ensures
        has_bookkeeping(MODEL_SAFE_PREAMBLE@ + payload) ==> has_bookkeeping(payload),
{
    let pre = MODEL_SAFE_PREAMBLE@;
    let t = pre + payload;
    lemma_preamble_plain();
    if has_bookkeeping(t) {
        let i = choose|i: int| 0 <= i < BOOKKEEPING_MARKER_COUNT && seq_contains(t, #[trigger] bookkeeping_marker(i));
        let m = bookkeeping_marker(i);
        let p = choose|p: int| occurs_at(t, m, p);
        let j = lemma_marker_rare_char(i);
        assert(t.subrange(p, p + m.len()) == m);
        if p >= pre.len() {
            assert(payload.subrange(p - pre.len(), p - pre.len() + m.len()) =~= m) by {
                assert forall|k: int| 0 <= k < m.len() implies payload[p - pre.len() + k] == m[k] by {
                    assert(t.subrange(p, p + m.len())[k] == t[p + k]);
                }
            }
            assert(occurs_at(payload, m, p - pre.len()));
            assert(seq_contains(payload, bookkeeping_marker(i)));
        } else if p + m.len() <= pre.len() {
            assert(t.subrange(p, p + m.len())[j] == t[p + j]);
            assert(t[p + j] == pre[p + j]);
            assert(false);
        } else {
            let k = pre.len() - 1 - p;
            assert(t.subrange(p, p + m.len())[k] == t[p + k]);
            assert(t[p + k] == pre.last());
            assert(false);
        }
    }
}


/// The model-visible packaging of a sanitized payload: epistemic framing,
/// then the payload, with no bookkeeping.
pub fn package_model_safe_context(sanitized_payload: &str) -> (s: String)
    ensures
        s@ == MODEL_SAFE_PREAMBLE@ + sanitized_payload@,
{
    let mut s = MODEL_SAFE_PREAMBLE.to_owned();
    crate::text::push_str(&mut s, sanitized_payload);
    s
}

/// The audit action recorded for a turn's outcome.
pub open spec fn audit_action_name(o: PkcTurnOutcome) -> Seq<char> {
    if o.used {
        "pkc_retrieval_succeeded"@
    } else if str_text_of(o.skip_reason) == Some("cloud_bound"@) {
        "pkc_retrieval_skipped_cloud"@
    } else if str_text_of(o.skip_reason) == Some("not_useful"@) {
        "pkc_retrieval_skipped_judgment"@
    } else if str_text_of(o.skip_reason) == Some("disabled"@) {
        "pkc_retrieval_skipped_disabled"@
    } else if o.state == PkcHealthState::AvailableUnauthorized {
        "pkc_authorization_denied"@
    } else {
        "pkc_retrieval_unavailable"@
    }
}

fn reason_is(o: &PkcTurnOutcome, reason: &str) -> (r: bool)
    ensures
        r == (str_text_of(o.skip_reason) == Some(reason@)),
{
    match o.skip_reason {
        Some(s) => crate::text::str_eq(s, reason),
        None => false,
    }
}

/// The audit action recorded for a turn's outcome.
pub fn audit_action(o: &PkcTurnOutcome) -> (a: &'static str)
    ensures
        a@ == audit_action_name(*o),
{
    if o.used {
        "pkc_retrieval_succeeded"
    } else if reason_is(o, "cloud_bound") {
        "pkc_retrieval_skipped_cloud"
    } else if reason_is(o, "not_useful") {
        "pkc_retrieval_skipped_judgment"
    } else if reason_is(o, "disabled") {
        "pkc_retrieval_skipped_disabled"
    } else if o.state == PkcHealthState::AvailableUnauthorized {
        "pkc_authorization_denied"
    } else {
        "pkc_retrieval_unavailable"
    }
}

/// The question sent when probing the connection's authorization.
pub const PROBE_QUESTION: &'static str = "Authorization probe";

/// `r` reports `state` with the given message, probe facts and result,
/// always naming the consumer and purpose and always local-only.
pub open spec fn is_report(
    r: PkcHealthReport,
    cfg: ProviderConfig,
    env: PkcEnvironment,
    state: PkcHealthState,
    message: Seq<char>,
    authorized: Option<bool>,
    probed: bool,
    chars: u32,
    hash: Option<Seq<char>>,
) -> bool {
    &&& r.state == state
    &&& r.owner_message@ == message
    &&& r.consumer@ == CONSUMER_APPLICATION@
    &&& r.purpose@ == PURPOSE@
    &&& r.local_only
    &&& r.python_ok == env.python_ok
    &&& r.bridge_ok == env.bridge_is_file
    &&& r.root_ok == root_ok_spec(cfg, env)
    &&& r.source_configured == (trim_spec(cfg.pkc_source_id@).len() != 0)
    &&& r.authorized == authorized
    &&& r.probed == probed
    &&& r.payload_chars == chars
    &&& text_of(r.payload_sha256) == hash
}

fn report(
    cfg: &ProviderConfig,
    env: &PkcEnvironment,
    state: PkcHealthState,
    message: &str,
    authorized: Option<bool>,
    probed: bool,
    chars: u32,
    hash: Option<String>,
) -> (r: PkcHealthReport)
    ensures
        is_report(r, *cfg, *env, state, message@, authorized, probed, chars, text_of(hash)),
{
    PkcHealthReport {
        state,
        owner_message: message.to_owned(),
        consumer: CONSUMER_APPLICATION.to_owned(),
        purpose: PURPOSE.to_owned(),
        local_only: true,
        python_ok: env.python_ok,
        bridge_ok: env.bridge_is_file,
        root_ok: trimmed_is_empty(&cfg.pkc_root) || env.root_is_dir,
        source_configured: !trimmed_is_empty(&cfg.pkc_source_id),
        authorized,
        probed,
        payload_chars: chars,
        payload_sha256: hash,
    }
}

/// The state reported without a probe: off, the last verified state, or
/// not yet tested.
pub open spec fn unprobed_state(cfg: ProviderConfig) -> PkcHealthState {
    if !cfg.pkc_enabled {
        PkcHealthState::Disabled
    } else if cfg.pkc_last_health_state@.len() != 0 {
        match pkc_health_state_from_name(cfg.pkc_last_health_state@) {
            Some(s) => s,
            None => PkcHealthState::ConfiguredNotTested,
        }
    } else {
        PkcHealthState::ConfiguredNotTested
    }
}

/// A health check either reports at once, or asks the caller to run the
/// gateway with this request id, question and time limit.
#[derive(Debug, Clone)]
pub enum PkcHealthStep {
    Report(PkcHealthReport),
    InvokeBridge { request_id: String, question: String, timeout_secs: u64 },
}

/// A health check. Without `probe` it reports the configured or last known
/// state; with `probe` it reports a failed preflight check, or asks for an
/// authorization probe, whose reply `health_report_from_bridge` reads. No
/// report ever carries corpus text.
pub fn health_check(cfg: &ProviderConfig, probe: bool, env: &PkcEnvironment) -> (s: PkcHealthStep)
    ensures
        !probe ==> (s matches PkcHealthStep::Report(r) && is_report(r, *cfg, *env, unprobed_state(*cfg),
            owner_message_text(unprobed_state(*cfg)), None, false, 0, None)),
        probe && preflight(*cfg, *env) is Some ==> (s matches PkcHealthStep::Report(r)
            && is_report(r, *cfg, *env, preflight(*cfg, *env)->0,
                owner_message_text(preflight(*cfg, *env)->0), None, false, 0, None)),
        probe && preflight(*cfg, *env) is None ==> (s matches PkcHealthStep::InvokeBridge {
            request_id, question, timeout_secs } && question@ == PROBE_QUESTION@
            && timeout_secs == HEALTH_TIMEOUT_SECS
            && exists|v: u128| crate::ids::is_v4(v) && request_id@ == "SAMMY-PKC-"@ + crate::ids::uuid_text(v)),
{
    if !probe {
        let state = if !cfg.pkc_enabled {
            PkcHealthState::Disabled
        } else if !cfg.pkc_last_health_state.as_str().is_empty() {
            match parse_health_state(cfg.pkc_last_health_state.as_str()) {
                Some(st) => st,
                None => PkcHealthState::ConfiguredNotTested,
            }
        } else {
            PkcHealthState::ConfiguredNotTested
        };
        return PkcHealthStep::Report(report(cfg, env, state, state.owner_message(), None, false, 0, None));
    }
    match preflight_state(cfg, env) {
        Some(state) => PkcHealthStep::Report(
            report(cfg, env, state, state.owner_message(), None, false, 0, None),
        ),
        None => PkcHealthStep::InvokeBridge {
            request_id: new_request_id(),
            question: PROBE_QUESTION.to_owned(),
            timeout_secs: HEALTH_TIMEOUT_SECS,
        },
    }
}

/// The state a probe reply leaves the connection in.
pub open spec fn probe_state(r: Result<PkcEvidence, BridgeFailure>) -> PkcHealthState {
    match r {
        Ok(_) => PkcHealthState::AvailableAuthorized,
        Err(BridgeFailure::Unauthorized) => PkcHealthState::AvailableUnauthorized,
        Err(BridgeFailure::PythonUnavailable) => PkcHealthState::PythonUnavailable,
        Err(BridgeFailure::BridgeUnavailable) => PkcHealthState::BridgeUnavailable,
        Err(BridgeFailure::Unavailable) | Err(BridgeFailure::Timeout) => PkcHealthState::PkcUnavailable,
        Err(_) => PkcHealthState::Misconfigured,
    }
}

/// The message for a probe's state; an authorized answer while the feature
/// is still off invites the owner to turn it on.
pub open spec fn probe_message(cfg: ProviderConfig, state: PkcHealthState) -> Seq<char> {
    if !cfg.pkc_enabled && state == PkcHealthState::AvailableAuthorized {
        "Personal knowledge answered and is authorized. Enable it to use in local chat."@
    } else {
        owner_message_text(state)
    }
}

/// What a probe reply, sanitized as `e`, is reported as: the state of the
/// reply, whether it was authorized, and the size and hash of the payload
/// it discarded, never its text.
pub open spec fn is_probe_report(
    r: PkcHealthReport,
    cfg: ProviderConfig,
    env: PkcEnvironment,
    reply: Result<String, BridgeFailure>,
    e: Result<PkcEvidence, BridgeFailure>,
) -> bool {
    &&& match reply {
        Err(f) => e == Err::<PkcEvidence, BridgeFailure>(f),
        Ok(raw) => match sanitize_verdict(bridge_reply_of(raw@)) {
            Ok(text) => e matches Ok(ev) && is_evidence_of(ev, text),
            Err(f) => e == Err::<PkcEvidence, BridgeFailure>(f),
        },
    }
    &&& is_report(r, cfg, env, probe_state(e), probe_message(cfg, probe_state(e)),
        match e {
            Ok(_) => Some(true),
            Err(BridgeFailure::Unauthorized) => Some(false),
            Err(_) => None,
        },
        true,
        match e { Ok(ev) => ev.payload_chars, Err(_) => 0 },
        match e { Ok(ev) => Some(ev.payload_sha256@), Err(_) => None },
    )
}

/// The report of a finished authorization probe.
pub fn health_report_from_bridge(
    cfg: &ProviderConfig,
    env: &PkcEnvironment,
    request_id: String,
    reply: Result<String, BridgeFailure>,
) -> (r: PkcHealthReport)
    ensures
        exists|e: Result<PkcEvidence, BridgeFailure>| #[trigger] is_probe_report(r, *cfg, *env, reply, e),
{
    let ghost reply_g = reply;
    let e = evidence_from_reply(cfg, request_id, reply);
    let ghost e_g = e;
    let state = match &e {
        Ok(_) => PkcHealthState::AvailableAuthorized,
        Err(BridgeFailure::Unauthorized) => PkcHealthState::AvailableUnauthorized,
        Err(BridgeFailure::PythonUnavailable) => PkcHealthState::PythonUnavailable,
        Err(BridgeFailure::BridgeUnavailable) => PkcHealthState::BridgeUnavailable,
        Err(BridgeFailure::Unavailable) | Err(BridgeFailure::Timeout) => PkcHealthState::PkcUnavailable,
        Err(_) => PkcHealthState::Misconfigured,
    };
    let authorized = match &e {
        Ok(_) => Some(true),
        Err(BridgeFailure::Unauthorized) => Some(false),
        Err(_) => None,
    };
    let message = if !cfg.pkc_enabled && state == PkcHealthState::AvailableAuthorized {
        "Personal knowledge answered and is authorized. Enable it to use in local chat."
    } else {
        state.owner_message()
    };
    let r = match e {
        Ok(ev) => report(cfg, env, state, message, authorized, true, ev.payload_chars, Some(ev.payload_sha256)),
        Err(_) => report(cfg, env, state, message, authorized, true, 0, None),
    };
    assert(is_probe_report(r, *cfg, *env, reply_g, e_g));
    r
}

/// The discovery notes, in order, for whatever was not found.
pub open spec fn discovery_notes(python: Seq<char>, bridge: Seq<char>, root: Seq<char>, source_id: Seq<char>) -> Seq<Seq<char>> {
    (if python.len() == 0 { seq!["Python was not found on PATH. Install Python or set the executable."@] } else { seq![] })
    + (if bridge.len() == 0 { seq!["No PKC bridge script was found. Choose the bridge file in Settings."@] } else { seq![] })
    + (if root.len() == 0 { seq!["No PKC root folder was found. Choose the PKC folder in Settings."@] } else { seq![] })
    + (if source_id.len() == 0 {
        seq!["No source identity was discovered. Choose the source Sammy is allowed to read."@]
    } else {
        seq![]
    })
}

/// The Python executables tried in turn, as named on `PATH`.
pub open spec fn python_candidates() -> Seq<Seq<char>> {
    seq!["python"@, "py"@, "python3"@]
}

/// The first candidate found to run, or nothing.
pub open spec fn python_choice(found: Seq<bool>) -> Seq<char> {
    if found[0] {
        python_candidates()[0]
    } else if found[1] {
        python_candidates()[1]
    } else if found[2] {
        python_candidates()[2]
    } else {
        Seq::empty()
    }
}

/// The prefix of a content-addressed source identity.
pub open spec fn source_id_prefix() -> Seq<char> {
    "SRC-SHA256-"@
}

/// The first string that is a source identity, or nothing.
pub open spec fn first_source_id(strings: Seq<Seq<char>>) -> Seq<char>
    decreases strings.len(),
{
    if strings.len() == 0 {
        Seq::empty()
    } else if occurs_at(strings[0], source_id_prefix(), 0) {
        strings[0]
    } else {
        first_source_id(strings.drop_first())
    }
}

/// The source identity offered: none without a PKC root, else the first
/// identity in the root's disclosure register.
pub open spec fn discovered_source_id(root: Seq<char>, register_strings: Seq<Seq<char>>) -> Seq<char> {
    if root.len() == 0 {
        Seq::empty()
    } else {
        first_source_id(register_strings)
    }
}

/// The Python executable to offer: `python`, `py` or `python3`, the first
/// that `found` says runs, or an empty string.
pub fn pick_python(found: [bool; 3]) -> (s: String)
    ensures
        s@ == python_choice(found@),
{
    proof {
        reveal_strlit("python");
        reveal_strlit("py");
        reveal_strlit("python3");
    }
    if found[0] {
        "python".to_owned()
    } else if found[1] {
        "py".to_owned()
    } else if found[2] {
        "python3".to_owned()
    } else {
        String::new()
    }
}

/// The source identity to offer: an empty string without a PKC root, else
/// the first of the register's strings (in document order) that starts with
/// `SRC-SHA256-`, or an empty string when none does.
pub fn pick_source_id(root: &str, register_strings: &Vec<String>) -> (s: String)
    ensures
        s@ == discovered_source_id(root@, views_of(register_strings@)),
        s@.len() > 0 ==> occurs_at(s@, source_id_prefix(), 0),
{
    if root.is_empty() {
        return String::new();
    }
    let prefix = chars_of("SRC-SHA256-");
    proof {
        reveal_strlit("SRC-SHA256-");
    }
    let ghost all = views_of(register_strings@);
    proof {
        assert(all.subrange(0, all.len() as int) =~= all);
    }
    let mut i: usize = 0;
    while i < register_strings.len()
        invariant
            i <= register_strings@.len(),
            all == views_of(register_strings@),
            prefix@ == source_id_prefix(),
            root@.len() > 0,
            first_source_id(all) == first_source_id(all.subrange(i as int, all.len() as int)),
        decreases register_strings@.len() - i,
    {
        let candidate = &register_strings[i];
        let cs = chars_of(candidate.as_str());
        proof {
            let rest = all.subrange(i as int, all.len() as int);
            assert(rest[0] == candidate@);
            assert(rest.drop_first() =~= all.subrange(i + 1, all.len() as int));
        }
        if matches_at(&cs, &prefix, 0) {
            proof {
                let rest = all.subrange(i as int, all.len() as int);
                assert(occurs_at(rest[0], source_id_prefix(), 0));
                assert(first_source_id(rest) == rest[0]);
            }
            return owned(candidate.as_str());
        }
        i = i + 1;
    }
    proof {
        assert(all.subrange(i as int, all.len() as int) =~= Seq::<Seq<char>>::empty());
    }
    String::new()
}

/// Local defaults offered in Settings: the first Python candidate that runs
/// (`found`, in the order `python`, `py`, `python3`), the bridge script and
/// PKC root found (an empty string where none was), the first source
/// identity among the strings of the root's disclosure register, and a note
/// for each missing piece.
pub fn discover_defaults(found: [bool; 3], bridge: String, root: String, register_strings: Vec<String>) -> (d: PkcDiscovery)
    ensures
        d.python_executable@ == python_choice(found@),
        d.bridge_script@ == bridge@,
        d.pkc_root@ == root@,
        d.source_id@ == discovered_source_id(root@, views_of(register_strings@)),
        d.source_id@.len() > 0 ==> occurs_at(d.source_id@, source_id_prefix(), 0),
        d.consumer@ == CONSUMER_APPLICATION@,
        d.purpose@ == PURPOSE@,
        d.notes@.len() == discovery_notes(d.python_executable@, bridge@, root@, d.source_id@).len(),
        forall|i: int| 0 <= i < d.notes@.len() ==> #[trigger] d.notes@[i]@
            == discovery_notes(d.python_executable@, bridge@, root@, d.source_id@)[i],
{
    let python = pick_python(found);
    let source_id = pick_source_id(root.as_str(), &register_strings);
    let mut notes: Vec<String> = Vec::new();
    let ghost expected = discovery_notes(python@, bridge@, root@, source_id@);
    if python.as_str().is_empty() {
        notes.push("Python was not found on PATH. Install Python or set the executable.".to_owned());
    }
    if bridge.as_str().is_empty() {
        notes.push("No PKC bridge script was found. Choose the bridge file in Settings.".to_owned());
    }
    if root.as_str().is_empty() {
        notes.push("No PKC root folder was found. Choose the PKC folder in Settings.".to_owned());
    }
    if source_id.as_str().is_empty() {
        notes.push("No source identity was discovered. Choose the source Sammy is allowed to read.".to_owned());
    }
    PkcDiscovery {
        python_executable: python,
        bridge_script: bridge,
        pkc_root: root,
        source_id,
        consumer: CONSUMER_APPLICATION.to_owned(),
        purpose: PURPOSE.to_owned(),
        notes,
    }
}

/// The checks made before the gateway is launched, from what the machine
/// shows: the script must be an existing file named by an absolute path,
/// and an interpreter named by an absolute path must exist.
pub fn bridge_launch_check(bridge_absolute: bool, bridge_is_file: bool, python_absolute: bool, python_exists: bool) -> (r: Result<(), BridgeFailure>)
    ensures
        !(bridge_absolute && bridge_is_file) ==> r == Err::<(), BridgeFailure>(BridgeFailure::BridgeUnavailable),
        bridge_absolute && bridge_is_file && python_absolute && !python_exists
            ==> r == Err::<(), BridgeFailure>(BridgeFailure::PythonUnavailable),
        bridge_absolute && bridge_is_file && !(python_absolute && !python_exists) ==> r is Ok,
{
    if !bridge_absolute || !bridge_is_file {
        return Err(BridgeFailure::BridgeUnavailable);
    }
    if python_absolute && !python_exists {
        return Err(BridgeFailure::PythonUnavailable);
    }
    Ok(())
}

/// The request document sent to the gateway, as (key, text) fields: a
/// read-only protected retrieval for this consumer and purpose, with the
/// question, the request id and the configured source identity (trimmed).
pub open spec fn bridge_request(source_id: Seq<char>, question: Seq<char>, request_id: Seq<char>) -> Seq<(Seq<char>, Seq<char>)> {
    seq![
        ("bridge_version"@, BRIDGE_VERSION@),
        ("request_id"@, request_id),
        ("operation"@, "protected_retrieval"@),
        ("question"@, question),
        ("chapter_context"@, "Personal question — Sammy read-only PKC consult"@),
        ("consumer_application"@, CONSUMER_APPLICATION@),
        ("recipient_class"@, "owner_dave"@),
        ("realm"@, "private_autobiographical_interview"@),
        ("purpose"@, PURPOSE@),
        ("disclosure_mode"@, "private_local"@),
        ("requested_content_level"@, "full_text"@),
        ("consent_state"@, "standing_authorization"@),
        ("source_id"@, trim_spec(source_id)),
    ]
}

fn request_field(fields: &mut Vec<(String, String)>, key: &str, value: &str)
    ensures
        final(fields)@.len() == old(fields)@.len() + 1,
        forall|i: int| 0 <= i < old(fields)@.len() ==> final(fields)@[i] == old(fields)@[i],
        final(fields)@[old(fields)@.len() as int].0@ == key@,
        final(fields)@[old(fields)@.len() as int].1@ == value@,
{
    fields.push((owned(key), owned(value)));
}

/// The fields of the gateway request, in order.
pub fn bridge_request_fields(cfg: &ProviderConfig, question: &str, request_id: &str) -> (f: Vec<(String, String)>)
    ensures
        f@.len() == bridge_request(cfg.pkc_source_id@, question@, request_id@).len(),
        forall|i: int| 0 <= i < f@.len() ==> (#[trigger] f@[i]).0@ == bridge_request(cfg.pkc_source_id@, question@, request_id@)[i].0
            && f@[i].1@ == bridge_request(cfg.pkc_source_id@, question@, request_id@)[i].1,
{
    let source = string_from_chars(&trim_chars(&chars_of(cfg.pkc_source_id.as_str())));
    let mut f: Vec<(String, String)> = Vec::new();
    request_field(&mut f, "bridge_version", BRIDGE_VERSION);
    request_field(&mut f, "request_id", request_id);
    request_field(&mut f, "operation", "protected_retrieval");
    request_field(&mut f, "question", question);
    request_field(&mut f, "chapter_context", "Personal question — Sammy read-only PKC consult");
    request_field(&mut f, "consumer_application", CONSUMER_APPLICATION);
    request_field(&mut f, "recipient_class", "owner_dave");
    request_field(&mut f, "realm", "private_autobiographical_interview");
    request_field(&mut f, "purpose", PURPOSE);
    request_field(&mut f, "disclosure_mode", "private_local");
    request_field(&mut f, "requested_content_level", "full_text");
    request_field(&mut f, "consent_state", "standing_authorization");
    request_field(&mut f, "source_id", source.as_str());
    f
}

} // verus!

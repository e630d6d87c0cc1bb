//! Memory candidates: conversation content never becomes durable memory on
//! its own; the owner reviews every candidate, and only approved candidates
//! reach retrieval.

use vstd::prelude::*;
use crate::knowledge::{RecordType, Sensitivity};
use crate::error::AppError;
use crate::text::{chars_of, is_unicode_ws, is_whitespace};

verus! {

/// The review state of a memory candidate.
#[derive(Debug, Clone, Copy, PartialEq, Eq, Structural)]
pub enum CandidateState {
    Pending,
    Approved,
    Rejected,
    Deferred,
    Temporary,
}

/// The stable string form of each [`CandidateState`].
pub open spec fn candidate_state_name(x: CandidateState) -> Seq<char> {
    match x {
        CandidateState::Pending => "pending"@,
        CandidateState::Approved => "approved"@,
        CandidateState::Rejected => "rejected"@,
        CandidateState::Deferred => "deferred"@,
        CandidateState::Temporary => "temporary"@,
    }
}

/// The [`CandidateState`] whose string form is `s`, if any.
pub open spec fn candidate_state_from_name(s: Seq<char>) -> Option<CandidateState> {
    if s == "pending"@ {
        Some(CandidateState::Pending)
    } else if s == "approved"@ {
        Some(CandidateState::Approved)
    } else if s == "rejected"@ {
        Some(CandidateState::Rejected)
    } else if s == "deferred"@ {
        Some(CandidateState::Deferred)
    } else if s == "temporary"@ {
        Some(CandidateState::Temporary)
    } else {
        None
    }
}

impl CandidateState {
    /// The stable string form.
    pub fn as_str(self) -> (s: &'static str)
        ensures
            s@ == candidate_state_name(self),
    {
        match self {
            CandidateState::Pending => "pending",
            CandidateState::Approved => "approved",
            CandidateState::Rejected => "rejected",
            CandidateState::Deferred => "deferred",
            CandidateState::Temporary => "temporary",
        }
    }

    /// Parse the stable string form.
    pub fn parse(s: &str) -> (r: Option<Self>)
        ensures
            r == candidate_state_from_name(s@),
    {
        if crate::text::str_eq(s, "pending") {
            Some(CandidateState::Pending)
        } else if crate::text::str_eq(s, "approved") {
            Some(CandidateState::Approved)
        } else if crate::text::str_eq(s, "rejected") {
            Some(CandidateState::Rejected)
        } else if crate::text::str_eq(s, "deferred") {
            Some(CandidateState::Deferred)
        } else if crate::text::str_eq(s, "temporary") {
            Some(CandidateState::Temporary)
        } else {
            None
        }
    }
}

/// Parsing the string form of a [`CandidateState`] gives it back.
pub proof fn lemma_candidate_state_round_trip(x: CandidateState)
    ensures
        candidate_state_from_name(candidate_state_name(x)) == Some(x),
{
    match x {
        CandidateState::Pending => {
            reveal_strlit("pending");
        },
        CandidateState::Approved => {
            reveal_strlit("approved");
            reveal_strlit("pending");
            assert("approved"@.len() != "pending"@.len());
        },
        CandidateState::Rejected => {
            reveal_strlit("rejected");
            reveal_strlit("pending");
            assert("rejected"@.len() != "pending"@.len());
            reveal_strlit("approved");
            assert("rejected"@[0] != "approved"@[0]);
        },
        CandidateState::Deferred => {
            reveal_strlit("deferred");
            reveal_strlit("pending");
            assert("deferred"@.len() != "pending"@.len());
            reveal_strlit("approved");
            assert("deferred"@[0] != "approved"@[0]);
            reveal_strlit("rejected");
            assert("deferred"@[0] != "rejected"@[0]);
        },
        CandidateState::Temporary => {
            reveal_strlit("temporary");
            reveal_strlit("pending");
            assert("temporary"@.len() != "pending"@.len());
            reveal_strlit("approved");
            assert("temporary"@.len() != "approved"@.len());
            reveal_strlit("rejected");
            assert("temporary"@.len() != "rejected"@.len());
            reveal_strlit("deferred");
            assert("temporary"@.len() != "deferred"@.len());
        },
    }
}

impl CandidateState {
    /// Whether a candidate in this state may appear in retrieval: only
    /// approved ones.
    pub fn is_retrievable(self) -> (b: bool)
        ensures
            b == (self == CandidateState::Approved),
    {
        match self {
            CandidateState::Approved => true,
            _ => false,
        }
    }
}

/// Result of an explicit owner keep action.
#[derive(Debug, Clone)]
pub struct KeepResult {
    pub candidate_id: String,
    pub created: bool,
    pub duplicate: bool,
    pub already_durable: bool,
    pub conflict_record_id: Option<String>,
}

/// Default origin of a candidate.
pub fn origin_conversation() -> (s: String)
    ensures
        s@ == "conversation"@,
{
    crate::text::owned("conversation")
}

/// The canonical epistemic class named by (trimmed) `raw`.
pub open spec fn epistemic_class_of(raw: Seq<char>) -> Option<Seq<char>> {
    let t = crate::text::trim_spec(raw);
    if t == "stored_fact"@ || t == "fact"@ {
        Some("stored_fact"@)
    } else if t == "testimony"@ {
        Some("testimony"@)
    } else if t == "inference"@ {
        Some("inference"@)
    } else {
        None
    }
}

/// Parse an epistemic class: `stored_fact` (or `fact`), `testimony`,
/// `inference`; surrounding whitespace is ignored.
pub fn parse_epistemic_class(raw: &str) -> (r: Option<&'static str>)
    ensures
        match epistemic_class_of(raw@) {
            Some(c) => r matches Some(s) && s@ == c,
            None => r is None,
        },
{
    let t = crate::text::trim_chars(&crate::text::chars_of(raw));
    let sf = crate::text::chars_of("stored_fact");
    let f = crate::text::chars_of("fact");
    let te = crate::text::chars_of("testimony");
    let inf = crate::text::chars_of("inference");
    if crate::text::chars_eq(&t, &sf) || crate::text::chars_eq(&t, &f) {
        Some("stored_fact")
    } else if crate::text::chars_eq(&t, &te) {
        Some("testimony")
    } else if crate::text::chars_eq(&t, &inf) {
        Some("inference")
    } else {
        None
    }
}

/// The record type an approved candidate of this class becomes: testimony
/// becomes a quote, inference a conclusion, anything else a fact.
pub open spec fn record_type_for(class: Option<Seq<char>>) -> RecordType {
    match class {
        Some(c) => if c == "testimony"@ {
            RecordType::Quote
        } else if c == "inference"@ {
            RecordType::Conclusion
        } else {
            RecordType::Fact
        },
        None => RecordType::Fact,
    }
}

pub fn record_type_for_class(class: Option<&str>) -> (t: RecordType)
    ensures
        t == record_type_for(
            match class {
                Some(c) => Some(c@),
                None => None,
            },
        ),
{
    match class {
        Some(c) => {
            if crate::text::str_eq(c, "testimony") {
                RecordType::Quote
            } else if crate::text::str_eq(c, "inference") {
                RecordType::Conclusion
            } else {
                RecordType::Fact
            }
        },
        None => RecordType::Fact,
    }
}

/// `s` with every run of whitespace collapsed to one space and none left
/// at either end: its whitespace-separated words joined by single spaces.
pub open spec fn collapse_ws(s: Seq<char>) -> Seq<char>
    decreases s.len(),
{
    if s.len() == 0 {
        Seq::empty()
    } else if is_unicode_ws(s.last()) {
        collapse_ws(s.drop_last())
    } else if s.len() >= 2 && is_unicode_ws(s[s.len() - 2]) && collapse_ws(s.drop_last()).len() > 0 {
        collapse_ws(s.drop_last()).push(' ').push(s.last())
    } else {
        collapse_ws(s.drop_last()).push(s.last())
    }
}

/// The words of `text` joined by single spaces.
pub fn normalize_text(text: &str) -> (r: String)
    ensures
        r@ == collapse_ws(text@),
{
    let cs = chars_of(text);
    let mut out = String::new();
    let mut i: usize = 0;
    while i < cs.len()
        invariant
            i <= cs@.len(),
            cs@ == text@,
            out@ == collapse_ws(cs@.take(i as int)),
        decreases cs@.len() - i,
    {
        let c = cs[i];
        proof {
            assert(cs@.take(i + 1).drop_last() =~= cs@.take(i as int));
            assert(cs@.take(i + 1).last() == c);
            if i >= 1 {
                assert(cs@.take(i + 1)[i - 1] == cs@[i - 1]);
            }
        }
        if !is_whitespace(c) {
            if i > 0 && is_whitespace(cs[i - 1]) && !out.as_str().is_empty() {
                crate::text::push_char(&mut out, ' ');
            }
            crate::text::push_char(&mut out, c);
        }
        i = i + 1;
    }
    proof {
        assert(cs@.take(cs@.len() as int) =~= cs@);
    }
    out
}

/// The longest statement, in characters, that may be kept for review.
pub const MAX_KEEP_CHARS: usize = 2000;

/// Why a statement cannot be kept for review, if it cannot; else the
/// normalized statement and its canonical epistemic class.
pub open spec fn keep_check(proposed_text: Seq<char>, epistemic_class: Seq<char>) -> Result<(Seq<char>, Seq<char>), Seq<char>> {
    let text = collapse_ws(proposed_text);
    if text.len() == 0 {
        Err("Write the statement you want to review before adding it."@)
    } else if text.len() > MAX_KEEP_CHARS {
        Err("Keep a short statement, not the whole source."@)
    } else if crate::grounding::has_bookkeeping(text) {
        Err("That text still contains internal bookkeeping and cannot be saved."@)
    } else {
        match epistemic_class_of(epistemic_class) {
            None => Err("Choose whether this is stored knowledge, something you described, or a suggestion."@),
            Some(c) => Ok((text, c)),
        }
    }
}

/// Check a statement the owner asked to keep from a grounded turn: it is
/// normalized, must be non-empty, short, free of bookkeeping, and of a
/// known epistemic class.
pub fn check_keep_statement(proposed_text: &str, epistemic_class: &str) -> (r: Result<(String, &'static str), AppError>)
    ensures
        match keep_check(proposed_text@, epistemic_class@) {
            Ok((text, class)) => r matches Ok((t, c)) && t@ == text && c@ == class,
            Err(m) => r matches Err(AppError::Config(e)) && e@ == m,
        },
{
    let text = normalize_text(proposed_text);
    let n = chars_of(text.as_str()).len();
    if n == 0 {
        return Err(AppError::Config("Write the statement you want to review before adding it.".to_owned()));
    }
    if n > MAX_KEEP_CHARS {
        return Err(AppError::Config("Keep a short statement, not the whole source.".to_owned()));
    }
    if crate::grounding::leaks_pkc_bookkeeping(text.as_str()) {
        return Err(AppError::Config(
            "That text still contains internal bookkeeping and cannot be saved.".to_owned(),
        ));
    }
    match parse_epistemic_class(epistemic_class) {
        None => Err(AppError::Config(
            "Choose whether this is stored knowledge, something you described, or a suggestion.".to_owned(),
        )),
        Some(c) => Ok((text, c)),
    }
}

/// The review reason recorded for a kept statement of this class.
pub open spec fn keep_reason_text(class: Seq<char>) -> Seq<char> {
    if class == "testimony"@ {
        "Owner asked to review something they previously described."@
    } else if class == "inference"@ {
        "Owner asked to review a suggestion, not stored fact."@
    } else {
        "Owner asked to review stored personal knowledge from PKC."@
    }
}

/// The review reason recorded for a kept statement of this class.
pub fn keep_reason(class: &str) -> (r: &'static str)
    ensures
        r@ == keep_reason_text(class@),
{
    if crate::text::str_eq(class, "testimony") {
        "Owner asked to review something they previously described."
    } else if crate::text::str_eq(class, "inference") {
        "Owner asked to review a suggestion, not stored fact."
    } else {
        "Owner asked to review stored personal knowledge from PKC."
    }
}

/// The answer to a keep request that repeats an existing pending candidate
/// or durable record: nothing new is created.
pub fn duplicate_keep(existing_id: String, already_durable: bool) -> (k: KeepResult)
    ensures
        k.candidate_id@ == existing_id@,
        !k.created,
        k.duplicate,
        k.already_durable == already_durable,
        k.conflict_record_id is None,
{
    KeepResult { candidate_id: existing_id, created: false, duplicate: true, already_durable, conflict_record_id: None }
}

/// A keep action needs an answer that used personal knowledge: its stored
/// provenance (`None` when there is none) must say it was used.
pub fn require_grounded_answer(provenance_used: Option<bool>) -> (r: Result<(), AppError>)
    ensures
        provenance_used == Some(true) ==> r is Ok,
        provenance_used != Some(true) ==> (r matches Err(AppError::Config(m))
            && m@ == "This answer did not use personal knowledge."@),
{
    match provenance_used {
        Some(true) => Ok(()),
        _ => Err(AppError::Config("This answer did not use personal knowledge.".to_owned())),
    }
}

/// The first entry, of (id, text) pairs in list order, whose normalized
/// text is `text`.
pub open spec fn first_same_text(pending: Seq<(Seq<char>, Seq<char>)>, text: Seq<char>) -> Option<Seq<char>>
    decreases pending.len(),
{
    if pending.len() == 0 {
        None
    } else if collapse_ws(pending[0].1) == text {
        Some(pending[0].0)
    } else {
        first_same_text(pending.drop_first(), text)
    }
}

/// The views of (id, text) pairs.
pub open spec fn pair_views(v: Seq<(String, String)>) -> Seq<(Seq<char>, Seq<char>)> {
    v.map_values(|p: (String, String)| (p.0@, p.1@))
}

/// The entry that already holds a statement (a pending candidate by its
/// proposed text, or a current record by its canonical text): the first
/// whose text, normalized, is the statement.
pub fn first_with_same_text(pending: &Vec<(String, String)>, text: &str) -> (r: Option<String>)
    ensures
        match first_same_text(pair_views(pending@), text@) {
            Some(id) => r matches Some(s) && s@ == id,
            None => r is None,
        },
{
    let ghost all = pair_views(pending@);
    proof {
        assert(all.subrange(0, all.len() as int) =~= all);
    }
    let mut i: usize = 0;
    while i < pending.len()
        invariant
            i <= pending@.len(),
            all == pair_views(pending@),
            first_same_text(all, text@) == first_same_text(all.subrange(i as int, all.len() as int), text@),
        decreases pending@.len() - i,
    {
        let ghost rest = all.subrange(i as int, all.len() as int);
        proof {
            assert(rest[0] == (pending@[i as int].0@, pending@[i as int].1@));
            assert(rest.drop_first() =~= all.subrange(i + 1, all.len() as int));
        }
        let normalized = normalize_text(pending[i].1.as_str());
        if crate::text::str_eq(normalized.as_str(), text) {
            return Some(crate::text::owned(pending[i].0.as_str()));
        }
        i = i + 1;
    }
    proof {
        assert(all.subrange(i as int, all.len() as int) =~= Seq::<(Seq<char>, Seq<char>)>::empty());
    }
    None
}

/// How a keep action found its statement already kept.
#[derive(Debug, Clone, Copy, PartialEq, Eq, Structural)]
pub enum DuplicateKind {
    /// A pending candidate for the same message.
    PendingForMessage,
    /// A durable knowledge record with the same text.
    AlreadyDurable,
    /// A pending candidate with the same text.
    PendingSameText,
}

impl DuplicateKind {
    /// The reason recorded in the audit trail.
    pub fn reason(self) -> (s: &'static str)
        ensures
            self == DuplicateKind::PendingForMessage ==> s@ == "pending_for_message"@,
            self == DuplicateKind::AlreadyDurable ==> s@ == "already_durable"@,
            self == DuplicateKind::PendingSameText ==> s@ == "pending_same_text"@,
    {
        match self {
            DuplicateKind::PendingForMessage => "pending_for_message",
            DuplicateKind::AlreadyDurable => "already_durable",
            DuplicateKind::PendingSameText => "pending_same_text",
        }
    }
}

/// What a grounded keep action does.
#[derive(Debug, Clone)]
pub enum KeepStep {
    /// Answer with the existing candidate or record of this id.
    Duplicate(String, DuplicateKind),
    /// Propose a new candidate.
    Create,
}

/// The keep action's precedence among existing entries: a pending candidate
/// for the same message, then a durable record with the same text, then a
/// pending candidate with the same text; only when there is none is a new
/// candidate proposed.
pub fn keep_step(
    pending_for_message: Option<String>,
    durable_same_text: Option<String>,
    pending_same_text: Option<String>,
) -> (s: KeepStep)
    ensures
        match pending_for_message {
            Some(id) => s matches KeepStep::Duplicate(x, k) && x@ == id@ && k == DuplicateKind::PendingForMessage,
            None => match durable_same_text {
                Some(id) => s matches KeepStep::Duplicate(x, k) && x@ == id@ && k == DuplicateKind::AlreadyDurable,
                None => match pending_same_text {
                    Some(id) => s matches KeepStep::Duplicate(x, k) && x@ == id@ && k == DuplicateKind::PendingSameText,
                    None => s is Create,
                },
            },
        },
{
    match pending_for_message {
        Some(id) => KeepStep::Duplicate(id, DuplicateKind::PendingForMessage),
        None => match durable_same_text {
            Some(id) => KeepStep::Duplicate(id, DuplicateKind::AlreadyDurable),
            None => match pending_same_text {
                Some(id) => KeepStep::Duplicate(id, DuplicateKind::PendingSameText),
                None => KeepStep::Create,
            },
        },
    }
}

/// The answer to a keep request that found its statement already kept: a
/// durable record counts as already durable.
pub fn duplicate_keep_of(id: String, kind: DuplicateKind) -> (k: KeepResult)
    ensures
        k.candidate_id@ == id@,
        !k.created,
        k.duplicate,
        k.already_durable == (kind == DuplicateKind::AlreadyDurable),
        k.conflict_record_id is None,
{
    let durable = match kind {
        DuplicateKind::AlreadyDurable => true,
        _ => false,
    };
    duplicate_keep(id, durable)
}

/// The answer to a keep request that created a new candidate, possibly in
/// conflict with an existing record.
pub fn created_keep(candidate_id: String, conflict_record_id: Option<String>) -> (k: KeepResult)
    ensures
        k.candidate_id@ == candidate_id@,
        k.created,
        !k.duplicate,
        !k.already_durable,
        k.conflict_record_id == conflict_record_id,
{
    KeepResult { candidate_id, created: true, duplicate: false, already_durable: false, conflict_record_id }
}

/// Approving `text` for a candidate first proposed as `original` counts as
/// an owner edit when their normalized forms differ.
pub fn owner_edited(text: &str, original: &str) -> (r: bool)
    ensures
        r == (collapse_ws(text@) != collapse_ws(original@)),
{
    let a = chars_of(normalize_text(text).as_str());
    let b = chars_of(normalize_text(original).as_str());
    !crate::text::chars_eq(&a, &b)
}

/// Knowledge approved from the external corpus stays local-only; anything
/// else is normal.
pub fn approval_sensitivity(origin: &str) -> (s: Sensitivity)
    ensures
        s == (if origin@ == "external_pkc"@ { Sensitivity::LocalOnly } else { Sensitivity::Normal }),
{
    if crate::text::str_eq(origin, "external_pkc") {
        Sensitivity::LocalOnly
    } else {
        Sensitivity::Normal
    }
}

/// The sources an approved record cites: the candidate's external source,
/// when it has a non-blank one.
pub fn approval_source_ids(pkc_source_id: &Option<String>) -> (v: Vec<String>)
    ensures
        match pkc_source_id {
            Some(src) => if crate::text::trim_spec(src@).len() == 0 {
                v@.len() == 0
            } else {
                v@.len() == 1 && v@[0]@ == src@
            },
            None => v@.len() == 0,
        },
{
    let mut v: Vec<String> = Vec::new();
    if let Some(src) = pkc_source_id {
        if crate::text::trim_chars(&chars_of(src.as_str())).len() != 0 {
            v.push(src.clone());
        }
    }
    v
}


/// An approved record conflicts with a kept statement from the same source
/// when its source list names that source and it says something else.
pub open spec fn conflicting(source_ids_json: Seq<char>, source_id: Seq<char>, canonical: Seq<char>, text: Seq<char>) -> bool {
    crate::text::seq_contains(source_ids_json, source_id) && collapse_ws(canonical) != text
}

/// Whether a current record (its stored source list as JSON text, and its
/// text) conflicts with a statement kept from `source_id`.
pub fn conflicts_with(source_ids_json: &str, source_id: &str, canonical: &str, text: &str) -> (r: bool)
    ensures
        r == conflicting(source_ids_json@, source_id@, canonical@, text@),
{
    let listed = crate::text::contains_chars(&chars_of(source_ids_json), &chars_of(source_id));
    let same = crate::text::chars_eq(&chars_of(normalize_text(canonical).as_str()), &chars_of(text));
    listed && !same
}

} // verus!

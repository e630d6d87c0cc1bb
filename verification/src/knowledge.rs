//! Curated knowledge record vocabulary: record types, review states and
//! sensitivity. Only approved and disputed records count as current truth.

use vstd::prelude::*;

verus! {

/// Knowledge record types.
#[derive(Debug, Clone, Copy, PartialEq, Eq, Structural)]
pub enum RecordType {
    Fact,
    Claim,
    Conclusion,
    Preference,
    Person,
    Relationship,
    Event,
    Place,
    Project,
    Decision,
    Commitment,
    Routine,
    Skill,
    Belief,
    Quote,
    SourceSummary,
    MemoryCandidate,
    Correction,
}

/// The stable string form of each [`RecordType`].
pub open spec fn record_type_name(x: RecordType) -> Seq<char> {
    match x {
        RecordType::Fact => "fact"@,
        RecordType::Claim => "claim"@,
        RecordType::Conclusion => "conclusion"@,
        RecordType::Preference => "preference"@,
        RecordType::Person => "person"@,
        RecordType::Relationship => "relationship"@,
        RecordType::Event => "event"@,
        RecordType::Place => "place"@,
        RecordType::Project => "project"@,
        RecordType::Decision => "decision"@,
        RecordType::Commitment => "commitment"@,
        RecordType::Routine => "routine"@,
        RecordType::Skill => "skill"@,
        RecordType::Belief => "belief"@,
        RecordType::Quote => "quote"@,
        RecordType::SourceSummary => "source_summary"@,
        RecordType::MemoryCandidate => "memory_candidate"@,
        RecordType::Correction => "correction"@,
    }
}

/// The [`RecordType`] whose string form is `s`, if any.
pub open spec fn record_type_from_name(s: Seq<char>) -> Option<RecordType> {
    if s == "fact"@ {
        Some(RecordType::Fact)
    } else if s == "claim"@ {
        Some(RecordType::Claim)
    } else if s == "conclusion"@ {
        Some(RecordType::Conclusion)
    } else if s == "preference"@ {
        Some(RecordType::Preference)
    } else if s == "person"@ {
        Some(RecordType::Person)
    } else if s == "relationship"@ {
        Some(RecordType::Relationship)
    } else if s == "event"@ {
        Some(RecordType::Event)
    } else if s == "place"@ {
        Some(RecordType::Place)
    } else if s == "project"@ {
        Some(RecordType::Project)
    } else if s == "decision"@ {
        Some(RecordType::Decision)
    } else if s == "commitment"@ {
        Some(RecordType::Commitment)
    } else if s == "routine"@ {
        Some(RecordType::Routine)
    } else if s == "skill"@ {
        Some(RecordType::Skill)
    } else if s == "belief"@ {
        Some(RecordType::Belief)
    } else if s == "quote"@ {
        Some(RecordType::Quote)
    } else if s == "source_summary"@ {
        Some(RecordType::SourceSummary)
    } else if s == "memory_candidate"@ {
        Some(RecordType::MemoryCandidate)
    } else if s == "correction"@ {
        Some(RecordType::Correction)
    } else {
        None
    }
}

impl RecordType {
    /// The stable string form.
    pub fn as_str(self) -> (s: &'static str)
        ensures
            s@ == record_type_name(self),
    {
        match self {
            RecordType::Fact => "fact",
            RecordType::Claim => "claim",
            RecordType::Conclusion => "conclusion",
            RecordType::Preference => "preference",
            RecordType::Person => "person",
            RecordType::Relationship => "relationship",
            RecordType::Event => "event",
            RecordType::Place => "place",
            RecordType::Project => "project",
            RecordType::Decision => "decision",
            RecordType::Commitment => "commitment",
            RecordType::Routine => "routine",
            RecordType::Skill => "skill",
            RecordType::Belief => "belief",
            RecordType::Quote => "quote",
            RecordType::SourceSummary => "source_summary",
            RecordType::MemoryCandidate => "memory_candidate",
            RecordType::Correction => "correction",
        }
    }

    /// Parse the stable string form.
    pub fn parse(s: &str) -> (r: Option<Self>)
        ensures
            r == record_type_from_name(s@),
    {
        if crate::text::str_eq(s, "fact") {
            Some(RecordType::Fact)
        } else if crate::text::str_eq(s, "claim") {
            Some(RecordType::Claim)
        } else if crate::text::str_eq(s, "conclusion") {
            Some(RecordType::Conclusion)
        } else if crate::text::str_eq(s, "preference") {
            Some(RecordType::Preference)
        } else if crate::text::str_eq(s, "person") {
            Some(RecordType::Person)
        } else if crate::text::str_eq(s, "relationship") {
            Some(RecordType::Relationship)
        } else if crate::text::str_eq(s, "event") {
            Some(RecordType::Event)
        } else if crate::text::str_eq(s, "place") {
            Some(RecordType::Place)
        } else if crate::text::str_eq(s, "project") {
            Some(RecordType::Project)
        } else if crate::text::str_eq(s, "decision") {
            Some(RecordType::Decision)
        } else if crate::text::str_eq(s, "commitment") {
            Some(RecordType::Commitment)
        } else if crate::text::str_eq(s, "routine") {
            Some(RecordType::Routine)
        } else if crate::text::str_eq(s, "skill") {
            Some(RecordType::Skill)
        } else if crate::text::str_eq(s, "belief") {
            Some(RecordType::Belief)
        } else if crate::text::str_eq(s, "quote") {
            Some(RecordType::Quote)
        } else if crate::text::str_eq(s, "source_summary") {
            Some(RecordType::SourceSummary)
        } else if crate::text::str_eq(s, "memory_candidate") {
            Some(RecordType::MemoryCandidate)
        } else if crate::text::str_eq(s, "correction") {
            Some(RecordType::Correction)
        } else {
            None
        }
    }
}

/// Parsing the string form of a [`RecordType`] gives it back.
pub proof fn lemma_record_type_round_trip(x: RecordType)
    ensures
        record_type_from_name(record_type_name(x)) == Some(x),
{
    match x {
        RecordType::Fact => {
            reveal_strlit("fact");
        },
        RecordType::Claim => {
            reveal_strlit("claim");
            reveal_strlit("fact");
            assert("claim"@.len() != "fact"@.len());
        },
        RecordType::Conclusion => {
            reveal_strlit("conclusion");
            reveal_strlit("fact");
            assert("conclusion"@.len() != "fact"@.len());
            reveal_strlit("claim");
            assert("conclusion"@.len() != "claim"@.len());
        },
        RecordType::Preference => {
            reveal_strlit("preference");
            reveal_strlit("fact");
            assert("preference"@.len() != "fact"@.len());
            reveal_strlit("claim");
            assert("preference"@.len() != "claim"@.len());
            reveal_strlit("conclusion");
            assert("preference"@[0] != "conclusion"@[0]);
        },
        RecordType::Person => {
            reveal_strlit("person");
            reveal_strlit("fact");
            assert("person"@.len() != "fact"@.len());
            reveal_strlit("claim");
            assert("person"@.len() != "claim"@.len());
            reveal_strlit("conclusion");
            assert("person"@.len() != "conclusion"@.len());
            reveal_strlit("preference");
            assert("person"@.len() != "preference"@.len());
        },
        RecordType::Relationship => {
            reveal_strlit("relationship");
            reveal_strlit("fact");
            assert("relationship"@.len() != "fact"@.len());
            reveal_strlit("claim");
            assert("relationship"@.len() != "claim"@.len());
            reveal_strlit("conclusion");
            assert("relationship"@.len() != "conclusion"@.len());
            reveal_strlit("preference");
            assert("relationship"@.len() != "preference"@.len());
            reveal_strlit("person");
            assert("relationship"@.len() != "person"@.len());
        },
        RecordType::Event => {
            reveal_strlit("event");
            reveal_strlit("fact");
            assert("event"@.len() != "fact"@.len());
            reveal_strlit("claim");
            assert("event"@[0] != "claim"@[0]);
            reveal_strlit("conclusion");
            assert("event"@.len() != "conclusion"@.len());
            reveal_strlit("preference");
            assert("event"@.len() != "preference"@.len());
            reveal_strlit("person");
            assert("event"@.len() != "person"@.len());
            reveal_strlit("relationship");
            assert("event"@.len() != "relationship"@.len());
        },
        RecordType::Place => {
            reveal_strlit("place");
            reveal_strlit("fact");
            assert("place"@.len() != "fact"@.len());
            reveal_strlit("claim");
            assert("place"@[0] != "claim"@[0]);
            reveal_strlit("conclusion");
            assert("place"@.len() != "conclusion"@.len());
            reveal_strlit("preference");
            assert("place"@.len() != "preference"@.len());
            reveal_strlit("person");
            assert("place"@.len() != "person"@.len());
            reveal_strlit("relationship");
            assert("place"@.len() != "relationship"@.len());
            reveal_strlit("event");
            assert("place"@[0] != "event"@[0]);
        },
        RecordType::Project => {
            reveal_strlit("project");
            reveal_strlit("fact");
            assert("project"@.len() != "fact"@.len());
            reveal_strlit("claim");
            assert("project"@.len() != "claim"@.len());
            reveal_strlit("conclusion");
            assert("project"@.len() != "conclusion"@.len());
            reveal_strlit("preference");
            assert("project"@.len() != "preference"@.len());
            reveal_strlit("person");
            assert("project"@.len() != "person"@.len());
            reveal_strlit("relationship");
            assert("project"@.len() != "relationship"@.len());
            reveal_strlit("event");
            assert("project"@.len() != "event"@.len());
            reveal_strlit("place");
            assert("project"@.len() != "place"@.len());
        },
        RecordType::Decision => {
            reveal_strlit("decision");
            reveal_strlit("fact");
            assert("decision"@.len() != "fact"@.len());
            reveal_strlit("claim");
            assert("decision"@.len() != "claim"@.len());
            reveal_strlit("conclusion");
            assert("decision"@.len() != "conclusion"@.len());
            reveal_strlit("preference");
            assert("decision"@.len() != "preference"@.len());
            reveal_strlit("person");
            assert("decision"@.len() != "person"@.len());
            reveal_strlit("relationship");
            assert("decision"@.len() != "relationship"@.len());
            reveal_strlit("event");
            assert("decision"@.len() != "event"@.len());
            reveal_strlit("place");
            assert("decision"@.len() != "place"@.len());
            reveal_strlit("project");
            assert("decision"@.len() != "project"@.len());
        },
        RecordType::Commitment => {
            reveal_strlit("commitment");
            reveal_strlit("fact");
            assert("commitment"@.len() != "fact"@.len());
            reveal_strlit("claim");
            assert("commitment"@.len() != "claim"@.len());
            reveal_strlit("conclusion");
            assert("commitment"@[2] != "conclusion"@[2]);
            reveal_strlit("preference");
            assert("commitment"@[0] != "preference"@[0]);
            reveal_strlit("person");
            assert("commitment"@.len() != "person"@.len());
            reveal_strlit("relationship");
            assert("commitment"@.len() != "relationship"@.len());
            reveal_strlit("event");
            assert("commitment"@.len() != "event"@.len());
            reveal_strlit("place");
            assert("commitment"@.len() != "place"@.len());
            reveal_strlit("project");
            assert("commitment"@.len() != "project"@.len());
            reveal_strlit("decision");
            assert("commitment"@.len() != "decision"@.len());
        },
        RecordType::Routine => {
            reveal_strlit("routine");
            reveal_strlit("fact");
            assert("routine"@.len() != "fact"@.len());
            reveal_strlit("claim");
            assert("routine"@.len() != "claim"@.len());
            reveal_strlit("conclusion");
            assert("routine"@.len() != "conclusion"@.len());
            reveal_strlit("preference");
            assert("routine"@.len() != "preference"@.len());
            reveal_strlit("person");
            assert("routine"@.len() != "person"@.len());
            reveal_strlit("relationship");
            assert("routine"@.len() != "relationship"@.len());
            reveal_strlit("event");
            assert("routine"@.len() != "event"@.len());
            reveal_strlit("place");
            assert("routine"@.len() != "place"@.len());
            reveal_strlit("project");
            assert("routine"@[0] != "project"@[0]);
            reveal_strlit("decision");
            assert("routine"@.len() != "decision"@.len());
            reveal_strlit("commitment");
            assert("routine"@.len() != "commitment"@.len());
        },
        RecordType::Skill => {
            reveal_strlit("skill");
            reveal_strlit("fact");
            assert("skill"@.len() != "fact"@.len());
            reveal_strlit("claim");
            assert("skill"@[0] != "claim"@[0]);
            reveal_strlit("conclusion");
            assert("skill"@.len() != "conclusion"@.len());
            reveal_strlit("preference");
            assert("skill"@.len() != "preference"@.len());
            reveal_strlit("person");
            assert("skill"@.len() != "person"@.len());
            reveal_strlit("relationship");
            assert("skill"@.len() != "relationship"@.len());
            reveal_strlit("event");
            assert("skill"@[0] != "event"@[0]);
            reveal_strlit("place");
            assert("skill"@[0] != "place"@[0]);
            reveal_strlit("project");
            assert("skill"@.len() != "project"@.len());
            reveal_strlit("decision");
            assert("skill"@.len() != "decision"@.len());
            reveal_strlit("commitment");
            assert("skill"@.len() != "commitment"@.len());
            reveal_strlit("routine");
            assert("skill"@.len() != "routine"@.len());
        },
        RecordType::Belief => {
            reveal_strlit("belief");
            reveal_strlit("fact");
            assert("belief"@.len() != "fact"@.len());
            reveal_strlit("claim");
            assert("belief"@.len() != "claim"@.len());
            reveal_strlit("conclusion");
            assert("belief"@.len() != "conclusion"@.len());
            reveal_strlit("preference");
            assert("belief"@.len() != "preference"@.len());
            reveal_strlit("person");
            assert("belief"@[0] != "person"@[0]);
            reveal_strlit("relationship");
            assert("belief"@.len() != "relationship"@.len());
            reveal_strlit("event");
            assert("belief"@.len() != "event"@.len());
            reveal_strlit("place");
            assert("belief"@.len() != "place"@.len());
            reveal_strlit("project");
            assert("belief"@.len() != "project"@.len());
            reveal_strlit("decision");
            assert("belief"@.len() != "decision"@.len());
            reveal_strlit("commitment");
            assert("belief"@.len() != "commitment"@.len());
            reveal_strlit("routine");
            assert("belief"@.len() != "routine"@.len());
            reveal_strlit("skill");
            assert("belief"@.len() != "skill"@.len());
        },
        RecordType::Quote => {
            reveal_strlit("quote");
            reveal_strlit("fact");
            assert("quote"@.len() != "fact"@.len());
            reveal_strlit("claim");
            assert("quote"@[0] != "claim"@[0]);
            reveal_strlit("conclusion");
            assert("quote"@.len() != "conclusion"@.len());
            reveal_strlit("preference");
            assert("quote"@.len() != "preference"@.len());
            reveal_strlit("person");
            assert("quote"@.len() != "person"@.len());
            reveal_strlit("relationship");
            assert("quote"@.len() != "relationship"@.len());
            reveal_strlit("event");
            assert("quote"@[0] != "event"@[0]);
            reveal_strlit("place");
            assert("quote"@[0] != "place"@[0]);
            reveal_strlit("project");
            assert("quote"@.len() != "project"@.len());
            reveal_strlit("decision");
            assert("quote"@.len() != "decision"@.len());
            reveal_strlit("commitment");
            assert("quote"@.len() != "commitment"@.len());
            reveal_strlit("routine");
            assert("quote"@.len() != "routine"@.len());
            reveal_strlit("skill");
            assert("quote"@[0] != "skill"@[0]);
            reveal_strlit("belief");
            assert("quote"@.len() != "belief"@.len());
        },
        RecordType::SourceSummary => {
            reveal_strlit("source_summary");
            reveal_strlit("fact");
            assert("source_summary"@.len() != "fact"@.len());
            reveal_strlit("claim");
            assert("source_summary"@.len() != "claim"@.len());
            reveal_strlit("conclusion");
            assert("source_summary"@.len() != "conclusion"@.len());
            reveal_strlit("preference");
            assert("source_summary"@.len() != "preference"@.len());
            reveal_strlit("person");
            assert("source_summary"@.len() != "person"@.len());
            reveal_strlit("relationship");
            assert("source_summary"@.len() != "relationship"@.len());
            reveal_strlit("event");
            assert("source_summary"@.len() != "event"@.len());
            reveal_strlit("place");
            assert("source_summary"@.len() != "place"@.len());
            reveal_strlit("project");
            assert("source_summary"@.len() != "project"@.len());
            reveal_strlit("decision");
            assert("source_summary"@.len() != "decision"@.len());
            reveal_strlit("commitment");
            assert("source_summary"@.len() != "commitment"@.len());
            reveal_strlit("routine");
            assert("source_summary"@.len() != "routine"@.len());
            reveal_strlit("skill");
            assert("source_summary"@.len() != "skill"@.len());
            reveal_strlit("belief");
            assert("source_summary"@.len() != "belief"@.len());
            reveal_strlit("quote");
            assert("source_summary"@.len() != "quote"@.len());
        },
        RecordType::MemoryCandidate => {
            reveal_strlit("memory_candidate");
            reveal_strlit("fact");
            assert("memory_candidate"@.len() != "fact"@.len());
            reveal_strlit("claim");
            assert("memory_candidate"@.len() != "claim"@.len());
            reveal_strlit("conclusion");
            assert("memory_candidate"@.len() != "conclusion"@.len());
            reveal_strlit("preference");
            assert("memory_candidate"@.len() != "preference"@.len());
            reveal_strlit("person");
            assert("memory_candidate"@.len() != "person"@.len());
            reveal_strlit("relationship");
            assert("memory_candidate"@.len() != "relationship"@.len());
            reveal_strlit("event");
            assert("memory_candidate"@.len() != "event"@.len());
            reveal_strlit("place");
            assert("memory_candidate"@.len() != "place"@.len());
            reveal_strlit("project");
            assert("memory_candidate"@.len() != "project"@.len());
            reveal_strlit("decision");
            assert("memory_candidate"@.len() != "decision"@.len());
            reveal_strlit("commitment");
            assert("memory_candidate"@.len() != "commitment"@.len());
            reveal_strlit("routine");
            assert("memory_candidate"@.len() != "routine"@.len());
            reveal_strlit("skill");
            assert("memory_candidate"@.len() != "skill"@.len());
            reveal_strlit("belief");
            assert("memory_candidate"@.len() != "belief"@.len());
            reveal_strlit("quote");
            assert("memory_candidate"@.len() != "quote"@.len());
            reveal_strlit("source_summary");
            assert("memory_candidate"@.len() != "source_summary"@.len());
        },
        RecordType::Correction => {
            reveal_strlit("correction");
            reveal_strlit("fact");
            assert("correction"@.len() != "fact"@.len());
            reveal_strlit("claim");
            assert("correction"@.len() != "claim"@.len());
            reveal_strlit("conclusion");
            assert("correction"@[2] != "conclusion"@[2]);
            reveal_strlit("preference");
            assert("correction"@[0] != "preference"@[0]);
            reveal_strlit("person");
            assert("correction"@.len() != "person"@.len());
            reveal_strlit("relationship");
            assert("correction"@.len() != "relationship"@.len());
            reveal_strlit("event");
            assert("correction"@.len() != "event"@.len());
            reveal_strlit("place");
            assert("correction"@.len() != "place"@.len());
            reveal_strlit("project");
            assert("correction"@.len() != "project"@.len());
            reveal_strlit("decision");
            assert("correction"@.len() != "decision"@.len());
            reveal_strlit("commitment");
            assert("correction"@[2] != "commitment"@[2]);
            reveal_strlit("routine");
            assert("correction"@.len() != "routine"@.len());
            reveal_strlit("skill");
            assert("correction"@.len() != "skill"@.len());
            reveal_strlit("belief");
            assert("correction"@.len() != "belief"@.len());
            reveal_strlit("quote");
            assert("correction"@.len() != "quote"@.len());
            reveal_strlit("source_summary");
            assert("correction"@.len() != "source_summary"@.len());
            reveal_strlit("memory_candidate");
            assert("correction"@.len() != "memory_candidate"@.len());
        },
    }
}

/// Review states of a record. Rejected, superseded, archived and
/// tombstoned records never appear in current-truth retrieval.
#[derive(Debug, Clone, Copy, PartialEq, Eq, Structural)]
pub enum RecordStatus {
    Candidate,
    Approved,
    Rejected,
    Disputed,
    Superseded,
    Archived,
    Tombstoned,
}

/// The stable string form of each [`RecordStatus`].
pub open spec fn record_status_name(x: RecordStatus) -> Seq<char> {
    match x {
        RecordStatus::Candidate => "candidate"@,
        RecordStatus::Approved => "approved"@,
        RecordStatus::Rejected => "rejected"@,
        RecordStatus::Disputed => "disputed"@,
        RecordStatus::Superseded => "superseded"@,
        RecordStatus::Archived => "archived"@,
        RecordStatus::Tombstoned => "tombstoned"@,
    }
}

/// The [`RecordStatus`] whose string form is `s`, if any.
pub open spec fn record_status_from_name(s: Seq<char>) -> Option<RecordStatus> {
    if s == "candidate"@ {
        Some(RecordStatus::Candidate)
    } else if s == "approved"@ {
        Some(RecordStatus::Approved)
    } else if s == "rejected"@ {
        Some(RecordStatus::Rejected)
    } else if s == "disputed"@ {
        Some(RecordStatus::Disputed)
    } else if s == "superseded"@ {
        Some(RecordStatus::Superseded)
    } else if s == "archived"@ {
        Some(RecordStatus::Archived)
    } else if s == "tombstoned"@ {
        Some(RecordStatus::Tombstoned)
    } else {
        None
    }
}

impl RecordStatus {
    /// The stable string form.
    pub fn as_str(self) -> (s: &'static str)
        ensures
            s@ == record_status_name(self),
    {
        match self {
            RecordStatus::Candidate => "candidate",
            RecordStatus::Approved => "approved",
            RecordStatus::Rejected => "rejected",
            RecordStatus::Disputed => "disputed",
            RecordStatus::Superseded => "superseded",
            RecordStatus::Archived => "archived",
            RecordStatus::Tombstoned => "tombstoned",
        }
    }

    /// Parse the stable string form.
    pub fn parse(s: &str) -> (r: Option<Self>)
        ensures
            r == record_status_from_name(s@),
    {
        if crate::text::str_eq(s, "candidate") {
            Some(RecordStatus::Candidate)
        } else if crate::text::str_eq(s, "approved") {
            Some(RecordStatus::Approved)
        } else if crate::text::str_eq(s, "rejected") {
            Some(RecordStatus::Rejected)
        } else if crate::text::str_eq(s, "disputed") {
            Some(RecordStatus::Disputed)
        } else if crate::text::str_eq(s, "superseded") {
            Some(RecordStatus::Superseded)
        } else if crate::text::str_eq(s, "archived") {
            Some(RecordStatus::Archived)
        } else if crate::text::str_eq(s, "tombstoned") {
            Some(RecordStatus::Tombstoned)
        } else {
            None
        }
    }
}

/// Parsing the string form of a [`RecordStatus`] gives it back.
pub proof fn lemma_record_status_round_trip(x: RecordStatus)
    ensures
        record_status_from_name(record_status_name(x)) == Some(x),
{
    match x {
        RecordStatus::Candidate => {
            reveal_strlit("candidate");
        },
        RecordStatus::Approved => {
            reveal_strlit("approved");
            reveal_strlit("candidate");
            assert("approved"@.len() != "candidate"@.len());
        },
        RecordStatus::Rejected => {
            reveal_strlit("rejected");
            reveal_strlit("candidate");
            assert("rejected"@.len() != "candidate"@.len());
            reveal_strlit("approved");
            assert("rejected"@[0] != "approved"@[0]);
        },
        RecordStatus::Disputed => {
            reveal_strlit("disputed");
            reveal_strlit("candidate");
            assert("disputed"@.len() != "candidate"@.len());
            reveal_strlit("approved");
            assert("disputed"@[0] != "approved"@[0]);
            reveal_strlit("rejected");
            assert("disputed"@[0] != "rejected"@[0]);
        },
        RecordStatus::Superseded => {
            reveal_strlit("superseded");
            reveal_strlit("candidate");
            assert("superseded"@.len() != "candidate"@.len());
            reveal_strlit("approved");
            assert("superseded"@.len() != "approved"@.len());
            reveal_strlit("rejected");
            assert("superseded"@.len() != "rejected"@.len());
            reveal_strlit("disputed");
            assert("superseded"@.len() != "disputed"@.len());
        },
        RecordStatus::Archived => {
            reveal_strlit("archived");
            reveal_strlit("candidate");
            assert("archived"@.len() != "candidate"@.len());
            reveal_strlit("approved");
            assert("archived"@[1] != "approved"@[1]);
            reveal_strlit("rejected");
            assert("archived"@[0] != "rejected"@[0]);
            reveal_strlit("disputed");
            assert("archived"@[0] != "disputed"@[0]);
            reveal_strlit("superseded");
            assert("archived"@.len() != "superseded"@.len());
        },
        RecordStatus::Tombstoned => {
            reveal_strlit("tombstoned");
            reveal_strlit("candidate");
            assert("tombstoned"@.len() != "candidate"@.len());
            reveal_strlit("approved");
            assert("tombstoned"@.len() != "approved"@.len());
            reveal_strlit("rejected");
            assert("tombstoned"@.len() != "rejected"@.len());
            reveal_strlit("disputed");
            assert("tombstoned"@.len() != "disputed"@.len());
            reveal_strlit("superseded");
            assert("tombstoned"@[0] != "superseded"@[0]);
            reveal_strlit("archived");
            assert("tombstoned"@.len() != "archived"@.len());
        },
    }
}

/// Statuses that count as current truth.
pub open spec fn is_current_status(s: RecordStatus) -> bool {
    s == RecordStatus::Approved || s == RecordStatus::Disputed
}

impl RecordStatus {
    /// Whether a record in this status counts as current truth.
    pub fn is_current(self) -> (b: bool)
        ensures
            b == is_current_status(self),
    {
        match self {
            RecordStatus::Approved | RecordStatus::Disputed => true,
            _ => false,
        }
    }
}

/// How sensitive a record is; `LocalOnly` content never goes to a cloud
/// provider.
#[derive(Debug, Clone, Copy, PartialEq, Eq, Structural)]
pub enum Sensitivity {
    Normal,
    Sensitive,
    LocalOnly,
}

/// The stable string form of each [`Sensitivity`].
pub open spec fn sensitivity_name(x: Sensitivity) -> Seq<char> {
    match x {
        Sensitivity::Normal => "normal"@,
        Sensitivity::Sensitive => "sensitive"@,
        Sensitivity::LocalOnly => "local_only"@,
    }
}

/// The [`Sensitivity`] whose string form is `s`, if any.
pub open spec fn sensitivity_from_name(s: Seq<char>) -> Option<Sensitivity> {
    if s == "normal"@ {
        Some(Sensitivity::Normal)
    } else if s == "sensitive"@ {
        Some(Sensitivity::Sensitive)
    } else if s == "local_only"@ {
        Some(Sensitivity::LocalOnly)
    } else {
        None
    }
}

impl Sensitivity {
    /// The stable string form.
    pub fn as_str(self) -> (s: &'static str)
        ensures
            s@ == sensitivity_name(self),
    {
        match self {
            Sensitivity::Normal => "normal",
            Sensitivity::Sensitive => "sensitive",
            Sensitivity::LocalOnly => "local_only",
        }
    }

    /// Parse the stable string form.
    pub fn parse(s: &str) -> (r: Option<Self>)
        ensures
            r == sensitivity_from_name(s@),
    {
        if crate::text::str_eq(s, "normal") {
            Some(Sensitivity::Normal)
        } else if crate::text::str_eq(s, "sensitive") {
            Some(Sensitivity::Sensitive)
        } else if crate::text::str_eq(s, "local_only") {
            Some(Sensitivity::LocalOnly)
        } else {
            None
        }
    }
}

/// Parsing the string form of a [`Sensitivity`] gives it back.
pub proof fn lemma_sensitivity_round_trip(x: Sensitivity)
    ensures
        sensitivity_from_name(sensitivity_name(x)) == Some(x),
{
    match x {
        Sensitivity::Normal => {
            reveal_strlit("normal");
        },
        Sensitivity::Sensitive => {
            reveal_strlit("sensitive");
            reveal_strlit("normal");
            assert("sensitive"@.len() != "normal"@.len());
        },
        Sensitivity::LocalOnly => {
            reveal_strlit("local_only");
            reveal_strlit("normal");
            assert("local_only"@.len() != "normal"@.len());
            reveal_strlit("sensitive");
            assert("local_only"@.len() != "sensitive"@.len());
        },
    }
}

} // verus!

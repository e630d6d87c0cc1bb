//! Citations and trust: every grounded answer carries its citations and an
//! overall trust classification, and a claim may only cite an id that the
//! answer actually lists.

use vstd::prelude::*;

verus! {

/// The most specific location of a cited piece of content.
#[derive(Debug, Clone, PartialEq)]
pub enum CitationLocation {
    /// A knowledge record by id.
    KnowledgeRecord { record_id: String },
    /// A source by id, optionally with a text location hint.
    Source { source_id: String, detail: Option<String> },
    /// A conversation message.
    Conversation { conversation_id: String, message_id: String },
    /// A structured import row and field.
    StructuredRow { source_id: String, row: usize, field: Option<String> },
}

/// A single citation: what was cited and where it lives.
#[derive(Debug, Clone)]
pub struct Citation {
    /// Stable id of this citation within an answer.
    pub id: String,
    pub location: CitationLocation,
    /// The text snippet that grounds the claim.
    pub snippet: String,
}

/// Overall trust classification of an answer.
#[derive(Debug, Clone, Copy, PartialEq, Eq, Structural)]
pub enum TrustClassification {
    /// Fully supported by approved sources.
    SourceSupported,
    /// Mixes source-grounded content and inference.
    MixedSourceAndInference,
    /// Pure inference, no source grounding.
    Inference,
    /// A suggestion, not a claim.
    Suggestion,
    /// Evidence insufficient.
    Unknown,
}

/// The stable string form of each [`TrustClassification`].
pub open spec fn trust_classification_name(x: TrustClassification) -> Seq<char> {
    match x {
        TrustClassification::SourceSupported => "source_supported"@,
        TrustClassification::MixedSourceAndInference => "mixed_source_and_inference"@,
        TrustClassification::Inference => "inference"@,
        TrustClassification::Suggestion => "suggestion"@,
        TrustClassification::Unknown => "unknown"@,
    }
}

impl TrustClassification {
    /// The stable string form.
    pub fn as_str(self) -> (s: &'static str)
        ensures
            s@ == trust_classification_name(self),
    {
        match self {
            TrustClassification::SourceSupported => "source_supported",
            TrustClassification::MixedSourceAndInference => "mixed_source_and_inference",
            TrustClassification::Inference => "inference",
            TrustClassification::Suggestion => "suggestion",
            TrustClassification::Unknown => "unknown",
        }
    }
}

/// A per-claim label when an answer mixes kinds of knowledge.
#[derive(Debug, Clone, Copy, PartialEq, Eq, Structural)]
pub enum ClaimLabel {
    StoredFact,
    SourcedClaim,
    ApprovedConclusion,
    Inference,
    Suggestion,
    Uncertain,
}

/// The stable string form of each [`ClaimLabel`].
pub open spec fn claim_label_name(x: ClaimLabel) -> Seq<char> {
    match x {
        ClaimLabel::StoredFact => "stored_fact"@,
        ClaimLabel::SourcedClaim => "sourced_claim"@,
        ClaimLabel::ApprovedConclusion => "approved_conclusion"@,
        ClaimLabel::Inference => "inference"@,
        ClaimLabel::Suggestion => "suggestion"@,
        ClaimLabel::Uncertain => "uncertain"@,
    }
}

impl ClaimLabel {
    /// The stable string form.
    pub fn as_str(self) -> (s: &'static str)
        ensures
            s@ == claim_label_name(self),
    {
        match self {
            ClaimLabel::StoredFact => "stored_fact",
            ClaimLabel::SourcedClaim => "sourced_claim",
            ClaimLabel::ApprovedConclusion => "approved_conclusion",
            ClaimLabel::Inference => "inference",
            ClaimLabel::Suggestion => "suggestion",
            ClaimLabel::Uncertain => "uncertain",
        }
    }
}

/// A factual claim within an answer, with its label and the ids of the
/// citations that ground it.
#[derive(Debug, Clone)]
pub struct ClaimBlock {
    pub text: String,
    pub label: ClaimLabel,
    /// Citation ids within this answer.
    pub citations: Vec<String>,
}

/// An answer with its citations, trust classification and labelled claims.
#[derive(Debug, Clone)]
pub struct AnnotatedAnswer {
    pub plain_text: String,
    pub trust: TrustClassification,
    pub citations: Vec<Citation>,
    pub claims: Vec<ClaimBlock>,
}

/// Some citation of the answer has the id `id`.
pub open spec fn cites_id(citations: Seq<Citation>, id: Seq<char>) -> bool {
    exists|k: int| 0 <= k < citations.len() && (#[trigger] citations[k]).id@ == id
}

/// Every citation id referenced by a claim is one the answer lists.
pub open spec fn consistent_citations(a: AnnotatedAnswer) -> bool {
    forall|i: int, j: int|
        0 <= i < a.claims@.len() && 0 <= j < a.claims@[i].citations@.len()
            ==> cites_id(a.citations@, #[trigger] a.claims@[i].citations@[j]@)
}

impl AnnotatedAnswer {
    /// An answer with no source grounding (pure inference).
    pub fn inference(text: &str) -> (a: Self)
        ensures
            a.plain_text@ == text@,
            a.trust == TrustClassification::Inference,
            a.citations@.len() == 0,
            a.claims@.len() == 0,
    {
        AnnotatedAnswer {
            plain_text: text.to_owned(),
            trust: TrustClassification::Inference,
            citations: Vec::new(),
            claims: Vec::new(),
        }
    }

    /// The honest answer when evidence is insufficient.
    pub fn unknown() -> (a: Self)
        ensures
            a.plain_text@ == "I don't know."@,
            a.trust == TrustClassification::Unknown,
            a.citations@.len() == 0,
            a.claims@.len() == 0,
    {
        AnnotatedAnswer {
            plain_text: "I don't know.".to_owned(),
            trust: TrustClassification::Unknown,
            citations: Vec::new(),
            claims: Vec::new(),
        }
    }

    /// Whether the answer lists a citation with the id `id`.
    fn has_citation(&self, id: &str) -> (r: bool)
        ensures
            r == cites_id(self.citations@, id@),
    {
        let mut k: usize = 0;
        while k < self.citations.len()
            invariant
                k <= self.citations@.len(),
                forall|m: int| 0 <= m < k ==> (#[trigger] self.citations@[m]).id@ != id@,
            decreases self.citations@.len() - k,
        {
            if crate::text::str_eq(self.citations[k].id.as_str(), id) {
                return true;
            }
            k = k + 1;
        }
        false
    }

    /// Whether every citation id referenced in a claim exists among the
    /// answer's citations; `false` reveals a fabricated id.
    pub fn citations_are_consistent(&self) -> (r: bool)
        ensures
            r == consistent_citations(*self),
    {
        let mut i: usize = 0;
        while i < self.claims.len()
            invariant
                i <= self.claims@.len(),
                forall|p: int, j: int|
                    0 <= p < i && 0 <= j < self.claims@[p].citations@.len()
                        ==> cites_id(self.citations@, #[trigger] self.claims@[p].citations@[j]@),
            decreases self.claims@.len() - i,
        {
            let claim = &self.claims[i];
            let mut j: usize = 0;
            while j < claim.citations.len()
                invariant
                    i < self.claims@.len(),
                    *claim == self.claims@[i as int],
                    j <= claim.citations@.len(),
                    forall|p: int, q: int|
                        0 <= p < i && 0 <= q < self.claims@[p].citations@.len()
                            ==> cites_id(self.citations@, #[trigger] self.claims@[p].citations@[q]@),
                    forall|q: int|
                        0 <= q < j ==> cites_id(self.citations@, #[trigger] claim.citations@[q]@),
                decreases claim.citations@.len() - j,
            {
                if !self.has_citation(claim.citations[j].as_str()) {
                    return false;
                }
                j = j + 1;
            }
            i = i + 1;
        }
        true
    }
}

} // verus!

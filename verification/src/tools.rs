//! Agentic tools of this release: read-only source search, read-only corpus
//! lookup, draft generation, non-executing planning, and a mock for
//! permission testing. No tool performs a real external action; the
//! permission architecture gates every future one.

use vstd::prelude::*;
use crate::permissions::{Reversibility, RiskLevel, ToolDeclaration};
use crate::text::seq_contains;

verus! {

/// The number of tools in the registry.
pub const TOOL_COUNT: usize = 5;

/// The identifier of the `i`-th registered tool.
pub open spec fn tool_id_at(i: int) -> Seq<char> {
    if i == 0 {
        "source_search"@
    } else if i == 1 {
        "corpus_lookup"@
    } else if i == 2 {
        "draft_generation"@
    } else if i == 3 {
        "planning"@
    } else {
        "mock_external"@
    }
}

/// The description of the `i`-th registered tool's operation.
pub open spec fn operation_at(i: int) -> Seq<char> {
    if i == 0 {
        "Search local sources by keyword"@
    } else if i == 1 {
        "Look up an approved knowledge record by id"@
    } else if i == 2 {
        "Generate a draft for owner review"@
    } else if i == 3 {
        "Produce a non-executing plan"@
    } else {
        "Mock tool for permission testing (never executes)"@
    }
}

/// What the `i`-th registered tool reads.
pub open spec fn data_accessed_at(i: int) -> Seq<char> {
    if i == 0 {
        "Encrypted source extracted text (in-vault)"@
    } else if i == 1 {
        "Knowledge records (in-vault)"@
    } else if i == 2 {
        "Conversation context + retrieved knowledge"@
    } else if i == 3 {
        "Conversation context"@
    } else {
        "None"@
    }
}

/// What leaves the device when the `i`-th registered tool runs.
pub open spec fn data_leaving_at(i: int) -> Seq<char> {
    if i == 2 {
        "None (draft only)"@
    } else if i == 4 {
        "None (mock)"@
    } else {
        "None"@
    }
}

/// Where the `i`-th registered tool's output goes.
pub open spec fn destination_at(i: int) -> Seq<char> {
    if i == 4 {
        "None (mock)"@
    } else {
        "Local only"@
    }
}

/// The risk level of the `i`-th registered tool.
pub open spec fn risk_at(i: int) -> RiskLevel {
    if i == 2 {
        RiskLevel::DraftOnly
    } else if i == 4 {
        RiskLevel::MutatesExternal
    } else {
        RiskLevel::ReadOnly
    }
}

/// The reversibility of the `i`-th registered tool.
pub open spec fn reversibility_at(i: int) -> Reversibility {
    if i == 4 {
        Reversibility::Irreversible
    } else {
        Reversibility::Reversible
    }
}

/// `t` is the declaration of the `i`-th registered tool.
pub open spec fn is_tool_at(t: ToolDeclaration, i: int) -> bool {
    &&& t.tool_id@ == tool_id_at(i)
    &&& t.operation@ == operation_at(i)
    &&& t.data_accessed@ == data_accessed_at(i)
    &&& t.data_leaving_device@ == data_leaving_at(i)
    &&& t.destination@ == destination_at(i)
    &&& t.risk == risk_at(i)
    &&& t.reversibility == reversibility_at(i)
}

/// The declaration of the `i`-th registered tool.
fn tool_at(i: usize) -> (t: ToolDeclaration)
    requires
        i < TOOL_COUNT,
    ensures
        is_tool_at(t, i as int),
{
    if i == 0 {
        ToolDeclaration {
            tool_id: "source_search".to_owned(),
            operation: "Search local sources by keyword".to_owned(),
            data_accessed: "Encrypted source extracted text (in-vault)".to_owned(),
            data_leaving_device: "None".to_owned(),
            destination: "Local only".to_owned(),
            risk: RiskLevel::ReadOnly,
            reversibility: Reversibility::Reversible,
        }
    } else if i == 1 {
        ToolDeclaration {
            tool_id: "corpus_lookup".to_owned(),
            operation: "Look up an approved knowledge record by id".to_owned(),
            data_accessed: "Knowledge records (in-vault)".to_owned(),
            data_leaving_device: "None".to_owned(),
            destination: "Local only".to_owned(),
            risk: RiskLevel::ReadOnly,
            reversibility: Reversibility::Reversible,
        }
    } else if i == 2 {
        ToolDeclaration {
            tool_id: "draft_generation".to_owned(),
            operation: "Generate a draft for owner review".to_owned(),
            data_accessed: "Conversation context + retrieved knowledge".to_owned(),
            data_leaving_device: "None (draft only)".to_owned(),
            destination: "Local only".to_owned(),
            risk: RiskLevel::DraftOnly,
            reversibility: Reversibility::Reversible,
        }
    } else if i == 3 {
        ToolDeclaration {
            tool_id: "planning".to_owned(),
            operation: "Produce a non-executing plan".to_owned(),
            data_accessed: "Conversation context".to_owned(),
            data_leaving_device: "None".to_owned(),
            destination: "Local only".to_owned(),
            risk: RiskLevel::ReadOnly,
            reversibility: Reversibility::Reversible,
        }
    } else {
        ToolDeclaration {
            tool_id: "mock_external".to_owned(),
            operation: "Mock tool for permission testing (never executes)".to_owned(),
            data_accessed: "None".to_owned(),
            data_leaving_device: "None (mock)".to_owned(),
            destination: "None (mock)".to_owned(),
            risk: RiskLevel::MutatesExternal,
            reversibility: Reversibility::Irreversible,
        }
    }
}

/// The registry of tools available in this release, in a fixed order.
pub fn registry() -> (r: Vec<ToolDeclaration>)
    ensures
        r.len() == TOOL_COUNT,
        forall|i: int| 0 <= i < r.len() ==> #[trigger] is_tool_at(r[i], i),
{
    let mut r: Vec<ToolDeclaration> = Vec::new();
    let mut i: usize = 0;
    while i < TOOL_COUNT
        invariant
            i <= TOOL_COUNT,
            r.len() == i,
            forall|k: int| 0 <= k < r.len() ==> #[trigger] is_tool_at(r[k], k),
        decreases TOOL_COUNT - i,
    {
        let t = tool_at(i);
        r.push(t);
        i = i + 1;
    }
    r
}

/// The index of the first registered tool whose identifier is `id`.
pub open spec fn first_tool_index(id: Seq<char>) -> Option<int> {
    if id == tool_id_at(0) {
        Some(0)
    } else if id == tool_id_at(1) {
        Some(1)
    } else if id == tool_id_at(2) {
        Some(2)
    } else if id == tool_id_at(3) {
        Some(3)
    } else if id == tool_id_at(4) {
        Some(4)
    } else {
        None
    }
}

/// The declaration of the first registered tool whose identifier is
/// `tool_id`, if any.
pub fn find(tool_id: &str) -> (r: Option<ToolDeclaration>)
    ensures
        match first_tool_index(tool_id@) {
            Some(i) => r is Some && is_tool_at(r->0, i),
            None => r is None,
        },
{
    let mut i: usize = 0;
    while i < TOOL_COUNT
        invariant
            i <= TOOL_COUNT,
            forall|k: int| 0 <= k < i ==> tool_id_at(k) != tool_id@,
        decreases TOOL_COUNT - i,
    {
        let t = tool_at(i);
        if crate::text::str_eq(t.tool_id.as_str(), tool_id) {
            return Some(t);
        }
        i = i + 1;
    }
    None
}

/// No registered tool sends data off the device, and the one tool that
/// declares an external mutation is a mock that says so: nothing in the
/// registry performs a real external action.
pub proof fn lemma_registry_has_no_real_external_action(i: int)
    requires
        0 <= i < TOOL_COUNT,
    ensures
        risk_at(i) != RiskLevel::SendsData,
        risk_at(i) == RiskLevel::MutatesExternal ==> seq_contains(data_leaving_at(i), "mock"@),
{
    if i == 4 {
        reveal_strlit("None (mock)");
        reveal_strlit("mock");
        assert("None (mock)"@.subrange(6, 10) =~= "mock"@);
        assert(crate::text::occurs_at("None (mock)"@, "mock"@, 6));
    }
}

} // verus!

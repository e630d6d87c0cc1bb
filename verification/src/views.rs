//! The views the user interface is given: summaries that carry no secret
//! and no private body it does not need.

use vstd::prelude::*;
use crate::conversation::Conversation;
use crate::error::AppError;
use crate::external_pkc::PkcTurnView;
use crate::identity::PromptSectionSummary;
use crate::sources::SourceRecord;
use crate::vault::{VaultManifest, VaultTemplate};

verus! {

/// A vault as listed: id, name, template and creation time; no key material.
#[derive(Debug)]
pub struct VaultSummary {
    pub vault_id: String,
    pub name: String,
    pub template: VaultTemplate,
    pub created_at: String,
}

impl VaultSummary {
    /// The summary of a vault's manifest.
    pub fn of_manifest(m: &VaultManifest) -> (s: Self)
        ensures
            s.vault_id@ == crate::ids::uuid_text(m.vault_id.0),
            s.name@ == m.name@,
            s.template == m.template,
            s.created_at@ == m.created_at@,
    {
        VaultSummary {
            vault_id: m.vault_id.to_string(),
            name: m.name.clone(),
            template: m.template,
            created_at: m.created_at.clone(),
        }
    }
}

/// A newly created vault and its recovery code in human form, shown once
/// and never stored.
#[derive(Debug)]
pub struct CreateVaultResult {
    pub vault: VaultSummary,
    pub recovery_code: String,
}

/// A conversation as listed.
#[derive(Debug)]
pub struct ConversationSummary {
    pub conversation_id: String,
    pub title: Option<String>,
    pub created_at: String,
    pub updated_at: String,
}

impl ConversationSummary {
    /// The summary of a conversation row.
    pub fn of_conversation(c: &Conversation) -> (s: Self)
        ensures
            s.conversation_id@ == c.conversation_id@,
            s.title == c.title,
            s.created_at@ == c.created_at@,
            s.updated_at@ == c.updated_at@,
    {
        ConversationSummary {
            conversation_id: c.conversation_id.clone(),
            title: match &c.title {
                Some(t) => Some(t.clone()),
                None => None,
            },
            created_at: c.created_at.clone(),
            updated_at: c.updated_at.clone(),
        }
    }
}

/// A message as shown, with the body-free view of any external knowledge
/// its turn used.
#[derive(Debug)]
pub struct MessageSummary {
    pub message_id: String,
    pub role: String,
    pub content: String,
    pub seq: i64,
    pub pkc: Option<PkcTurnView>,
}

/// What the owner is asked before a cloud crossing.
#[derive(Debug, Clone)]
pub struct CloudConsentView {
    pub provider_id: String,
    pub provider_display_name: String,
    pub model: String,
    pub routing_mode: String,
}

/// The result of sending a chat turn: the assistant's answer, or the
/// consent the owner must give first.
#[derive(Debug)]
pub struct ChatSendResult {
    pub content: Option<String>,
    pub provider: Option<String>,
    pub model: Option<String>,
    pub crossed_to_cloud: bool,
    /// Present when a cloud crossing needs the owner's consent.
    pub consent_required: Option<CloudConsentView>,
    /// Section summaries of the prompt: lengths, not bodies.
    pub prompt_summary: Vec<PromptSectionSummary>,
    /// Body-free view of the external knowledge used.
    pub pkc: PkcTurnView,
}

/// A stored source as listed.
#[derive(Debug)]
pub struct SourceView {
    pub source_id: String,
    pub kind: String,
    pub name: String,
    pub checksum: String,
    pub imported_at: String,
    pub status: String,
    pub bytes_len: u64,
}

impl SourceView {
    /// The view of a stored source's metadata.
    pub fn of_record(s: &SourceRecord) -> (v: Self)
        ensures
            v.source_id@ == s.source_id@,
            v.kind@ == s.kind@,
            v.name@ == s.name@,
            v.checksum@ == s.checksum@,
            v.imported_at@ == s.imported_at@,
            v.status@ == s.status@,
            v.bytes_len == s.bytes_len,
    {
        SourceView {
            source_id: s.source_id.clone(),
            kind: s.kind.clone(),
            name: s.name.clone(),
            checksum: s.checksum.clone(),
            imported_at: s.imported_at.clone(),
            status: s.status.clone(),
            bytes_len: s.bytes_len,
        }
    }
}

/// A restore replaces a vault, so it needs the owner's explicit
/// confirmation.
pub fn require_restore_confirmation(confirmed: bool) -> (r: Result<(), AppError>)
    ensures
        confirmed ==> r is Ok,
        !confirmed ==> (r matches Err(AppError::InvalidArgument(m))
            && m@ == "restore requires explicit owner confirmation"@),
{
    if confirmed {
        Ok(())
    } else {
        Err(AppError::InvalidArgument("restore requires explicit owner confirmation".to_owned()))
    }
}

} // verus!

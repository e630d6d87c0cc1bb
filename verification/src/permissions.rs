//! Permission architecture: every tool action declares what it does, what
//! data it touches, what leaves the device, its risk and its reversibility.
//! No conversational request becomes a permanent authorization, and a
//! revocation takes effect at once.

use vstd::prelude::*;

verus! {

/// How much a tool action can affect the world outside the vault.
#[derive(Debug, Clone, Copy, PartialEq, Eq, Structural)]
pub enum RiskLevel {
    ReadOnly,
    DraftOnly,
    SendsData,
    MutatesExternal,
}

/// The stable string form of each [`RiskLevel`].
pub open spec fn risk_level_name(x: RiskLevel) -> Seq<char> {
    match x {
        RiskLevel::ReadOnly => "read_only"@,
        RiskLevel::DraftOnly => "draft_only"@,
        RiskLevel::SendsData => "sends_data"@,
        RiskLevel::MutatesExternal => "mutates_external"@,
    }
}

impl RiskLevel {
    /// The stable string form.
    pub fn as_str(self) -> (s: &'static str)
        ensures
            s@ == risk_level_name(self),
    {
        match self {
            RiskLevel::ReadOnly => "read_only",
            RiskLevel::DraftOnly => "draft_only",
            RiskLevel::SendsData => "sends_data",
            RiskLevel::MutatesExternal => "mutates_external",
        }
    }
}

/// Whether a tool action can be undone.
#[derive(Debug, Clone, Copy, PartialEq, Eq, Structural)]
pub enum Reversibility {
    Reversible,
    Irreversible,
}

/// A tool's static declaration: what it does, what it reads, what leaves
/// the device and where it goes.
#[derive(Debug, Clone)]
pub struct ToolDeclaration {
    pub tool_id: String,
    pub operation: String,
    pub data_accessed: String,
    pub data_leaving_device: String,
    pub destination: String,
    pub risk: RiskLevel,
    pub reversibility: Reversibility,
}

/// How far an owner's approval of a tool reaches.
#[derive(Debug, Clone, Copy, PartialEq, Eq, Structural)]
pub enum PermissionMode {
    AlwaysDeny,
    AskEveryTime,
    AllowOnce,
    AllowSession,
    AllowScoped,
}

/// The stable string form of each [`PermissionMode`].
pub open spec fn permission_mode_name(x: PermissionMode) -> Seq<char> {
    match x {
        PermissionMode::AlwaysDeny => "always_deny"@,
        PermissionMode::AskEveryTime => "ask_every_time"@,
        PermissionMode::AllowOnce => "allow_once"@,
        PermissionMode::AllowSession => "allow_session"@,
        PermissionMode::AllowScoped => "allow_scoped"@,
    }
}

/// The name under which a grant of the given mode is recorded.
pub fn mode_as_str(m: PermissionMode) -> (s: &'static str)
    ensures
        s@ == permission_mode_name(m),
{
    match m {
        PermissionMode::AlwaysDeny => "always_deny",
        PermissionMode::AskEveryTime => "ask_every_time",
        PermissionMode::AllowOnce => "allow_once",
        PermissionMode::AllowSession => "allow_session",
        PermissionMode::AllowScoped => "allow_scoped",
    }
}

/// A request to invoke a tool, with the action preview shown to the owner.
#[derive(Debug, Clone)]
pub struct ToolRequest {
    pub tool_id: String,
    pub operation: String,
    pub data_accessed: String,
    pub data_leaving_device: String,
    pub destination: String,
    pub risk: RiskLevel,
    pub reversibility: Reversibility,
    pub requested_mode: PermissionMode,
}

/// The owner's answer to a tool request.
#[derive(Debug, Clone, Copy, PartialEq, Eq, Structural)]
pub enum Decision {
    Allow,
    Deny,
}

/// A recorded grant; `expires_at` is an RFC 3339 time or none.
#[derive(Debug, Clone)]
pub struct PermissionGrant {
    pub grant_id: String,
    pub tool_id: String,
    pub mode: String,
    pub scope: String,
    pub granted_at: String,
    pub expires_at: Option<String>,
}

/// A grant is live at `now` (RFC 3339 text) when it is not revoked and has
/// no expiry or expires after `now` (texts compared character by
/// character, as the timestamps' order).
pub open spec fn grant_live(revoked: bool, expires_at: Option<Seq<char>>, now: Seq<char>) -> bool {
    !revoked && match expires_at {
        None => true,
        Some(e) => crate::corpus::lex_lt(now, e),
    }
}

/// Whether a recorded grant still permits the tool at `now`.
pub fn is_live_grant(revoked: bool, expires_at: &Option<String>, now: &str) -> (b: bool)
    ensures
        b == grant_live(revoked, match expires_at { Some(e) => Some(e@), None => None }, now@),
{
    if revoked {
        return false;
    }
    match expires_at {
        None => true,
        Some(e) => crate::corpus::lex_less(&crate::text::chars_of(now), &crate::text::chars_of(e.as_str())),
    }
}

/// The optional texts of optional strings.
pub open spec fn opt_views(v: Seq<(bool, Option<String>)>) -> Seq<(bool, Option<Seq<char>>)> {
    v.map_values(|g: (bool, Option<String>)| (g.0, match g.1 { Some(e) => Some(e@), None => None }))
}

/// The position of the first live grant among (revoked, expiry) rows, newest
/// first: the grant that permits a tool. No live grant means the tool must
/// not run.
pub fn first_live_grant(grants: &Vec<(bool, Option<String>)>, now: &str) -> (r: Option<usize>)
    ensures
        match r {
            Some(i) => i < grants@.len() && grant_live(opt_views(grants@)[i as int].0, opt_views(grants@)[i as int].1, now@)
                && forall|k: int| 0 <= k < i ==> !grant_live(#[trigger] opt_views(grants@)[k].0, opt_views(grants@)[k].1, now@),
            None => forall|k: int| 0 <= k < grants@.len() ==> !grant_live(#[trigger] opt_views(grants@)[k].0, opt_views(grants@)[k].1, now@),
        },
{
    let ghost v = opt_views(grants@);
    let mut i: usize = 0;
    while i < grants.len()
        invariant
            i <= grants@.len(),
            v == opt_views(grants@),
            forall|k: int| 0 <= k < i ==> !grant_live(#[trigger] v[k].0, v[k].1, now@),
        decreases grants@.len() - i,
    {
        assert(v[i as int] == (grants@[i as int].0, match grants@[i as int].1 { Some(e) => Some(e@), None => None }));
        if is_live_grant(grants[i].0, &grants[i].1, now) {
            return Some(i);
        }
        i = i + 1;
    }
    None
}

} // verus!

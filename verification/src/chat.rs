//! The decisions of a chat turn: whether its context is cloud-bound, what
//! history the provider sees, which providers make up the roster, whether a
//! cloud crossing may proceed, and what is audited. Persisting messages,
//! retrieval against the database, calling providers and asking the owner
//! live with the caller, which asks this module at each step.

use vstd::prelude::*;
use crate::conversation::{role_from_name, Message, Role};
use crate::error::AppError;
use crate::ids::ConversationId;
use crate::providers::{ChatResponse, ProviderMessage, RoutingDecision, RoutingMode};
use crate::retrieval::SensitivityFilter;
use crate::settings::ProviderConfig;

verus! {

/// What the owner is shown when asked to consent to a cloud crossing; no
/// secrets, only what the decision needs.
#[derive(Debug, Clone)]
pub struct CloudConsentRequest {
    pub provider_id: String,
    pub provider_display_name: String,
    pub model: String,
    pub routing_mode: String,
    /// Approximate prompt token count, for transparency.
    pub estimated_prompt_tokens: u32,
}

/// Inputs of a single chat turn.
pub struct ChatTurn {
    pub conversation_id: ConversationId,
    pub user_text: String,
    pub routing: RoutingMode,
    pub max_tokens: u32,
    pub model: String,
}

/// What a chat turn produced, with what the UI needs to show it.
#[derive(Debug)]
pub struct ChatTurnResult {
    pub response: ChatResponse,
    pub consent_requested: Option<CloudConsentRequest>,
    pub prompt_summary: Vec<crate::identity::PromptSectionSummary>,
}

/// Some entry of the flags is set.
pub open spec fn any_set(flags: Seq<bool>) -> bool {
    exists|i: int| 0 <= i < flags.len() && #[trigger] flags[i]
}

fn any_true(flags: &[bool]) -> (r: bool)
    ensures
        r == any_set(flags@),
{
    let mut i: usize = 0;
    while i < flags.len()
        invariant
            i <= flags@.len(),
            forall|k: int| 0 <= k < i ==> !#[trigger] flags@[k],
        decreases flags@.len() - i,
    {
        if flags[i] {
            return true;
        }
        i = i + 1;
    }
    false
}

/// Whether a turn's context may end up at a cloud provider, so that
/// local-only knowledge must be kept out of it.
pub open spec fn cloud_bound_spec(mode: RoutingMode, local: Seq<bool>, cloud: Seq<bool>) -> bool {
    match mode {
        RoutingMode::LocalOnly => false,
        RoutingMode::PreferLocal | RoutingMode::AskBeforeCrossing => !any_set(local) && any_set(cloud),
        RoutingMode::PreferCloud => any_set(cloud),
        RoutingMode::CloudOnly => true,
    }
}

/// Whether a turn's context may end up at a cloud provider.
pub fn cloud_bound(mode: RoutingMode, local_reachable: &[bool], cloud_reachable: &[bool]) -> (b: bool)
    ensures
        b == cloud_bound_spec(mode, local_reachable@, cloud_reachable@),
{
    let any_local = any_true(local_reachable);
    let any_cloud = any_true(cloud_reachable);
    match mode {
        RoutingMode::LocalOnly => false,
        RoutingMode::PreferLocal | RoutingMode::AskBeforeCrossing => !any_local && any_cloud,
        RoutingMode::PreferCloud => any_cloud,
        RoutingMode::CloudOnly => true,
    }
}

/// The sensitivity filter of a turn's retrieval: a cloud-bound turn never
/// retrieves local-only knowledge.
pub fn retrieval_filter(cloud_bound: bool) -> (f: SensitivityFilter)
    ensures
        f == (if cloud_bound { SensitivityFilter::ExcludeLocalOnly } else { SensitivityFilter::All }),
{
    if cloud_bound {
        SensitivityFilter::ExcludeLocalOnly
    } else {
        SensitivityFilter::All
    }
}

/// The role a stored role name is sent as: its parsed role, or user.
pub open spec fn sent_role(name: Seq<char>) -> Role {
    match role_from_name(name) {
        Some(r) => r,
        None => Role::User,
    }
}

/// The conversation history as the provider sees it: system messages
/// dropped, every other message with its role (or user) and content.
pub open spec fn history_for_provider(history: Seq<Message>) -> Seq<(Role, Seq<char>)>
    decreases history.len(),
{
    if history.len() == 0 {
        Seq::empty()
    } else {
        let rest = history_for_provider(history.drop_last());
        let m = history.last();
        if m.role@ == "system"@ {
            rest
        } else {
            rest.push((sent_role(m.role@), m.content@))
        }
    }
}

/// The provider messages of a conversation history.
pub fn provider_messages(history: &Vec<Message>) -> (r: Vec<ProviderMessage>)
    ensures
        r@.map_values(|m: ProviderMessage| (m.role, m.content@)) == history_for_provider(history@),
{
    let mut out: Vec<ProviderMessage> = Vec::new();
    let mut i: usize = 0;
    while i < history.len()
        invariant
            i <= history@.len(),
            out@.map_values(|m: ProviderMessage| (m.role, m.content@)) == history_for_provider(history@.take(i as int)),
        decreases history@.len() - i,
    {
        proof {
            assert(history@.take(i + 1).drop_last() =~= history@.take(i as int));
        }
        let m = &history[i];
        if !crate::text::str_eq(m.role.as_str(), "system") {
            let role = match Role::parse(m.role.as_str()) {
                Some(r) => r,
                None => Role::User,
            };
            out.push(ProviderMessage { role, content: m.content.clone() });
        }
        proof {
            assert(out@.map_values(|m: ProviderMessage| (m.role, m.content@))
                =~= history_for_provider(history@.take(i + 1)));
        }
        i = i + 1;
    }
    proof {
        assert(history@.take(history@.len() as int) =~= history@);
    }
    out
}

/// How a retrieved record is shown in the prompt: `[record:<id>] <snippet>`.
pub fn retrieved_line(record_id: &str, snippet: &str) -> (s: String)
    ensures
        s@ == "[record:"@ + record_id@ + "] "@ + snippet@,
{
    let mut s = "[record:".to_owned();
    crate::text::push_str(&mut s, record_id);
    crate::text::push_str(&mut s, "] ");
    crate::text::push_str(&mut s, snippet);
    s
}

/// The model of a turn: the requested one, or the configured default when
/// none is requested.
pub fn resolve_model(config: &ProviderConfig, requested: &str) -> (m: String)
    ensures
        m@ == (if requested@.len() == 0 { config.koboldcpp_model@ } else { requested@ }),
{
    if requested.is_empty() {
        config.koboldcpp_model.clone()
    } else {
        requested.to_owned()
    }
}

/// The local KoboldCpp provider joins the roster (first) when it is
/// enabled and has an endpoint.
pub fn kobold_in_roster(config: &ProviderConfig) -> (b: bool)
    ensures
        b == (config.koboldcpp_enabled && config.koboldcpp_endpoint@.len() != 0),
{
    config.koboldcpp_enabled && !config.koboldcpp_endpoint.as_str().is_empty()
}

/// A local provider of a roster built from settings.
#[derive(Debug, Clone, Copy, PartialEq, Eq, Structural)]
pub enum LocalSlot {
    /// The KoboldCpp server of the settings.
    KoboldCpp,
    /// The echoing mock, the fallback that keeps chat working.
    Mock,
}

impl LocalSlot {
    /// The provider id of the slot.
    pub fn id(self) -> (s: &'static str)
        ensures
            self == LocalSlot::KoboldCpp ==> s@ == "koboldcpp"@,
            self == LocalSlot::Mock ==> s@ == "mock"@,
    {
        match self {
            LocalSlot::KoboldCpp => "koboldcpp",
            LocalSlot::Mock => "mock",
        }
    }
}

/// The local providers of a roster from settings, in routing order:
/// KoboldCpp first when it joins, and the mock always last.
pub fn local_roster(config: &ProviderConfig) -> (slots: Vec<LocalSlot>)
    ensures
        config.koboldcpp_enabled && config.koboldcpp_endpoint@.len() != 0
            ==> slots@ == seq![LocalSlot::KoboldCpp, LocalSlot::Mock],
        !(config.koboldcpp_enabled && config.koboldcpp_endpoint@.len() != 0) ==> slots@ == seq![LocalSlot::Mock],
{
    let mut slots: Vec<LocalSlot> = Vec::new();
    if kobold_in_roster(config) {
        slots.push(LocalSlot::KoboldCpp);
    }
    slots.push(LocalSlot::Mock);
    slots
}

/// The Venice cloud provider joins the roster when it is enabled, has an
/// endpoint, and a non-empty key is stored.
pub fn venice_in_roster(config: &ProviderConfig, api_key: &Option<String>) -> (b: bool)
    ensures
        b == (config.venice_enabled && config.venice_endpoint@.len() != 0
            && (match api_key {
                Some(k) => k@.len() != 0,
                None => false,
            })),
{
    config.venice_enabled && !config.venice_endpoint.as_str().is_empty() && match api_key {
        Some(k) => !k.as_str().is_empty(),
        None => false,
    }
}

/// The reachability of `count` providers from cached flags; a provider
/// without a flag counts as unreachable.
pub fn reachable_flags(count: usize, cached: &[bool]) -> (r: Vec<bool>)
    ensures
        r@.len() == count,
        forall|i: int| 0 <= i < count ==> #[trigger] r@[i] == (i < cached@.len() && cached@[i]),
{
    let mut r: Vec<bool> = Vec::new();
    let mut i: usize = 0;
    while i < count
        invariant
            i <= count,
            r@.len() == i,
            forall|k: int| 0 <= k < i ==> #[trigger] r@[k] == (k < cached@.len() && cached@[k]),
        decreases count - i,
    {
        r.push(i < cached.len() && cached[i]);
        i = i + 1;
    }
    r
}

/// The error of a turn no provider can serve.
pub fn no_provider_error(mode: RoutingMode) -> (e: AppError)
    ensures
        e matches AppError::Config(m) && m@ == "no provider satisfies routing mode '"@
            + crate::providers::routing_mode_name(mode) + "'"@,
{
    let mut m = "no provider satisfies routing mode '".to_owned();
    crate::text::push_str(&mut m, mode.as_str());
    crate::text::push_str(&mut m, "'");
    AppError::Config(m)
}

/// The message of a crossing the owner refused.
pub open spec fn denied_message() -> Seq<char> {
    "cloud crossing denied by owner; no transmission occurred"@
}

/// The provider a turn calls, given the routing decision and, for a cloud
/// crossing, the owner's answer: a crossing is only ever made with consent.
pub fn provider_for_turn(decision: RoutingDecision, mode: RoutingMode, consent_given: bool) -> (r: Result<usize, AppError>)
    ensures
        match decision {
            RoutingDecision::Use { provider_index } => r == Ok::<usize, AppError>(provider_index),
            RoutingDecision::NeedsCloudConsent { provider_index } => if consent_given {
                r == Ok::<usize, AppError>(provider_index)
            } else {
                r matches Err(AppError::Config(m)) && m@ == denied_message()
            },
            RoutingDecision::NoProvider => r matches Err(AppError::Config(m)) && m@
                == "no provider satisfies routing mode '"@ + crate::providers::routing_mode_name(mode) + "'"@,
        },
{
    match decision {
        RoutingDecision::Use { provider_index } => Ok(provider_index),
        RoutingDecision::NeedsCloudConsent { provider_index } => {
            if consent_given {
                Ok(provider_index)
            } else {
                Err(AppError::Config("cloud crossing denied by owner; no transmission occurred".to_owned()))
            }
        },
        RoutingDecision::NoProvider => Err(no_provider_error(mode)),
    }
}

/// No cloud provider is called without the owner's consent unless the
/// owner chose cloud-only: whatever the routing resolves to, a turn that
/// calls a cloud provider either had consent or runs in cloud-only mode.
pub proof fn lemma_no_silent_cloud_crossing(
    mode: RoutingMode,
    local_count: usize,
    cloud_count: usize,
    local_reachable: Seq<bool>,
    cloud_reachable: Seq<bool>,
    consent_given: bool,
    p: usize,
)
    requires
        crate::providers::cloud_index_fits(local_count as nat, cloud_count as nat, cloud_reachable),
        match crate::providers::routing_outcome(mode, local_count as nat, cloud_count as nat, local_reachable, cloud_reachable) {
            RoutingDecision::Use { provider_index } => provider_index == p,
            RoutingDecision::NeedsCloudConsent { provider_index } => consent_given && provider_index == p,
            RoutingDecision::NoProvider => false,
        },
        p >= local_count,
    ensures
        consent_given || mode == RoutingMode::CloudOnly,
        mode != RoutingMode::LocalOnly,
{
    crate::providers::lemma_routing_respects_privacy(mode, local_count, cloud_count, local_reachable, cloud_reachable);
}

/// With one reachability flag per provider, the first of them reachable
/// exactly when some of them is.
proof fn lemma_first_reachable_iff_any(reachable: Seq<bool>)
    ensures
        crate::providers::first_reachable(reachable, reachable.len()) is Some <==> any_set(reachable),
{
    crate::providers::lemma_first_reachable_bounds(reachable, reachable.len());
    if crate::providers::first_reachable(reachable, reachable.len()) is None {
        crate::providers::lemma_first_reachable_step(reachable, reachable.len());
    }
}

/// Whether a turn is cloud-bound agrees with where routing sends it: a turn
/// that is not cloud-bound (whose retrieval may include local-only knowledge
/// and external corpus evidence) is never sent to a cloud provider, and a
/// cloud-bound turn is never answered by a local one.
pub proof fn lemma_cloud_bound_matches_routing(
    mode: RoutingMode,
    local_count: usize,
    cloud_count: usize,
    local_reachable: Seq<bool>,
    cloud_reachable: Seq<bool>,
)
    requires
        local_reachable.len() == local_count,
        cloud_reachable.len() == cloud_count,
        crate::providers::cloud_index_fits(local_count as nat, cloud_count as nat, cloud_reachable),
    ensures
        ({
            let d = crate::providers::routing_outcome(
                mode,
                local_count as nat,
                cloud_count as nat,
                local_reachable,
                cloud_reachable,
            );
            &&& !cloud_bound_spec(mode, local_reachable, cloud_reachable) ==> (d !is NeedsCloudConsent
                && (d matches RoutingDecision::Use { provider_index: p } ==> p < local_count))
            &&& cloud_bound_spec(mode, local_reachable, cloud_reachable) ==>
                !(d matches RoutingDecision::Use { provider_index: p } && p < local_count)
        }),
{
    lemma_first_reachable_iff_any(local_reachable);
    lemma_first_reachable_iff_any(cloud_reachable);
    crate::providers::lemma_first_reachable_bounds(local_reachable, local_count as nat);
}

/// The audit action for a completed provider call.
pub fn provider_call_action(response: &ChatResponse) -> (a: &'static str)
    ensures
        a@ == (if response.crossed_to_cloud { "provider_cloud_call"@ } else { "provider_local_call"@ }),
{
    if response.crossed_to_cloud {
        "provider_cloud_call"
    } else {
        "provider_local_call"
    }
}

/// The consent request shown before a turn crosses to a cloud provider: the
/// provider, the model, the routing mode and the estimated prompt size.
pub fn consent_request(
    provider_id: &str,
    provider_display_name: &str,
    model: &str,
    routing: RoutingMode,
    estimated_prompt_tokens: u32,
) -> (c: CloudConsentRequest)
    ensures
        c.provider_id@ == provider_id@,
        c.provider_display_name@ == provider_display_name@,
        c.model@ == model@,
        c.routing_mode@ == crate::providers::routing_mode_name(routing),
        c.estimated_prompt_tokens == estimated_prompt_tokens,
{
    CloudConsentRequest {
        provider_id: crate::text::owned(provider_id),
        provider_display_name: crate::text::owned(provider_display_name),
        model: crate::text::owned(model),
        routing_mode: crate::text::owned(routing.as_str()),
        estimated_prompt_tokens,
    }
}

/// The consent request a turn reports back: the one shown, without the
/// token estimate.
pub fn reported_consent(shown: CloudConsentRequest) -> (c: CloudConsentRequest)
    ensures
        c.provider_id == shown.provider_id,
        c.provider_display_name == shown.provider_display_name,
        c.model == shown.model,
        c.routing_mode == shown.routing_mode,
        c.estimated_prompt_tokens == 0,
{
    CloudConsentRequest { estimated_prompt_tokens: 0, ..shown }
}

/// The audit action for the owner's answer to a cloud-consent request.
pub fn consent_action(approved: bool) -> (a: &'static str)
    ensures
        a@ == (if approved { "cloud_crossing_approved"@ } else { "cloud_crossing_denied"@ }),
{
    if approved {
        "cloud_crossing_approved"
    } else {
        "cloud_crossing_denied"
    }
}

} // verus!

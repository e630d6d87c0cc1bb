//! Replaceable AI provider adapters behind one stable interface, and the
//! routing rule that decides which provider answers a turn and whether the
//! owner must consent before content leaves the device.

use vstd::prelude::*;
use crate::conversation::Role;
use crate::error::AppError;

verus! {

/// Whether a provider runs locally or in the cloud.
#[derive(Debug, Clone, Copy, PartialEq, Eq, Structural)]
pub enum ProviderLocality {
    Local,
    Cloud,
}

/// Privacy class of a provider.
#[derive(Debug, Clone, Copy, PartialEq, Eq, Structural)]
pub enum PrivacyClass {
    /// Content never leaves the device.
    Local,
    /// Content leaves the device to the configured cloud endpoint.
    Cloud,
}

/// A provider's static identity.
#[derive(Debug, Clone)]
pub struct ProviderInfo {
    pub id: String,
    pub display_name: String,
    pub locality: ProviderLocality,
    pub privacy: PrivacyClass,
}

/// A single message in a provider request.
#[derive(Debug, Clone)]
pub struct ProviderMessage {
    pub role: Role,
    pub content: String,
}

/// A chat-completion request handed to a provider.
#[derive(Debug, Clone)]
pub struct ChatRequest {
    /// The assembled system prompt.
    pub system: String,
    pub messages: Vec<ProviderMessage>,
    pub model: String,
    /// Maximum tokens the provider may generate.
    pub max_tokens: u32,
    /// The turn's routing mode.
    pub routing: RoutingMode,
}

/// A complete chat-completion response.
#[derive(Debug, Clone)]
pub struct ChatResponse {
    pub content: String,
    pub provider: String,
    pub model: String,
    /// Whether the request content crossed to a cloud provider.
    pub crossed_to_cloud: bool,
    /// Provider-reported usage, if any.
    pub usage: Option<TokenUsage>,
}

/// Token counts of one completion.
#[derive(Debug, Clone, Copy)]
pub struct TokenUsage {
    pub prompt_tokens: u32,
    pub completion_tokens: u32,
}

impl Default for TokenUsage {
    fn default() -> (u: Self)
        ensures
            u.prompt_tokens == 0,
            u.completion_tokens == 0,
    {
        TokenUsage { prompt_tokens: 0, completion_tokens: 0 }
    }
}

/// How a turn may be routed between local and cloud providers.
#[derive(Debug, Clone, Copy, PartialEq, Eq, Structural)]
pub enum RoutingMode {
    LocalOnly,
    PreferLocal,
    PreferCloud,
    CloudOnly,
    AskBeforeCrossing,
}

/// The stable string form of each [`RoutingMode`].
pub open spec fn routing_mode_name(x: RoutingMode) -> Seq<char> {
    match x {
        RoutingMode::LocalOnly => "local_only"@,
        RoutingMode::PreferLocal => "prefer_local"@,
        RoutingMode::PreferCloud => "prefer_cloud"@,
        RoutingMode::CloudOnly => "cloud_only"@,
        RoutingMode::AskBeforeCrossing => "ask_before_crossing"@,
    }
}

impl RoutingMode {
    /// The stable string form.
    pub fn as_str(self) -> (s: &'static str)
        ensures
            s@ == routing_mode_name(self),
    {
        match self {
            RoutingMode::LocalOnly => "local_only",
            RoutingMode::PreferLocal => "prefer_local",
            RoutingMode::PreferCloud => "prefer_cloud",
            RoutingMode::CloudOnly => "cloud_only",
            RoutingMode::AskBeforeCrossing => "ask_before_crossing",
        }
    }
}

impl RoutingMode {
    /// The routing mode of a fresh vault.
    pub const DEFAULT: RoutingMode = RoutingMode::AskBeforeCrossing;
}

impl Default for RoutingMode {
    fn default() -> (m: Self)
        ensures
            m == RoutingMode::AskBeforeCrossing,
    {
        RoutingMode::AskBeforeCrossing
    }
}

/// The outcome of routing. Providers occupy one combined index list: local
/// providers first, then cloud providers at offsets `>= local_count`.
#[derive(Debug, Clone, Copy, PartialEq, Eq, Structural)]
pub enum RoutingDecision {
    /// Use this provider; it crosses no boundary that needs consent.
    Use { provider_index: usize },
    /// A cloud crossing is required; the owner must consent before the
    /// cloud provider at this index is called.
    NeedsCloudConsent { provider_index: usize },
    /// No provider satisfies the routing mode.
    NoProvider,
}

/// The first index below `count` whose provider is known and reachable.
pub open spec fn first_reachable(reachable: Seq<bool>, count: nat) -> Option<nat>
    decreases count,
{
    if count == 0 {
        None
    } else {
        match first_reachable(reachable, (count - 1) as nat) {
            Some(i) => Some(i),
            None => if count - 1 < reachable.len() && reachable[count - 1] {
                Some((count - 1) as nat)
            } else {
                None
            },
        }
    }
}

/// The routing decision for the given mode and reachability.
pub open spec fn routing_outcome(
    mode: RoutingMode,
    local_count: nat,
    cloud_count: nat,
    local_reachable: Seq<bool>,
    cloud_reachable: Seq<bool>,
) -> RoutingDecision {
    let first_local = first_reachable(local_reachable, local_count);
    let first_cloud = first_reachable(cloud_reachable, cloud_count);
    let use_local = match first_local {
        Some(i) => RoutingDecision::Use { provider_index: i as usize },
        None => RoutingDecision::NoProvider,
    };
    let ask_cloud = match first_cloud {
        Some(j) => RoutingDecision::NeedsCloudConsent { provider_index: (local_count + j) as usize },
        None => RoutingDecision::NoProvider,
    };
    match mode {
        RoutingMode::LocalOnly => use_local,
        RoutingMode::CloudOnly => match first_cloud {
            Some(j) => RoutingDecision::Use { provider_index: (local_count + j) as usize },
            None => RoutingDecision::NoProvider,
        },
        RoutingMode::PreferLocal | RoutingMode::AskBeforeCrossing => if first_local is Some {
            use_local
        } else {
            ask_cloud
        },
        RoutingMode::PreferCloud => if first_cloud is Some {
            ask_cloud
        } else {
            use_local
        },
    }
}

/// The combined index of the first reachable cloud provider fits in `usize`.
pub open spec fn cloud_index_fits(local_count: nat, cloud_count: nat, cloud_reachable: Seq<bool>) -> bool {
    match first_reachable(cloud_reachable, cloud_count) {
        Some(j) => local_count + j <= usize::MAX,
        None => true,
    }
}

pub(crate) proof fn lemma_first_reachable_step(reachable: Seq<bool>, count: nat)
    requires
        first_reachable(reachable, count) is None,
    ensures
        forall|k: int| 0 <= k < count && k < reachable.len() ==> !reachable[k],
    decreases count,
{
    if count > 0 {
        lemma_first_reachable_step(reachable, (count - 1) as nat);
    }
}

pub(crate) proof fn lemma_first_reachable_bounds(reachable: Seq<bool>, count: nat)
    ensures
        first_reachable(reachable, count) matches Some(i) ==> i < count && i < reachable.len() && reachable[i as int],
    decreases count,
{
    if count > 0 {
        lemma_first_reachable_bounds(reachable, (count - 1) as nat);
    }
}

/// The first index below `count` whose entry of `reachable` is `true`.
fn find_first_reachable(count: usize, reachable: &[bool]) -> (r: Option<usize>)
    ensures
        match first_reachable(reachable@, count as nat) {
            Some(i) => r == Some(i as usize),
            None => r is None,
        },
{
    let mut i: usize = 0;
    while i < count
        invariant
            i <= count,
            first_reachable(reachable@, i as nat) is None,
        decreases count - i,
    {
        if i < reachable.len() && reachable[i] {
            assert(first_reachable(reachable@, (i + 1) as nat) == Some(i as nat));
            proof {
                lemma_first_reachable_prefix(reachable@, (i + 1) as nat, count as nat, i as nat);
            }
            return Some(i);
        }
        i = i + 1;
    }
    None
}

proof fn lemma_first_reachable_prefix(reachable: Seq<bool>, a: nat, b: nat, i: nat)
    requires
        a <= b,
        first_reachable(reachable, a) == Some(i),
    ensures
        first_reachable(reachable, b) == Some(i),
    decreases b - a,
{
    if a < b {
        lemma_first_reachable_prefix(reachable, a, (b - 1) as nat, i);
    }
}

/// Resolve which provider answers a turn. `local_reachable[i]` and
/// `cloud_reachable[i]` say whether that provider is configured and
/// reachable; an index past the end of either slice counts as unreachable.
pub fn resolve_routing(
    mode: RoutingMode,
    local_count: usize,
    cloud_count: usize,
    local_reachable: &[bool],
    cloud_reachable: &[bool],
) -> (d: RoutingDecision)
    requires
        cloud_index_fits(local_count as nat, cloud_count as nat, cloud_reachable@),
    ensures
        d == routing_outcome(mode, local_count as nat, cloud_count as nat, local_reachable@, cloud_reachable@),
{
    let first_local = find_first_reachable(local_count, local_reachable);
    let first_cloud = find_first_reachable(cloud_count, cloud_reachable);
    match mode {
        RoutingMode::LocalOnly => match first_local {
            Some(i) => RoutingDecision::Use { provider_index: i },
            None => RoutingDecision::NoProvider,
        },
        RoutingMode::CloudOnly => match first_cloud {
            Some(j) => RoutingDecision::Use { provider_index: local_count + j },
            None => RoutingDecision::NoProvider,
        },
        RoutingMode::PreferLocal | RoutingMode::AskBeforeCrossing => match first_local {
            Some(i) => RoutingDecision::Use { provider_index: i },
            None => match first_cloud {
                Some(j) => RoutingDecision::NeedsCloudConsent { provider_index: local_count + j },
                None => RoutingDecision::NoProvider,
            },
        },
        RoutingMode::PreferCloud => match first_cloud {
            Some(j) => RoutingDecision::NeedsCloudConsent { provider_index: local_count + j },
            None => match first_local {
                Some(i) => RoutingDecision::Use { provider_index: i },
                None => RoutingDecision::NoProvider,
            },
        },
    }
}

/// Routing never sends content to the cloud behind the owner's back: a
/// decision names a reachable provider of the right side; a cloud index is
/// used without consent only when the owner chose cloud-only; local-only
/// never reaches the cloud; and "no provider" comes only when no allowed
/// provider is reachable.
pub proof fn lemma_routing_respects_privacy(
    mode: RoutingMode,
    local_count: usize,
    cloud_count: usize,
    local_reachable: Seq<bool>,
    cloud_reachable: Seq<bool>,
)
    requires
        cloud_index_fits(local_count as nat, cloud_count as nat, cloud_reachable),
    ensures
        ({
            let d = routing_outcome(mode, local_count as nat, cloud_count as nat, local_reachable, cloud_reachable);
            &&& d matches RoutingDecision::Use { provider_index: p } ==> (
                if p < local_count {
                    p < local_reachable.len() && local_reachable[p as int]
                } else {
                    mode == RoutingMode::CloudOnly
                        && p - local_count < cloud_count
                        && p - local_count < cloud_reachable.len()
                        && cloud_reachable[p - local_count]
                })
            &&& d matches RoutingDecision::NeedsCloudConsent { provider_index: p } ==> (
                mode != RoutingMode::LocalOnly && mode != RoutingMode::CloudOnly
                    && local_count <= p
                    && p - local_count < cloud_count
                    && p - local_count < cloud_reachable.len()
                    && cloud_reachable[p - local_count])
            &&& mode == RoutingMode::LocalOnly ==> !(d is NeedsCloudConsent)
            &&& mode == RoutingMode::LocalOnly ==> (d matches RoutingDecision::Use { provider_index: p } ==> p < local_count)
            &&& (mode == RoutingMode::PreferLocal || mode == RoutingMode::AskBeforeCrossing)
                && (exists|k: int| 0 <= k < local_count && k < local_reachable.len() && local_reachable[k])
                ==> d is Use
            &&& d is NoProvider ==> (mode != RoutingMode::CloudOnly ==>
                forall|k: int| 0 <= k < local_count && k < local_reachable.len() ==> !local_reachable[k])
            &&& d is NoProvider ==> (mode != RoutingMode::LocalOnly ==>
                forall|k: int| 0 <= k < cloud_count && k < cloud_reachable.len() ==> !cloud_reachable[k])
        }),
{
    lemma_first_reachable_bounds(local_reachable, local_count as nat);
    lemma_first_reachable_bounds(cloud_reachable, cloud_count as nat);
    if first_reachable(local_reachable, local_count as nat) is None {
        lemma_first_reachable_step(local_reachable, local_count as nat);
    }
    if first_reachable(cloud_reachable, cloud_count as nat) is None {
        lemma_first_reachable_step(cloud_reachable, cloud_count as nat);
    }
}

/// A rough token estimate: a quarter of the character count, the count
/// taken modulo 2^32.
pub open spec fn token_estimate(text: Seq<char>) -> u32 {
    ((text.len() as u32) / 4) as u32
}

/// The estimate of `token_estimate`, computed.
pub fn estimate_tokens_of(text: &str) -> (n: u32)
    ensures
        n == token_estimate(text@),
{
    let count: usize = crate::text::chars_of(text).len();
    let c32: u32 = count as u32;
    c32 / 4
}

/// The stable provider interface every adapter implements.
pub trait Provider {
    /// Static identity of this provider.
    fn info(&self) -> ProviderInfo;

    /// Non-streaming chat completion.
    fn chat(&self, req: &ChatRequest) -> Result<ChatResponse, AppError>;

    /// Available models, where the provider supports discovery.
    fn list_models(&self) -> (r: Result<Vec<String>, AppError>)
        default_ensures
            r matches Ok(v) && v@.len() == 0,
    {
        Ok(Vec::new())
    }

    /// Test connectivity and credentials.
    fn test_connection(&self) -> Result<(), AppError>;

    /// Rough token estimate for a chunk of text.
    fn estimate_tokens(&self, text: &str) -> (n: u32)
        default_ensures
            n == token_estimate(text@),
    {
        estimate_tokens_of(text)
    }
}

/// How the mock provider answers.
#[derive(Debug, Clone)]
pub enum MockMode {
    Fixed(String),
    Echo,
}

/// A deterministic provider whose answers depend only on the request; it
/// does no I/O and never crosses a privacy boundary.
pub struct MockProvider {
    mode: MockMode,
}

/// The content of the last user message, or empty when there is none.
pub open spec fn last_user_content(msgs: Seq<ProviderMessage>) -> Seq<char>
    decreases msgs.len(),
{
    if msgs.len() == 0 {
        Seq::empty()
    } else if msgs.last().role == Role::User {
        msgs.last().content@
    } else {
        last_user_content(msgs.drop_last())
    }
}

/// The reply of a mock provider in the given mode to the given messages.
pub open spec fn mock_reply(mode: MockMode, msgs: Seq<ProviderMessage>) -> Seq<char> {
    match mode {
        MockMode::Fixed(s) => s@,
        MockMode::Echo => "[mock echo] "@ + last_user_content(msgs),
    }
}

impl MockProvider {
    /// The mode this provider answers in.
    pub closed spec fn mode_spec(&self) -> MockMode {
        self.mode
    }

    /// A provider that always answers `reply`.
    pub fn fixed(reply: &str) -> (p: Self)
        ensures
            p.mode_spec() matches MockMode::Fixed(s) && s@ == reply@,
    {
        MockProvider { mode: MockMode::Fixed(reply.to_owned()) }
    }

    /// A provider that echoes the last user message.
    pub fn echo() -> (p: Self)
        ensures
            p.mode_spec() is Echo,
    {
        MockProvider { mode: MockMode::Echo }
    }

    /// The content of the last user message, or "" when there is none.
    fn last_user(msgs: &Vec<ProviderMessage>) -> (s: &str)
        ensures
            s@ == last_user_content(msgs@),
    {
        let mut i: usize = msgs.len();
        proof {
            assert(msgs@.take(i as int) =~= msgs@);
        }
        while i > 0
            invariant
                i <= msgs@.len(),
                last_user_content(msgs@) == last_user_content(msgs@.take(i as int)),
            decreases i,
        {
            let m = &msgs[i - 1];
            proof {
                assert(msgs@.take(i as int).drop_last() =~= msgs@.take(i - 1));
            }
            if m.role == Role::User {
                return m.content.as_str();
            }
            i = i - 1;
        }
        proof {
            assert(msgs@.take(0) =~= Seq::<ProviderMessage>::empty());
            reveal_strlit("");
        }
        ""
    }

    /// The reply text for the given messages.
    fn reply_for(&self, msgs: &Vec<ProviderMessage>) -> (s: String)
        ensures
            s@ == mock_reply(self.mode_spec(), msgs@),
    {
        match &self.mode {
            MockMode::Fixed(s) => s.clone(),
            MockMode::Echo => {
                let mut out = "[mock echo] ".to_owned();
                crate::text::push_str(&mut out, Self::last_user(msgs));
                out
            },
        }
    }
}

impl Provider for MockProvider {
    fn info(&self) -> (i: ProviderInfo)
        ensures
            i.id@ == "mock"@,
            i.display_name@ == "Deterministic mock"@,
            i.locality == ProviderLocality::Local,
            i.privacy == PrivacyClass::Local,
    {
        ProviderInfo {
            id: "mock".to_owned(),
            display_name: "Deterministic mock".to_owned(),
            locality: ProviderLocality::Local,
            privacy: PrivacyClass::Local,
        }
    }

    fn chat(&self, req: &ChatRequest) -> (r: Result<ChatResponse, AppError>)
        ensures
            r matches Ok(resp) && {
                &&& resp.content@ == mock_reply(self.mode_spec(), req.messages@)
                &&& resp.provider@ == "mock"@
                &&& resp.model@ == req.model@
                &&& !resp.crossed_to_cloud
                &&& resp.usage == Some(TokenUsage {
                    prompt_tokens: token_estimate(req.system@),
                    completion_tokens: token_estimate(resp.content@),
                })
            },
    {
        let content = self.reply_for(&req.messages);
        let prompt_tokens = estimate_tokens_of(req.system.as_str());
        let completion_tokens = estimate_tokens_of(content.as_str());
        Ok(ChatResponse {
            content,
            provider: "mock".to_owned(),
            model: req.model.clone(),
            crossed_to_cloud: false,
            usage: Some(TokenUsage { prompt_tokens, completion_tokens }),
        })
    }

    fn list_models(&self) -> (r: Result<Vec<String>, AppError>)
        ensures
            r matches Ok(v) && v@.len() == 1 && v@[0]@ == "mock-1"@,
    {
        let mut v: Vec<String> = Vec::new();
        v.push("mock-1".to_owned());
        Ok(v)
    }

    fn test_connection(&self) -> (r: Result<(), AppError>)
        ensures
            r is Ok,
    {
        Ok(())
    }
}

/// The OpenAI-compatible URL `<endpoint>/v1<path>`, with any trailing `/`
/// of the endpoint removed first.
pub open spec fn v1_url_spec(endpoint: Seq<char>, path: Seq<char>) -> Seq<char> {
    strip_trailing_slashes(endpoint) + "/v1"@ + path
}

/// `s` without its trailing `/` characters.
pub open spec fn strip_trailing_slashes(s: Seq<char>) -> Seq<char>
    decreases s.len(),
{
    if s.len() > 0 && s.last() == '/' {
        strip_trailing_slashes(s.drop_last())
    } else {
        s
    }
}

/// Build `<endpoint>/v1<path>` for an OpenAI-compatible server.
pub fn v1_url(endpoint: &str, path: &str) -> (u: String)
    ensures
        u@ == v1_url_spec(endpoint@, path@),
{
    let chars = crate::text::chars_of(endpoint);
    let mut n: usize = chars.len();
    proof {
        assert(chars@.take(n as int) =~= chars@);
    }
    while n > 0 && chars[n - 1] == '/'
        invariant
            n <= chars@.len(),
            strip_trailing_slashes(chars@) == strip_trailing_slashes(chars@.take(n as int)),
        decreases n,
    {
        proof {
            assert(chars@.take(n as int).drop_last() =~= chars@.take(n - 1));
        }
        n = n - 1;
    }
    let mut out = String::new();
    let mut i: usize = 0;
    while i < n
        invariant
            i <= n <= chars@.len(),
            out@ == chars@.take(i as int),
        decreases n - i,
    {
        proof {
            assert(chars@.take(i + 1) =~= chars@.take(i as int).push(chars@[i as int]));
        }
        crate::text::push_char(&mut out, chars[i]);
        i = i + 1;
    }
    proof {
        assert(strip_trailing_slashes(chars@.take(n as int)) == chars@.take(n as int));
    }
    crate::text::push_str(&mut out, "/v1");
    crate::text::push_str(&mut out, path);
    out
}


/// What `serde_json` reads from a chat-completion reply: the string at
/// `choices[0].message.content` (`None` when that is missing or not a
/// string), or the parser's message when the reply is not JSON.
pub uninterp spec fn chat_reply_text(raw: Seq<char>) -> Result<Option<Seq<char>>, Seq<char>>;

/// `serde_json::from_str` into a `serde_json::Value`, and the string at
/// `choices[0].message.content` picked out of it; the parser's error as its
/// message.
#[verifier::external_body]
fn read_chat_reply(raw: &str) -> (r: Result<Option<String>, String>)
    ensures
        match r {
            Ok(Some(c)) => chat_reply_text(raw@) == Ok::<Option<Seq<char>>, Seq<char>>(Some(c@)),
            Ok(None) => chat_reply_text(raw@) == Ok::<Option<Seq<char>>, Seq<char>>(None),
            Err(m) => chat_reply_text(raw@) == Err::<Option<Seq<char>>, Seq<char>>(m@),
        },
{
    match serde_json::from_str::<serde_json::Value>(raw) {
        Ok(v) => Ok(v["choices"][0]["message"]["content"].as_str().map(str::to_owned)),
        Err(e) => Err(e.to_string()),
    }
}

/// The assistant text of an OpenAI-compatible chat reply from the provider
/// `who`: a reply that is not JSON, or has no text, is a configuration error
/// naming the provider.
pub fn reply_content(raw: &str, who: &str) -> (r: Result<String, AppError>)
    ensures
        match chat_reply_text(raw@) {
            Ok(Some(c)) => r matches Ok(s) && s@ == c,
            Ok(None) => r matches Err(AppError::Config(e)) && e@ == who@ + " missing content"@,
            Err(m) => r matches Err(AppError::Config(e)) && e@ == who@ + " bad response: "@ + m,
        },
{
    match read_chat_reply(raw) {
        Ok(Some(c)) => Ok(c),
        Ok(None) => {
            let mut e = who.to_owned();
            crate::text::push_str(&mut e, " missing content");
            Err(AppError::Config(e))
        },
        Err(m) => {
            let mut e = who.to_owned();
            crate::text::push_str(&mut e, " bad response: ");
            crate::text::push_str(&mut e, m.as_str());
            Err(AppError::Config(e))
        },
    }
}

} // verus!

//! Per-vault provider configuration: non-secret endpoints, model names and
//! the switches of the external knowledge adapter. Credentials are stored
//! apart, encrypted with the vault key.

use vstd::prelude::*;
use crate::text::{chars_eq, chars_of, trim_chars, trim_spec};

verus! {

/// Provider configuration stored per vault.
#[derive(Debug, Clone)]
pub struct ProviderConfig {
    /// KoboldCpp endpoint base URL; empty if not configured.
    pub koboldcpp_endpoint: String,
    /// Default model name for KoboldCpp; empty if unset.
    pub koboldcpp_model: String,
    /// Whether the KoboldCpp provider is enabled.
    pub koboldcpp_enabled: bool,
    pub venice_endpoint: String,
    pub venice_model: String,
    pub venice_enabled: bool,
    /// Read-only hint that a Venice key is stored; the key itself is not.
    pub venice_has_api_key: bool,
    /// Feature gate for read-only queries to the external knowledge corpus.
    pub pkc_enabled: bool,
    /// Python executable that runs the gateway script.
    pub pkc_python_executable: String,
    /// Absolute path of the gateway script.
    pub pkc_bridge_script: String,
    /// Optional corpus root passed to the gateway.
    pub pkc_root: String,
    /// Source identity Sammy is allowed to read; empty disables the query.
    pub pkc_source_id: String,
    /// Last verified health state; empty means not tested.
    pub pkc_last_health_state: String,
    /// RFC 3339 time of the last probe.
    pub pkc_last_health_at: String,
}

/// The Venice endpoint a fresh configuration points at.
pub open spec fn venice_endpoint_default() -> Seq<char> {
    "https://api.venice.ai/api/v1"@
}

/// The Venice endpoint a fresh configuration points at.
pub fn default_venice_endpoint() -> (s: String)
    ensures
        s@ == venice_endpoint_default(),
{
    "https://api.venice.ai/api/v1".to_owned()
}

/// `c` is the configuration of a fresh vault: everything off and empty but
/// the default Venice endpoint.
pub open spec fn is_default_config(c: ProviderConfig) -> bool {
    &&& c.koboldcpp_endpoint@.len() == 0
    &&& c.koboldcpp_model@.len() == 0
    &&& !c.koboldcpp_enabled
    &&& c.venice_endpoint@ == venice_endpoint_default()
    &&& c.venice_model@.len() == 0
    &&& !c.venice_enabled
    &&& !c.venice_has_api_key
    &&& !c.pkc_enabled
    &&& c.pkc_python_executable@.len() == 0
    &&& c.pkc_bridge_script@.len() == 0
    &&& c.pkc_root@.len() == 0
    &&& c.pkc_source_id@.len() == 0
    &&& c.pkc_last_health_state@.len() == 0
    &&& c.pkc_last_health_at@.len() == 0
}

impl Default for ProviderConfig {
    fn default() -> (c: Self)
        ensures
            is_default_config(c),
    {
        ProviderConfig {
            koboldcpp_endpoint: String::new(),
            koboldcpp_model: String::new(),
            koboldcpp_enabled: false,
            venice_endpoint: default_venice_endpoint(),
            venice_model: String::new(),
            venice_enabled: false,
            venice_has_api_key: false,
            pkc_enabled: false,
            pkc_python_executable: String::new(),
            pkc_bridge_script: String::new(),
            pkc_root: String::new(),
            pkc_source_id: String::new(),
            pkc_last_health_state: String::new(),
            pkc_last_health_at: String::new(),
        }
    }
}

fn trimmed_eq(a: &String, b: &String) -> (r: bool)
    ensures
        r == (trim_spec(a@) == trim_spec(b@)),
{
    let ta = trim_chars(&chars_of(a.as_str()));
    let tb = trim_chars(&chars_of(b.as_str()));
    chars_eq(&ta, &tb)
}

/// The external knowledge identity (executable, gateway script, root or
/// source) differs between the two configurations, compared trimmed.
pub open spec fn pkc_identity_differs(previous: ProviderConfig, next: ProviderConfig) -> bool {
    ||| trim_spec(previous.pkc_python_executable@) != trim_spec(next.pkc_python_executable@)
    ||| trim_spec(previous.pkc_bridge_script@) != trim_spec(next.pkc_bridge_script@)
    ||| trim_spec(previous.pkc_root@) != trim_spec(next.pkc_root@)
    ||| trim_spec(previous.pkc_source_id@) != trim_spec(next.pkc_source_id@)
}

/// Whether saving `next` over `previous` changes which external knowledge
/// source is consulted, so that its last health state no longer applies.
pub fn pkc_identity_changed(previous: &ProviderConfig, next: &ProviderConfig) -> (r: bool)
    ensures
        r == pkc_identity_differs(*previous, *next),
{
    !trimmed_eq(&previous.pkc_python_executable, &next.pkc_python_executable)
        || !trimmed_eq(&previous.pkc_bridge_script, &next.pkc_bridge_script)
        || !trimmed_eq(&previous.pkc_root, &next.pkc_root)
        || !trimmed_eq(&previous.pkc_source_id, &next.pkc_source_id)
}

} // verus!

//! The wall clock, as the RFC 3339 timestamps recorded in the vault.

use vstd::prelude::*;

verus! {

/// `chrono::Utc::now().to_rfc3339()`: the current UTC time in RFC 3339
/// form. Nothing is promised of the value: it is the time.
#[verifier::external_body]
pub(crate) fn now_rfc3339() -> String {
    chrono::Utc::now().to_rfc3339()
}

} // verus!

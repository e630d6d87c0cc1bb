//! Crate-wide error type. Messages carry no secret material (keys,
//! passphrases, private prompt text).

use vstd::prelude::*;

verus! {

#[derive(Debug)]
pub enum AppError {
    VaultLocked,
    Vault(String),
    Crypto,
    InvalidArgument(String),
    NotFound(String),
    Io(String),
    Database,
    Serde(String),
    Config(String),
}

} // verus!

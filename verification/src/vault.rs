//! Independent encrypted vaults: each has its own random data-encryption
//! key, its own encrypted database and its own manifest, with no shared key
//! material. This module decides what a vault's manifest holds and what
//! unlocks it; directories, files and the database live with the caller.

use vstd::prelude::*;
use crate::crypto::argon2_params::{params_valid, Params};
use crate::crypto::recovery::RecoveryCode;
use crate::crypto::{passphrase_unlock, recovery_unlock, SecretKey, VaultKeyMaterial, KEY_MATERIAL_VERSION};
use crate::error::AppError;
use crate::ids::{is_v4, VaultId};

verus! {

/// Shortest master passphrase accepted, in bytes.
pub const MIN_PASSPHRASE_LEN: usize = 8;

/// Initial vault templates; a template is only a name and shares no data.
#[derive(Debug, Clone, Copy, PartialEq, Eq, Structural)]
pub enum VaultTemplate {
    Personal,
    Witness,
    Consigliere,
    Custom,
}

/// The default name of each template.
pub open spec fn template_name(t: VaultTemplate) -> Seq<char> {
    match t {
        VaultTemplate::Personal => "Personal"@,
        VaultTemplate::Witness => "Witness"@,
        VaultTemplate::Consigliere => "Consigliere"@,
        VaultTemplate::Custom => "Custom"@,
    }
}

impl VaultTemplate {
    /// The default name of this template.
    pub fn default_name(self) -> (s: &'static str)
        ensures
            s@ == template_name(self),
    {
        match self {
            VaultTemplate::Personal => "Personal",
            VaultTemplate::Witness => "Witness",
            VaultTemplate::Consigliere => "Consigliere",
            VaultTemplate::Custom => "Custom",
        }
    }
}

/// A vault's on-disk metadata: only wrapped keys and non-secret data.
#[derive(Debug, Clone)]
pub struct VaultManifest {
    pub version: u32,
    pub vault_id: VaultId,
    pub name: String,
    pub template: VaultTemplate,
    pub created_at: String,
    pub key_material: VaultKeyMaterial,
}

impl VaultManifest {
    /// Format version of the manifest.
    pub const VERSION: u32 = 1;
}

/// The refusal of a passphrase shorter than the minimum.
pub open spec fn short_passphrase_message() -> Seq<char> {
    "passphrase must be at least 8 bytes"@
}

/// Refuse a new passphrase shorter than the minimum.
pub fn check_new_passphrase(passphrase: &[u8]) -> (r: Result<(), AppError>)
    ensures
        passphrase@.len() >= MIN_PASSPHRASE_LEN ==> r is Ok,
        passphrase@.len() < MIN_PASSPHRASE_LEN ==> (r matches Err(AppError::InvalidArgument(m))
            && m@ == short_passphrase_message()),
{
    if passphrase.len() < MIN_PASSPHRASE_LEN {
        return Err(AppError::InvalidArgument("passphrase must be at least 8 bytes".to_owned()));
    }
    Ok(())
}

/// A new vault's manifest, its plaintext key (for the caller to open a
/// session) and its recovery code (to show the owner once). The passphrase
/// and the recovery code each unlock exactly that key.
pub fn new_manifest(name: &str, template: VaultTemplate, passphrase: &[u8]) -> (r: Result<
    (VaultManifest, SecretKey, RecoveryCode),
    AppError,
>)
    requires
        passphrase@.len() <= 0xFFFF_FFFF,
    ensures
        passphrase@.len() < MIN_PASSPHRASE_LEN ==> (r matches Err(AppError::InvalidArgument(m))
            && m@ == short_passphrase_message()),
        passphrase@.len() >= MIN_PASSPHRASE_LEN ==> (r matches Ok((m, dek, code)) && {
            &&& m.version == VaultManifest::VERSION
            &&& is_v4(m.vault_id.0)
            &&& m.name@ == name@
            &&& m.template == template
            &&& m.key_material.version == KEY_MATERIAL_VERSION
            &&& m.key_material.params == crate::crypto::argon2_params::floor_params()
            &&& passphrase_unlock(m.key_material, passphrase@) == Some(dek@)
            &&& recovery_unlock(m.key_material, code@) == Some(dek@)
        }),
{
    check_new_passphrase(passphrase)?;
    let vault_id = VaultId::new();
    let params = Params::production_default();
    let recovery = RecoveryCode::generate();
    let (material, dek) = match VaultKeyMaterial::create(passphrase, &recovery, &params) {
        Ok(x) => x,
        Err(_) => return Err(AppError::Crypto),
    };
    let manifest = VaultManifest {
        version: VaultManifest::VERSION,
        vault_id,
        name: name.to_owned(),
        template,
        created_at: crate::time::now_rfc3339(),
        key_material: material,
    };
    Ok((manifest, dek, recovery))
}

/// Unlock a vault's key with the master passphrase; any failure is the
/// opaque crypto error.
pub fn unlock_manifest_with_passphrase(manifest: &VaultManifest, passphrase: &[u8]) -> (r: Result<SecretKey, AppError>)
    requires
        params_valid(manifest.key_material.params),
    ensures
        passphrase@.len() <= 0xFFFF_FFFF ==> match passphrase_unlock(manifest.key_material, passphrase@) {
            Some(k) => r matches Ok(key) && key@ == k,
            None => r matches Err(AppError::Crypto),
        },
        passphrase@.len() > 0xFFFF_FFFF ==> r matches Err(AppError::Crypto),
{
    if passphrase.len() > 0xFFFF_FFFF {
        return Err(AppError::Crypto);
    }
    match manifest.key_material.unlock_with_passphrase(passphrase) {
        Ok(k) => Ok(k),
        Err(_) => Err(AppError::Crypto),
    }
}

/// Unlock a vault's key with the recovery code; any failure is the opaque
/// crypto error.
pub fn unlock_manifest_with_recovery(manifest: &VaultManifest, recovery: &RecoveryCode) -> (r: Result<SecretKey, AppError>)
    ensures
        match recovery_unlock(manifest.key_material, recovery@) {
            Some(k) => r matches Ok(key) && key@ == k,
            None => r matches Err(AppError::Crypto),
        },
{
    match manifest.key_material.unlock_with_recovery(recovery) {
        Ok(k) => Ok(k),
        Err(_) => Err(AppError::Crypto),
    }
}

/// Replace a forgotten master passphrase with the recovery code: the code
/// must unlock the key; the key and the recovery wrapping stay the same.
/// Afterwards the new passphrase unlocks the key and the recovery code
/// still does.
pub fn recover_manifest(manifest: &VaultManifest, recovery: &RecoveryCode, new_passphrase: &[u8]) -> (r: Result<
    (VaultManifest, SecretKey),
    AppError,
>)
    requires
        params_valid(manifest.key_material.params),
        new_passphrase@.len() <= 0xFFFF_FFFF,
    ensures
        new_passphrase@.len() < MIN_PASSPHRASE_LEN ==> (r matches Err(AppError::InvalidArgument(m))
            && m@ == short_passphrase_message()),
        new_passphrase@.len() >= MIN_PASSPHRASE_LEN && recovery_unlock(manifest.key_material, recovery@) is None
            ==> r matches Err(AppError::Crypto),
        new_passphrase@.len() >= MIN_PASSPHRASE_LEN ==> (recovery_unlock(manifest.key_material, recovery@) matches Some(k)
            ==> (r matches Ok((m, dek)) && {
            &&& dek@ == k
            &&& m.vault_id == manifest.vault_id
            &&& m.name@ == manifest.name@
            &&& m.template == manifest.template
            &&& m.key_material.params == manifest.key_material.params
            &&& passphrase_unlock(m.key_material, new_passphrase@) == Some(k)
            &&& recovery_unlock(m.key_material, recovery@) == Some(k)
        })),
{
    check_new_passphrase(new_passphrase)?;
    let dek = unlock_manifest_with_recovery(manifest, recovery)?;
    let material = match manifest.key_material.with_new_passphrase(&dek, new_passphrase) {
        Ok(m) => m,
        Err(_) => return Err(AppError::Crypto),
    };
    let updated = VaultManifest {
        version: manifest.version,
        vault_id: manifest.vault_id,
        name: manifest.name.clone(),
        template: manifest.template,
        created_at: manifest.created_at.clone(),
        key_material: material,
    };
    Ok((updated, dek))
}

/// The database key pragma value for a key: `x'` + 64 lowercase hex digits
/// + `'`.
pub fn sqlcipher_key_literal(dek: &SecretKey) -> (s: String)
    ensures
        s@ == "x'"@ + crate::crypto::digest::hex_lower(dek@) + "'"@,
{
    let mut s = "x'".to_owned();
    let hex = crate::crypto::digest::hex_encode(dek.as_bytes());
    crate::text::push_str(&mut s, hex.as_str());
    crate::text::push_str(&mut s, "'");
    s
}

} // verus!

use sammy_lib::crypto::recovery::RecoveryCode;
use sammy_lib::error::AppError;
use sammy_lib::vault::{
    check_new_passphrase, new_manifest, recover_manifest, sqlcipher_key_literal, unlock_manifest_with_passphrase,
    unlock_manifest_with_recovery, VaultTemplate,
};
use sammy_lib::views::{require_restore_confirmation, VaultSummary};

#[test]
fn create_then_unlock_with_passphrase() {
    let (manifest, dek, _recovery) = new_manifest("Personal", VaultTemplate::Personal, b"correct horse").unwrap();
    let unlocked = unlock_manifest_with_passphrase(&manifest, b"correct horse").unwrap();
    assert!(unlocked == dek);
    assert_eq!(manifest.name, "Personal");
    assert_eq!(manifest.template, VaultTemplate::Personal);
}

#[test]
fn unlock_with_wrong_passphrase_fails() {
    let (manifest, _, _) = new_manifest("P", VaultTemplate::Personal, b"correct horse").unwrap();
    let err = unlock_manifest_with_passphrase(&manifest, b"wrong passphrase").err().unwrap();
    assert!(matches!(err, AppError::Crypto));
}

#[test]
fn unlock_with_recovery_code_works() {
    let (manifest, dek, recovery) = new_manifest("P", VaultTemplate::Personal, b"correct horse").unwrap();
    assert!(unlock_manifest_with_recovery(&manifest, &recovery).unwrap() == dek);
}

#[test]
fn recovery_replaces_forgotten_passphrase_without_changing_recovery() {
    let (manifest, dek, recovery) = new_manifest("P", VaultTemplate::Personal, b"old passphrase").unwrap();
    let (updated, key) = recover_manifest(&manifest, &recovery, b"new passphrase").unwrap();
    assert!(key == dek);
    assert!(unlock_manifest_with_passphrase(&updated, b"old passphrase").is_err());
    assert!(unlock_manifest_with_passphrase(&updated, b"new passphrase").is_ok());
    assert!(unlock_manifest_with_recovery(&updated, &recovery).is_ok());
}

#[test]
fn unlock_with_wrong_recovery_fails() {
    let (manifest, _, _) = new_manifest("P", VaultTemplate::Personal, b"correct horse").unwrap();
    let wrong = RecoveryCode::generate();
    assert!(matches!(unlock_manifest_with_recovery(&manifest, &wrong).err().unwrap(), AppError::Crypto));
}

#[test]
fn multiple_vaults_are_independent() {
    let (m1, _, _) = new_manifest("Personal", VaultTemplate::Personal, b"pass-one-xxx").unwrap();
    let (m2, _, _) = new_manifest("Consigliere", VaultTemplate::Consigliere, b"pass-two-yyy").unwrap();
    assert_ne!(m1.vault_id, m2.vault_id);
    assert!(unlock_manifest_with_passphrase(&m1, b"pass-two-yyy").is_err());
    assert!(unlock_manifest_with_passphrase(&m2, b"pass-one-xxx").is_err());
    assert_ne!(m1.key_material.wrapped_dek, m2.key_material.wrapped_dek);
}

#[test]
fn short_passphrase_rejected() {
    let err = new_manifest("P", VaultTemplate::Personal, b"short").err().unwrap();
    assert!(matches!(err, AppError::InvalidArgument(_)));
    assert!(check_new_passphrase(b"12345678").is_ok());
    let (manifest, _, recovery) = new_manifest("P", VaultTemplate::Personal, b"long enough").unwrap();
    assert!(matches!(recover_manifest(&manifest, &recovery, b"short"), Err(AppError::InvalidArgument(_))));
}

#[test]
fn key_literal_is_hex() {
    let k = sammy_lib::crypto::SecretKey::from_bytes([0xab; 32]);
    let lit = sqlcipher_key_literal(&k);
    assert_eq!(lit.len(), 2 + 64 + 1);
    assert!(lit.starts_with("x'abab"));
    assert!(lit.ends_with("'"));
}

#[test]
fn templates_have_default_names() {
    assert_eq!(VaultTemplate::Personal.default_name(), "Personal");
    assert_eq!(VaultTemplate::Witness.default_name(), "Witness");
    assert_eq!(VaultTemplate::Consigliere.default_name(), "Consigliere");
    assert_eq!(VaultTemplate::Custom.default_name(), "Custom");
}

#[test]
fn summary_carries_no_key_material() {
    let (manifest, _, _) = new_manifest("Alpha", VaultTemplate::Personal, b"passphrase1").unwrap();
    let s = VaultSummary::of_manifest(&manifest);
    assert_eq!(s.vault_id, manifest.vault_id.to_string());
    assert_eq!(s.name, "Alpha");
}

#[test]
fn restore_is_rejected_without_explicit_confirmation() {
    assert!(require_restore_confirmation(false).is_err());
    assert!(require_restore_confirmation(true).is_ok());
}

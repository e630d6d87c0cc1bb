use sammy_lib::backup::{
    build_header, entry_escapes_vault, escape_error, extract_body, frame_package, header_slice, locate_header,
    open_body_with_passphrase, open_body_with_recovery, restored_vault_id, seal_body, sha256_hex,
    verify_body_checksum, verify_file_checksums, BackupBody, BackupFile,
};
use sammy_lib::crypto::argon2_params::Params;
use sammy_lib::crypto::recovery::RecoveryCode;
use sammy_lib::error::AppError;
use sammy_lib::ids::VaultId;

#[test]
fn backup_round_trips_with_passphrase() {
    let recovery = RecoveryCode::generate();
    let body = b"vault files".to_vec();
    let sealed = seal_body(&body, b"correct horse", &recovery, &Params::test_fast());
    let id = VaultId::new();
    let header = build_header(&id, "Personal", &sealed);
    assert_eq!(header.vault_name, "Personal");
    assert_eq!(header.vault_id, id.to_string());
    verify_body_checksum(&header, &sealed.ciphertext).unwrap();
    let opened = open_body_with_passphrase(&header, &sealed.ciphertext, b"correct horse").unwrap();
    assert_eq!(opened, body);
}

#[test]
fn backup_round_trips_with_recovery() {
    let recovery = RecoveryCode::generate();
    let body = b"vault files".to_vec();
    let sealed = seal_body(&body, b"correct horse", &recovery, &Params::test_fast());
    let header = build_header(&VaultId::new(), "P", &sealed);
    assert_eq!(open_body_with_recovery(&header, &sealed.ciphertext, &recovery).unwrap(), body);
}

#[test]
fn restore_with_wrong_passphrase_fails() {
    let recovery = RecoveryCode::generate();
    let sealed = seal_body(b"x", b"correct horse", &recovery, &Params::test_fast());
    let header = build_header(&VaultId::new(), "P", &sealed);
    assert!(matches!(
        open_body_with_passphrase(&header, &sealed.ciphertext, b"wrong passphrase").unwrap_err(),
        AppError::Crypto
    ));
}

#[test]
fn restore_with_wrong_recovery_fails() {
    let good = RecoveryCode::generate();
    let sealed = seal_body(b"x", b"correct horse", &good, &Params::test_fast());
    let header = build_header(&VaultId::new(), "P", &sealed);
    let wrong = RecoveryCode::generate();
    assert!(open_body_with_recovery(&header, &sealed.ciphertext, &wrong).is_err());
}

#[test]
fn verify_detects_tampered_body() {
    let recovery = RecoveryCode::generate();
    let sealed = seal_body(b"x", b"correct horse", &recovery, &Params::test_fast());
    let header = build_header(&VaultId::new(), "P", &sealed);
    let mut ct = sealed.ciphertext.clone();
    let last = ct.len() - 1;
    ct[last] ^= 0xff;
    assert!(verify_body_checksum(&header, &ct).is_err());
    match open_body_with_passphrase(&header, &ct, b"correct horse") {
        Err(AppError::Vault(m)) => assert_eq!(m, "backup body checksum mismatch"),
        _ => panic!("expected a checksum error"),
    }
}

#[test]
fn package_frames_round_trip() {
    let recovery = RecoveryCode::generate();
    let sealed = seal_body(b"{\"files\":[]}", b"correct horse", &recovery, &Params::test_fast());
    let header_bytes = b"{\"format_version\":1}".to_vec();
    let pkg = frame_package(&header_bytes, &sealed.ciphertext);
    assert_eq!(&pkg[0..8], b"SAMMYBK1");
    let end = locate_header(&pkg).unwrap();
    assert_eq!(header_slice(&pkg, end), header_bytes.as_slice());
    assert_eq!(extract_body(&pkg, end).unwrap(), sealed.ciphertext);
}

#[test]
fn bad_magic_rejected() {
    assert!(matches!(locate_header(b"NOTSAMMYextra").unwrap_err(), AppError::Vault(_)));
    assert!(matches!(locate_header(b"NOTSAMMYextra-longer-than-20").unwrap_err(), AppError::Vault(_)));
}

#[test]
fn truncated_packages_are_rejected() {
    let pkg = frame_package(b"header", b"body-bytes");
    let end = locate_header(&pkg).unwrap();
    assert_eq!(end, 12 + 6);
    assert_eq!(extract_body(&pkg, end).unwrap(), b"body-bytes".to_vec());
    let cut = &pkg[..pkg.len() - 1];
    match extract_body(cut, end) {
        Err(AppError::Vault(m)) => assert_eq!(m, "backup body truncated"),
        _ => panic!("expected truncation"),
    }
    match locate_header(&pkg[..15]) {
        Err(AppError::Vault(m)) => assert_eq!(m, "backup file too short"),
        _ => panic!("expected a short file"),
    }
}

#[test]
fn file_checksums_are_checked() {
    let good = BackupFile { rel_path: "a.txt".into(), bytes: vec![1, 2, 3], sha256: sha256_hex(&[1, 2, 3]) };
    let bad = BackupFile { rel_path: "b.txt".into(), bytes: vec![4], sha256: "x".into() };
    let body = BackupBody { vault_id: "v".into(), app_version: "0.1.0".into(), schema_version: 4, files: vec![good.clone(), bad] };
    match verify_file_checksums(&body) {
        Err(AppError::Vault(m)) => assert_eq!(m, "file b.txt checksum mismatch"),
        _ => panic!("expected a checksum error"),
    }
    let ok = BackupBody { vault_id: "v".into(), app_version: "0.1.0".into(), schema_version: 4, files: vec![good] };
    assert!(verify_file_checksums(&ok).is_ok());
}

#[test]
fn restore_refuses_path_traversal_in_body() {
    assert!(entry_escapes_vault("../escape.txt"));
    assert!(entry_escapes_vault("a/../../b"));
    assert!(entry_escapes_vault(".."));
    assert!(!entry_escapes_vault("sources/a.txt"));
    assert!(!entry_escapes_vault("..hidden/file"));
    assert!(matches!(escape_error("../escape.txt"), AppError::Vault(_)));
}

#[test]
fn restored_vault_must_match_its_header() {
    let recovery = RecoveryCode::generate();
    let sealed = seal_body(b"x", b"correct horse", &recovery, &Params::test_fast());
    let id = VaultId::new();
    let header = build_header(&id, "P", &sealed);
    let body = BackupBody { vault_id: id.to_string(), app_version: "0.1.0".into(), schema_version: 1, files: vec![] };
    assert_eq!(restored_vault_id(&header, &body).unwrap(), id);
    let other = BackupBody { vault_id: VaultId::new().to_string(), ..body };
    assert!(matches!(restored_vault_id(&header, &other), Err(AppError::Vault(_))));
}

#[test]
fn restore_refuses_absolute_entries() {
    assert!(entry_escapes_vault("/etc/passwd"));
    assert!(entry_escapes_vault("\\Windows\\x"));
    assert!(entry_escapes_vault("C:\\Users\\x"));
    assert!(entry_escapes_vault("d:rel"));
    assert!(!entry_escapes_vault("b"));
    assert!(!entry_escapes_vault("vault.db"));
    assert!(!entry_escapes_vault("1:x"));
}

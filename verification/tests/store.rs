use sammy_lib::db::{latest_version, migrations, next_migration};
use sammy_lib::corpus::{
    import_action, is_indexed_status, validate_package, CorpusManifest, ImportAction, ImportOutcome, PackageType,
};
use sammy_lib::backup::sha256_hex;
use sammy_lib::error::AppError;

#[test]
fn each_migration_version_is_contiguous_and_increasing() {
    let mut prev = 1u32;
    for m in migrations() {
        assert_eq!(m.version, prev + 1, "migration versions must be contiguous; saw {} after {}", m.version, prev);
        prev = m.version;
    }
}

#[test]
fn latest_version_is_the_last_migration() {
    assert_eq!(latest_version(), 4);
    assert_eq!(migrations()[0].description, "knowledge_records table");
    assert!(migrations()[2].sql.contains("CREATE TABLE IF NOT EXISTS sources"));
}

#[test]
fn pending_migrations_start_after_the_current_version() {
    assert_eq!(next_migration(0), Some(0));
    assert_eq!(next_migration(1), Some(0));
    assert_eq!(next_migration(2), Some(1));
    assert_eq!(next_migration(3), Some(2));
    assert_eq!(next_migration(4), None);
    assert_eq!(next_migration(9), None);
}

fn manifest(count: u32, checksum: String) -> CorpusManifest {
    CorpusManifest {
        manifest_version: 1,
        package_type: PackageType::Full,
        vault_id: "v".into(),
        vault_name: "S".into(),
        created_at: "t".into(),
        app_version: "0.1".into(),
        record_schema_version: 1,
        record_count: count,
        source_count: 0,
        checksum,
        previous_package_checksum: None,
    }
}

#[test]
fn validate_rejects_bad_checksum() {
    let records_json = br#"[{"record_id":"r1"}]"#;
    let m = manifest(1, "deadbeef".into());
    assert!(validate_package(&m, records_json, &vec!["r1".to_string()]).is_err());
    let good = manifest(1, sha256_hex(records_json));
    assert!(validate_package(&good, records_json, &vec!["r1".to_string()]).is_ok());
}

#[test]
fn validate_rejects_duplicate_ids() {
    let records_json = br#"[{"record_id":"dup"},{"record_id":"dup"}]"#;
    let m = manifest(2, sha256_hex(records_json));
    match validate_package(&m, records_json, &vec!["dup".to_string(), "dup".to_string()]) {
        Err(AppError::Config(msg)) => assert_eq!(msg, "duplicate record id in package: dup"),
        _ => panic!("expected a duplicate-id error"),
    }
}

#[test]
fn validate_reports_versions_and_counts() {
    let json = b"[]";
    let mut m = manifest(0, sha256_hex(json));
    m.manifest_version = 7;
    match validate_package(&m, json, &vec![]) {
        Err(AppError::Config(msg)) => assert_eq!(msg, "unsupported manifest version 7"),
        _ => panic!("expected a version error"),
    }
    let m = manifest(3, sha256_hex(json));
    assert!(validate_package(&m, json, &vec![]).is_err());
    let m = manifest(1, sha256_hex(json));
    assert!(matches!(validate_package(&m, json, &vec![String::new()]), Err(AppError::Config(_))));
}

#[test]
fn import_applies_updates_when_newer() {
    assert_eq!(import_action("approved", true, Some("2024-01-01"), "2025-01-01"), ImportAction::Update);
    assert_eq!(import_action("approved", true, Some("2025-01-01"), "2025-01-01"), ImportAction::Skip);
    assert_eq!(import_action("approved", true, Some("2026-01-01"), "2025-01-01"), ImportAction::Skip);
    assert_eq!(import_action("approved", true, None, "2025-01-01"), ImportAction::Update);
    assert_eq!(import_action("approved", false, None, "2025-01-01"), ImportAction::Insert);
}

#[test]
fn import_tombstone_removes_active_availability() {
    assert_eq!(import_action("tombstoned", true, Some("x"), "y"), ImportAction::Tombstone);
    assert_eq!(import_action("tombstoned", false, None, "y"), ImportAction::InsertTombstoned);
    let mut o = ImportOutcome::new();
    o.count(ImportAction::Tombstone);
    o.count(ImportAction::InsertTombstoned);
    o.count(ImportAction::Insert);
    assert_eq!((o.imported, o.updated, o.tombstoned, o.skipped), (1, 0, 2, 0));
    assert!(is_indexed_status("approved"));
    assert!(is_indexed_status("disputed"));
    assert!(!is_indexed_status("tombstoned"));
}

#[test]
fn exported_manifest_validates_its_own_records() {
    let records_json = br#"[{"record_id":"r1"},{"record_id":"r2"}]"#;
    let m = sammy_lib::corpus::full_manifest("v1", "Personal", "2024-01-01T00:00:00Z".into(), "0.1.0", records_json, 2);
    assert_eq!(m.record_count, 2);
    assert_eq!(m.checksum, sha256_hex(records_json));
    assert_eq!(m.vault_name, "Personal");
    let ids = vec!["r1".to_string(), "r2".to_string()];
    assert!(validate_package(&m, records_json, &ids).is_ok());
}

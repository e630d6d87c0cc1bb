use sammy_lib::ids::{new_uuid_string, AuditEventId, RecordId, VaultId};

#[test]
fn ids_round_trip() {
    let v = VaultId::new();
    let s = v.to_string();
    let v2 = VaultId::parse(&s).unwrap();
    assert_eq!(v, v2);
}

#[test]
fn ids_reject_garbage() {
    assert!(VaultId::parse("not-a-uuid").is_err());
}

#[test]
fn ids_are_unique() {
    assert_ne!(RecordId::new(), RecordId::new());
}

#[test]
fn id_text_is_hyphenated_lowercase_and_version_four() {
    let s = AuditEventId::new().to_string();
    assert_eq!(s.len(), 36);
    assert_eq!(s.as_bytes()[14], b'4');
    assert_eq!(s, s.to_lowercase());
    assert_eq!(VaultId(0x0123456789abcdef0123456789abcdef).to_string(), "01234567-89ab-cdef-0123-456789abcdef");
    assert_eq!(new_uuid_string().len(), 36);
}

#[test]
fn parse_error_names_the_kind() {
    match RecordId::parse("x") {
        Err(sammy_lib::error::AppError::InvalidArgument(m)) => assert_eq!(m, "invalid RecordId id"),
        _ => panic!("expected an invalid-argument error"),
    }
}

use sammy_lib::crypto::aead;
use sammy_lib::crypto::argon2_params::{next_time_cost, CalibrationStep, Params};
use sammy_lib::crypto::random;
use sammy_lib::crypto::recovery::{base32_decode, base32_encode, derive_recovery_kek, RecoveryCode, GROUP_LEN};
use sammy_lib::crypto::{derive_kek, unwrap_key, wrap_key, CryptoError, SecretKey, VaultKeyMaterial};

#[test]
fn secret_key_zeroizes_logical_eq() {
    let a = SecretKey::from_bytes([7u8; 32]);
    let b = SecretKey::from_bytes([7u8; 32]);
    let c = SecretKey::from_bytes([8u8; 32]);
    assert!(a == b);
    assert!(!(a == c));
}

#[test]
fn random_keys_are_unique() {
    let a = SecretKey::random();
    let b = SecretKey::random();
    assert!(!(a == b));
}

#[test]
fn aead_round_trip() {
    let key = SecretKey::random();
    let msg = b"the quick brown fox";
    let ct = aead::encrypt(&key, msg);
    let pt = aead::decrypt(&key, &ct).unwrap();
    assert_eq!(pt.as_slice(), msg);
}

#[test]
fn aead_wrong_key_fails() {
    let k1 = SecretKey::random();
    let k2 = SecretKey::random();
    let ct = aead::encrypt(&k1, b"secret");
    assert!(matches!(aead::decrypt(&k2, &ct), Err(CryptoError::VerifyFailed)));
}

#[test]
fn aead_tamper_fails() {
    let key = SecretKey::random();
    let mut ct = aead::encrypt(&key, b"secret");
    let last = ct.len() - 1;
    ct[last] ^= 0xff;
    assert!(aead::decrypt(&key, &ct).is_err());
}

#[test]
fn aead_short_blob_fails() {
    let key = SecretKey::random();
    assert!(matches!(aead::decrypt(&key, &[0u8; 5]), Err(CryptoError::InvalidLength)));
}

#[test]
fn aead_blob_is_nonce_ciphertext_and_tag() {
    let key = SecretKey::random();
    let ct = aead::encrypt(&key, b"twelve bytes");
    assert_eq!(ct.len(), 12 + 12 + 16);
}

#[test]
fn wrap_unwrap_round_trip() {
    let kek = SecretKey::random();
    let dek = SecretKey::random();
    let blob = wrap_key(&kek, &dek);
    let recovered = unwrap_key(&kek, &blob).unwrap();
    assert!(dek == recovered);
}

#[test]
fn unwrap_of_a_non_key_length_plaintext_is_invalid_length() {
    let kek = SecretKey::random();
    let blob = aead::encrypt(&kek, b"not thirty-two bytes");
    assert!(matches!(unwrap_key(&kek, &blob), Err(CryptoError::InvalidLength)));
}

#[test]
fn kek_is_deterministic_for_same_inputs() {
    let p = b"correct horse battery staple";
    let salt = random::salt16();
    let params = Params::minimum_safe();
    let k1 = derive_kek(p, &salt, &params).unwrap();
    let k2 = derive_kek(p, &salt, &params).unwrap();
    assert!(k1 == k2);
}

#[test]
fn kek_differs_for_different_passphrases() {
    let salt = random::salt16();
    let params = Params::minimum_safe();
    let k1 = derive_kek(b"pass1", &salt, &params).unwrap();
    let k2 = derive_kek(b"pass2", &salt, &params).unwrap();
    assert!(!(k1 == k2));
}

#[test]
fn vault_material_full_round_trip_passphrase() {
    let params = Params::test_fast();
    let recovery = RecoveryCode::generate();
    let (material, dek) = VaultKeyMaterial::create(b"master-passphrase", &recovery, &params).unwrap();
    let unlocked = material.unlock_with_passphrase(b"master-passphrase").unwrap();
    assert!(dek == unlocked);
}

#[test]
fn vault_material_unlock_wrong_passphrase_fails() {
    let params = Params::test_fast();
    let recovery = RecoveryCode::generate();
    let (material, _) = VaultKeyMaterial::create(b"correct", &recovery, &params).unwrap();
    assert!(matches!(material.unlock_with_passphrase(b"wrong"), Err(CryptoError::VerifyFailed)));
}

#[test]
fn vault_material_recovery_unlock_works() {
    let params = Params::test_fast();
    let recovery = RecoveryCode::generate();
    let (material, dek) = VaultKeyMaterial::create(b"master", &recovery, &params).unwrap();
    let unlocked = material.unlock_with_recovery(&recovery).unwrap();
    assert!(dek == unlocked);
}

#[test]
fn vault_material_recovery_wrong_code_fails() {
    let params = Params::test_fast();
    let good = RecoveryCode::generate();
    let (material, _) = VaultKeyMaterial::create(b"master", &good, &params).unwrap();
    let wrong = RecoveryCode::generate();
    assert!(material.unlock_with_recovery(&wrong).is_err());
}

#[test]
fn vault_material_with_invalid_base64_is_an_encoding_error() {
    let params = Params::test_fast();
    let recovery = RecoveryCode::generate();
    let (mut material, _) = VaultKeyMaterial::create(b"master", &recovery, &params).unwrap();
    material.wrapped_dek = "not base64!".to_string();
    assert!(matches!(material.unlock_with_passphrase(b"master"), Err(CryptoError::InvalidEncoding(_))));
}

#[test]
fn new_passphrase_replaces_old_and_keeps_recovery() {
    let params = Params::test_fast();
    let recovery = RecoveryCode::generate();
    let (material, dek) = VaultKeyMaterial::create(b"old passphrase", &recovery, &params).unwrap();
    let updated = material.with_new_passphrase(&dek, b"new passphrase").unwrap();
    assert!(updated.unlock_with_passphrase(b"new passphrase").unwrap() == dek);
    assert!(updated.unlock_with_passphrase(b"old passphrase").is_err());
    assert!(updated.unlock_with_recovery(&recovery).unwrap() == dek);
    assert_eq!(updated.wrapped_dek_recovery, material.wrapped_dek_recovery);
}

#[test]
fn minimum_safe_meets_owasp_floor() {
    let p = Params::minimum_safe();
    assert!(p.m_kib >= 19 * 1024);
    assert!(p.t >= 2);
    assert!(p.p >= 1);
}

#[test]
fn calibrate_never_goes_below_floor() {
    let c = Params::calibrate(1);
    let f = Params::minimum_safe();
    assert!(c.m_kib >= f.m_kib);
    assert!(c.t >= f.t);
    assert!(c.p >= f.p);
}

#[test]
fn params_exact_values() {
    assert_eq!(Params::minimum_safe(), Params { m_kib: 19456, t: 2, p: 1 });
    assert_eq!(Params::production_default(), Params::minimum_safe());
    assert_eq!(Params::test_fast(), Params { m_kib: 8192, t: 1, p: 1 });
    assert!(Params::test_fast().is_valid());
    assert!(!Params { m_kib: 4, t: 1, p: 1 }.is_valid());
}

#[test]
fn generated_codes_are_unique() {
    let a = RecoveryCode::generate();
    let b = RecoveryCode::generate();
    assert_ne!(a.as_bytes(), b.as_bytes());
}

#[test]
fn human_round_trip_preserves_bytes() {
    let code = RecoveryCode::generate();
    let s = code.to_human_string();
    let back = RecoveryCode::parse(&s).unwrap();
    assert_eq!(code.as_bytes(), back.as_bytes());
}

#[test]
fn human_form_is_grouped_and_uppercase() {
    let code = RecoveryCode::generate();
    let s = code.to_human_string();
    for c in s.chars() {
        assert!(c.is_ascii_uppercase() || c.is_ascii_digit() || c == '-', "unexpected char {c}");
    }
    let groups: Vec<&str> = s.split('-').collect();
    for (i, group) in groups.iter().enumerate() {
        let is_last = i == groups.len() - 1;
        let max = GROUP_LEN;
        let min = if is_last { 2 } else { GROUP_LEN };
        assert!((min..=max).contains(&group.len()), "group {} has invalid length {}: {s}", i, group.len());
    }
}

#[test]
fn parse_accepts_lowercase_and_spaces() {
    let code = RecoveryCode::generate();
    let s = code.to_human_string().to_lowercase().replace('-', " ");
    let back = RecoveryCode::parse(&s).unwrap();
    assert_eq!(code.as_bytes(), back.as_bytes());
}

#[test]
fn checksum_detects_a_typo() {
    let code = RecoveryCode::generate();
    let s = code.to_human_string();
    let mut chars: Vec<char> = s.chars().collect();
    let idx = chars.iter().position(|c| c.is_ascii_alphabetic()).unwrap();
    let orig = chars[idx];
    let replacement = if orig == 'A' { 'B' } else { 'A' };
    chars[idx] = replacement;
    let tampered: String = chars.into_iter().collect();
    assert!(RecoveryCode::parse(&tampered).is_err());
}

#[test]
fn derive_recovery_kek_is_deterministic() {
    let code = RecoveryCode::generate();
    let salt = [1u8; 16];
    let k1 = derive_recovery_kek(&code, &salt).unwrap();
    let k2 = derive_recovery_kek(&code, &salt).unwrap();
    assert!(k1 == k2);
}

#[test]
fn derive_recovery_kek_differs_for_different_salts() {
    let code = RecoveryCode::generate();
    let k1 = derive_recovery_kek(&code, &[1u8; 16]).unwrap();
    let k2 = derive_recovery_kek(&code, &[2u8; 16]).unwrap();
    assert!(!(k1 == k2));
}

#[test]
fn base32_round_trip() {
    let cases: &[&[u8]] = &[b"", b"f", b"fo", b"foo", b"foob", b"fooba", b"foobar", &[0x00; 20], &[0xff; 20]];
    for c in cases {
        let enc = base32_encode(c);
        let dec = base32_decode(&enc).unwrap();
        assert_eq!(dec.as_slice(), *c, "round trip failed for {c:?}");
    }
}

#[test]
fn base32_matches_rfc4648_vectors() {
    assert_eq!(base32_encode(b"f"), "MY");
    assert_eq!(base32_encode(b"fo"), "MZXQ");
    assert_eq!(base32_encode(b"foo"), "MZXW6");
    assert_eq!(base32_encode(b"foobar"), "MZXW6YTBOI");
}

#[test]
fn base32_rejects_characters_outside_the_alphabet() {
    assert!(base32_decode("MZ1W").is_err());
}

#[test]
fn forbidden_plaintext_keys_via_debug() {
    let key = SecretKey::random();
    let dbg = key.debug_text();
    let hex = hex::encode(key.as_bytes());
    assert!(!dbg.contains(&hex), "SecretKey Debug must not leak key bytes");
    assert!(dbg.contains("redacted"));
    assert_eq!(dbg, "SecretKey(<redacted>)");
}

#[test]
fn recovery_code_debug_text_is_redacted() {
    let code = RecoveryCode::generate();
    let dbg = code.debug_text();
    assert_eq!(dbg, "RecoveryCode(<redacted>)");
    assert!(!dbg.contains(&code.to_human_string()));
}

#[test]
fn calibration_keeps_a_time_cost_only_within_target() {
    assert_eq!(next_time_cost(3, 250, 250), CalibrationStep::Accept(3));
    assert_eq!(next_time_cost(3, 0, 0), CalibrationStep::Accept(3));
    assert_eq!(next_time_cost(7, 251, 250), CalibrationStep::Stop);
    let c = Params::calibrate(0);
    assert_eq!(c, Params::minimum_safe());
}

#[test]
fn human_form_has_fixed_shape() {
    let s = RecoveryCode::parse("AAAA-AAAA-AAAA-AAAA-AAAA-AAAA-AAAA-AAAA-AA")
        .map(|c| c.to_human_string())
        .unwrap_or_else(|_| RecoveryCode::generate().to_human_string());
    assert_eq!(s.chars().count(), 42);
    for (i, c) in s.chars().enumerate() {
        assert_eq!(c == '-', i % 5 == 4, "position {i} of {s}");
        if i % 5 != 4 {
            assert!(c.is_ascii_uppercase() || ('2'..='7').contains(&c));
        }
    }
}

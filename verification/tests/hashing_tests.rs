use auth_core::hashing::{
    generate_password_hash, hash_then_verify, hash_with_two_salts, is_password_valid,
};

#[test]
fn verify_accepts_the_hashed_password() {
    let hash = generate_password_hash("Secret123", b"0123456789abcdef").unwrap();
    assert_eq!(is_password_valid("Secret123", &hash), Ok(true));
}

#[test]
fn verify_rejects_another_password() {
    let hash = generate_password_hash("Secret123", b"0123456789abcdef").unwrap();
    assert_eq!(is_password_valid("Secret124", &hash), Ok(false));
    assert_eq!(is_password_valid("", &hash), Ok(false));
}

#[test]
fn hash_then_verify_roundtrip() {
    assert_eq!(hash_then_verify("pa55w0rd", b"16-byte-salt-xyz"), Some(true));
}

#[test]
fn distinct_salts_give_distinct_hashes() {
    let (h1, h2) = hash_with_two_salts("Secret123", b"0123456789abcdef", b"fedcba9876543210")
        .unwrap();
    assert_ne!(h1, h2);
}

#[test]
fn hash_is_self_describing_phc() {
    let hash = generate_password_hash("Secret123", b"0123456789abcdef").unwrap();
    assert!(hash.starts_with("$argon2"));
}

#[test]
fn malformed_stored_hash_is_an_error_not_a_mismatch() {
    assert!(is_password_valid("Secret123", "not-a-phc-string").is_err());
    assert!(is_password_valid("Secret123", "").is_err());
}

#[test]
fn too_short_salt_is_refused() {
    assert!(generate_password_hash("Secret123", b"short").is_err());
}

#[test]
fn empty_password_is_refused() {
    assert!(generate_password_hash("", b"0123456789abcdef").is_err());
}

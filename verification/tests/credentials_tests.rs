use auth_core::credentials::{hash_password, verify_password, CredentialHasher};

#[test]
fn test_hash_and_verify_empty_password() {
    let hashed = hash_password("").unwrap();
    assert!(verify_password("", &hashed));
}

#[test]
fn test_hash_and_verify_password() {
    let hashed = hash_password("ThisIsASecretPassword").unwrap();
    assert!(verify_password("ThisIsASecretPassword", &hashed));
}

#[test]
fn test_hash_and_verify_wrong_password() {
    let hashed = hash_password("ThisIsASecretPassword").unwrap();
    assert!(!verify_password("ThisIsNotTheGoodPassword", &hashed));
}

#[test]
fn test_empty_hash_rejects_wrong_password() {
    let hashed = hash_password("").unwrap();
    assert!(!verify_password("ThisIsNotTheGoodPassword", &hashed));
}

#[test]
fn test_hash_is_salted_but_both_verify() {
    let first = hash_password("same password").unwrap();
    let second = hash_password("same password").unwrap();
    assert_ne!(first, second);
    assert!(verify_password("same password", &first));
    assert!(verify_password("same password", &second));
}

#[test]
fn test_verify_rejects_malformed_hash() {
    assert!(!verify_password("anything", "not a hash string"));
    assert!(!verify_password("anything", ""));
}

#[test]
fn test_default_hash_is_full_cost_decoy() {
    let hasher = CredentialHasher::setup().unwrap();
    let decoy = hasher.default_hash();
    assert!(decoy.starts_with("$argon2id$"));
    assert!(verify_password("", decoy));
    assert!(!verify_password("some guess", decoy));
}

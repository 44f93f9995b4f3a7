use expense_auth::hasher::{hash, hash_with_salt, verify};

#[test]
fn hash_then_verify_accepts() {
    let h = hash("secret123").unwrap();
    assert_eq!(verify("secret123", &h), Ok(true));
}

#[test]
fn verify_rejects_other_password() {
    let h = hash("secret123").unwrap();
    assert_eq!(verify("wrong", &h), Ok(false));
}

#[test]
fn hash_twice_differs() {
    let a = hash("same password").unwrap();
    let b = hash("same password").unwrap();
    assert_ne!(a, b);
    assert_eq!(verify("same password", &a), Ok(true));
    assert_eq!(verify("same password", &b), Ok(true));
}

#[test]
fn hash_with_salt_is_deterministic() {
    let a = hash_with_salt("hunter2", "c2FsdHNhbHRzYWx0c2FsdA").unwrap();
    let b = hash_with_salt("hunter2", "c2FsdHNhbHRzYWx0c2FsdA").unwrap();
    assert_eq!(a, b);
    assert_ne!(a, "hunter2");
    assert!(a.starts_with("$argon2id$"));
    assert!(a.contains("c2FsdHNhbHRzYWx0c2FsdA"));
}

#[test]
fn hash_with_bad_salt_fails() {
    assert!(hash_with_salt("hunter2", "#").is_err());
}

#[test]
fn verify_malformed_hash_fails_closed() {
    assert!(verify("secret123", "not a phc string").is_err());
    assert!(verify("secret123", "").is_err());
}

#[test]
fn hash_is_argon2id_phc() {
    let h = hash("").unwrap();
    assert!(h.starts_with("$argon2id$v=19$"));
    assert_eq!(verify("", &h), Ok(true));
}

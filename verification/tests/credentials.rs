use content_backend::credentials::{hash, verify, CredentialError};

#[test]
fn hash_then_verify_accepts_the_password() {
    let stored = hash("s3cret").unwrap();
    assert_eq!(verify("s3cret", &stored), Ok(true));
}

#[test]
fn hash_then_verify_rejects_another_password() {
    let stored = hash("s3cret").unwrap();
    assert_eq!(verify("nope", &stored), Ok(false));
}

#[test]
fn hash_is_sixty_characters_and_not_the_password() {
    let stored = hash("s3cret").unwrap();
    assert_eq!(stored.chars().count(), 60);
    assert!(stored.starts_with("$2b$12$"));
    assert_ne!(stored, "s3cret");
}

#[test]
fn hash_draws_a_salt_of_its_own_each_time() {
    let first = hash("s3cret").unwrap();
    let second = hash("s3cret").unwrap();
    assert_ne!(first, second);
}

#[test]
fn verify_accepts_a_hash_made_elsewhere() {
    let stored = "$2b$04$EGdrhbKUv8Oc9vGiXX0HQOxSg445d458Muh7DAHskb6QbtCvdxcie";
    assert_eq!(verify("correctbatteryhorsestapler", stored), Ok(true));
    assert_eq!(verify("correctbatteryhorsestaple", stored), Ok(false));
    assert_eq!(verify("", stored), Ok(false));
}

#[test]
fn verify_reports_a_malformed_hash() {
    assert_eq!(verify("s3cret", "s3cret"), Err(CredentialError::MalformedHash));
    assert_eq!(verify("s3cret", ""), Err(CredentialError::MalformedHash));
    let bad_cost = "$2b$99$EGdrhbKUv8Oc9vGiXX0HQOxSg445d458Muh7DAHskb6QbtCvdxcie";
    assert_eq!(verify("correctbatteryhorsestapler", bad_cost), Err(CredentialError::MalformedHash));
}

#[test]
fn verify_looks_at_seventy_two_bytes_only() {
    let stored = "$2a$05$......................YgIDy4hFBdVlc/6LHnD9mX488r9cLd2";
    let hundred = "x".repeat(100);
    let seventy_two = "x".repeat(72);
    assert_eq!(verify(&hundred, stored), Ok(true));
    assert_eq!(verify(&seventy_two, stored), Ok(true));
    assert_eq!(verify(&"x".repeat(71), stored), Ok(false));
}

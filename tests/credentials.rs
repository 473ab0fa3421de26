use socialnet::crypto::{CredentialError, PasswordService};

#[test]
fn hashed_password_verifies() {
    let phc = PasswordService::hash_password("correct horse").unwrap();
    assert!(phc.starts_with("$argon2id$v=19$m=19456,t=2,p=1$"));
    assert_ne!(phc, "correct horse");
    assert_eq!(PasswordService::verify_password("correct horse", &phc), Ok(true));
}

#[test]
fn other_password_does_not_verify() {
    let phc = PasswordService::hash_password("p1").unwrap();
    assert_eq!(PasswordService::verify_password("p2", &phc), Ok(false));
}

#[test]
fn two_hashes_of_one_password_differ() {
    let a = PasswordService::hash_password("same").unwrap();
    let b = PasswordService::hash_password("same").unwrap();
    assert_ne!(a, b);
    assert_eq!(PasswordService::verify_password("same", &a), Ok(true));
    assert_eq!(PasswordService::verify_password("same", &b), Ok(true));
}

#[test]
fn malformed_credential_is_an_error() {
    assert_eq!(PasswordService::verify_password("x", "not a phc string"), Err(CredentialError::Malformed));
    assert_eq!(PasswordService::verify_password("x", ""), Err(CredentialError::Malformed));
}

#[test]
fn empty_password_round_trips() {
    let phc = PasswordService::hash_password("").unwrap();
    assert_eq!(PasswordService::verify_password("", &phc), Ok(true));
    assert_eq!(PasswordService::verify_password(" ", &phc), Ok(false));
}

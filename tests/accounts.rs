use socialnet::accounts::{find_account, identity_in_use, login, register_user, LoginError, RegistrationError};
use socialnet::crypto::PasswordService;
use socialnet::ids::{Timestamp, Uuid};
use socialnet::jwt::validate_jwt;
use socialnet::models::users::{NewUser, User};
use socialnet::requests::users::RegisterRequest;

const SECRET: &[u8] = b"secret";

fn request(username: &str, email: &str, password: &str) -> RegisterRequest {
    RegisterRequest {
        username: username.to_string(),
        email: email.to_string(),
        password: password.to_string(),
        name: None,
        bio: Some("bio".to_string()),
        avatar_url: None,
    }
}

fn insert(table: &mut Vec<User>, row: NewUser) {
    let n = table.len() as u128 + 1;
    table.push(User {
        id: Uuid { bits: n },
        username: row.username,
        email: row.email,
        password_hash: row.password_hash,
        name: row.name,
        bio: row.bio,
        avatar_url: row.avatar_url,
        created_at: Timestamp { micros: 0 },
        updated_at: Timestamp { micros: 0 },
    });
}

#[test]
fn registering_alice_twice_is_a_conflict() {
    let mut table: Vec<User> = Vec::new();
    let first = register_user(request("alice", "a@x.org", "pw"), &table).unwrap();
    assert_eq!(first.username, "alice");
    assert_eq!(first.bio, Some("bio".to_string()));
    assert_eq!(PasswordService::verify_password("pw", &first.password_hash), Ok(true));
    insert(&mut table, first);

    let same_email = register_user(request("alice", "a@x.org", "pw"), &table);
    assert!(matches!(same_email, Err(RegistrationError::Conflict)));
    let other_email = register_user(request("alice", "b@x.org", "pw2"), &table);
    assert!(matches!(other_email, Err(RegistrationError::Conflict)));
    assert_eq!(table.len(), 1);
}

#[test]
fn email_in_use_is_a_conflict() {
    let mut table: Vec<User> = Vec::new();
    let row = register_user(request("alice", "a@x.org", "pw"), &table).unwrap();
    insert(&mut table, row);
    assert!(matches!(register_user(request("bob", "a@x.org", "pw"), &table), Err(RegistrationError::Conflict)));
    assert!(register_user(request("bob", "b@x.org", "pw"), &table).is_ok());
}

#[test]
fn identity_lookup() {
    let mut table: Vec<User> = Vec::new();
    let row = register_user(request("alice", "a@x.org", "pw"), &table).unwrap();
    insert(&mut table, row);
    let row = register_user(request("bob", "b@x.org", "pw"), &table).unwrap();
    insert(&mut table, row);
    assert!(identity_in_use(&table, &"bob".to_string(), &"zzz".to_string()));
    assert!(identity_in_use(&table, &"zzz".to_string(), &"a@x.org".to_string()));
    assert!(!identity_in_use(&table, &"carol".to_string(), &"c@x.org".to_string()));
    assert_eq!(find_account(&table, "b@x.org"), Some(1));
    assert_eq!(find_account(&table, "alice"), Some(0));
    assert_eq!(find_account(&table, "carol"), None);
}

#[test]
fn login_issues_token_for_user_id() {
    let mut table: Vec<User> = Vec::new();
    let row = register_user(request("alice", "a@x.org", "pw"), &table).unwrap();
    insert(&mut table, row);
    let token = login(&table, "a@x.org", "pw", SECRET, 1_000).unwrap();
    assert_eq!(validate_jwt(&token, SECRET, 1_000), Some("00000000-0000-0000-0000-000000000001".to_string()));
    assert!(login(&table, "alice", "pw", SECRET, 1_000).is_ok());
}

#[test]
fn login_refusals() {
    let mut table: Vec<User> = Vec::new();
    let row = register_user(request("alice", "a@x.org", "pw"), &table).unwrap();
    insert(&mut table, row);
    assert_eq!(login(&table, "alice", "wrong", SECRET, 1_000), Err(LoginError::InvalidCredentials));
    assert_eq!(login(&table, "nobody", "pw", SECRET, 1_000), Err(LoginError::InvalidCredentials));
    table[0].password_hash = "corrupted".to_string();
    assert_eq!(login(&table, "alice", "pw", SECRET, 1_000), Err(LoginError::MalformedCredential));
}

#[test]
fn login_at_the_end_of_time_still_issues_a_token() {
    let mut table: Vec<User> = Vec::new();
    let row = register_user(request("alice", "a@x.org", "pw"), &table).unwrap();
    insert(&mut table, row);
    let token = login(&table, "alice", "pw", SECRET, u64::MAX).unwrap();
    assert_eq!(validate_jwt(&token, SECRET, u64::MAX), Some("00000000-0000-0000-0000-000000000001".to_string()));
}

//! Registration and login: uniqueness of usernames and emails, storage of the
//! password as a credential, and the issuance of a session token on a correct
//! password.
use crate::crypto::{credential_check, is_default_argon2_phc, PasswordService};
use crate::ids::hyphenated;
use crate::jwt::{create_jwt, issued};
use crate::models::users::{NewUser, User};
use crate::requests::users::RegisterRequest;
use vstd::prelude::*;

verus! {

/// Why a registration is refused.
#[derive(Clone, Copy, Debug, PartialEq, Eq, Structural)]
pub enum RegistrationError {
    /// The username or the email already belongs to a user.
    Conflict,
    /// The password could not be hashed.
    Hashing,
}

/// Why a login is refused.
#[derive(Clone, Copy, Debug, PartialEq, Eq, Structural)]
pub enum LoginError {
    /// No such user, or a wrong password; which of the two is not told.
    InvalidCredentials,
    /// The stored credential of the user cannot be parsed: a defect of the data.
    MalformedCredential,
}

/// `user` has the username `username` or the email `email`.
pub open spec fn has_identity(user: User, username: Seq<char>, email: Seq<char>) -> bool {
    user.username@ == username || user.email@ == email
}

/// Some user of `users` has the username `username` or the email `email`.
pub open spec fn identity_taken(users: Seq<User>, username: Seq<char>, email: Seq<char>) -> bool {
    exists|k: int| 0 <= k < users.len() && has_identity(#[trigger] users[k], username, email)
}

/// The position of the first user of `users` whose username or email is `identifier`.
pub open spec fn first_account(users: Seq<User>, identifier: Seq<char>) -> Option<int>
    decreases users.len(),
{
    if users.len() == 0 {
        None
    } else if has_identity(users[0], identifier, identifier) {
        Some(0)
    } else {
        match first_account(users.drop_first(), identifier) {
            Some(k) => Some(k + 1),
            None => None,
        }
    }
}

/// Whether `username` or `email` is already in use by one of `users`.
pub fn identity_in_use(users: &Vec<User>, username: &String, email: &String) -> (r: bool)
    ensures
        r == identity_taken(users@, username@, email@),
{
    let mut k: usize = 0;
    while k < users.len()
        invariant
            k <= users.len(),
            forall|j: int| 0 <= j < k ==> !has_identity(#[trigger] users@[j], username@, email@),
        decreases users.len() - k,
    {
        if users[k].username == *username || users[k].email == *email {
            assert(has_identity(users@[k as int], username@, email@));
            return true;
        }
        assert(!has_identity(users@[k as int], username@, email@));
        k = k + 1;
    }
    false
}

/// The row of a new user from `request`, given the users `existing` whose username
/// or email could clash. A clash is refused as a conflict and inserts nothing;
/// otherwise the registration succeeds (for any password of at most `u32::MAX`
/// bytes) and the password is stored only as a fresh Argon2id credential that
/// verifies against it.
pub fn register_user(request: RegisterRequest, existing: &Vec<User>) -> (r: Result<NewUser, RegistrationError>)
    ensures
        r == Err::<NewUser, RegistrationError>(RegistrationError::Conflict) <==> identity_taken(
            existing@,
            request.username@,
            request.email@,
        ),
        r matches Err(e) ==> e == RegistrationError::Conflict || e == RegistrationError::Hashing,
        !identity_taken(existing@, request.username@, request.email@) && vstd::utf8::encode_utf8(
            request.password@,
        ).len() <= 0xFFFF_FFFF ==> r is Ok,
        r matches Ok(u) ==> {
            &&& u.username == request.username
            &&& u.email == request.email
            &&& u.name == request.name
            &&& u.bio == request.bio
            &&& u.avatar_url == request.avatar_url
            &&& credential_check(request.password@, u.password_hash@) == Some(true)
            &&& is_default_argon2_phc(u.password_hash@)
        },
{
    if identity_in_use(existing, &request.username, &request.email) {
        return Err(RegistrationError::Conflict);
    }
    let password_hash = match PasswordService::hash_password(request.password.as_str()) {
        Ok(h) => h,
        Err(_) => return Err(RegistrationError::Hashing),
    };
    Ok(NewUser {
        username: request.username,
        email: request.email,
        password_hash,
        name: request.name,
        bio: request.bio,
        avatar_url: request.avatar_url,
    })
}

/// The first user of `users` whose username or email is `identifier`.
pub fn find_account(users: &Vec<User>, identifier: &str) -> (r: Option<usize>)
    ensures
        match r {
            Some(k) => k < users.len() && first_account(users@, identifier@) == Some(k as int),
            None => first_account(users@, identifier@) is None,
        },
{
    let ident = String::from_str(identifier);
    let mut k: usize = 0;
    while k < users.len()
        invariant
            k <= users.len(),
            ident@ == identifier@,
            forall|j: int| 0 <= j < k ==> !has_identity(#[trigger] users@[j], identifier@, identifier@),
        decreases users.len() - k,
    {
        if users[k].username == ident || users[k].email == ident {
            assert(has_identity(users@[k as int], identifier@, identifier@));
            proof { lemma_first_account_at(users@, identifier@, k as int); }
            return Some(k);
        }
        assert(!has_identity(users@[k as int], identifier@, identifier@));
        k = k + 1;
    }
    proof { lemma_first_account_none(users@, identifier@); }
    None
}

proof fn lemma_first_account_at(users: Seq<User>, identifier: Seq<char>, k: int)
    requires
        0 <= k < users.len(),
        has_identity(users[k], identifier, identifier),
        forall|j: int| 0 <= j < k ==> !has_identity(#[trigger] users[j], identifier, identifier),
    ensures
        first_account(users, identifier) == Some(k),
    decreases k,
{
    if k > 0 {
        let rest = users.drop_first();
        assert forall|j: int| 0 <= j < k - 1 implies !has_identity(#[trigger] rest[j], identifier, identifier) by {
            assert(rest[j] == users[j + 1]);
        }
        assert(!has_identity(users[0], identifier, identifier));
        assert(rest[k - 1] == users[k]);
        lemma_first_account_at(rest, identifier, k - 1);
    }
}

proof fn lemma_first_account_none(users: Seq<User>, identifier: Seq<char>)
    requires
        forall|j: int| 0 <= j < users.len() ==> !has_identity(#[trigger] users[j], identifier, identifier),
    ensures
        first_account(users, identifier) is None,
    decreases users.len(),
{
    if users.len() > 0 {
        let rest = users.drop_first();
        assert forall|j: int| 0 <= j < rest.len() implies !has_identity(#[trigger] rest[j], identifier, identifier) by {
            assert(rest[j] == users[j + 1]);
        }
        assert(!has_identity(users[0], identifier, identifier));
        lemma_first_account_none(rest, identifier);
    }
}

/// Logs in the user of `users` whose username or email is `identifier`, checking
/// `password` against their stored credential, and issues a session token for
/// their id at time `now`. An unknown user and a wrong password are refused alike;
/// a correct password always yields a token.
pub fn login(users: &Vec<User>, identifier: &str, password: &str, secret: &[u8], now: u64) -> (r: Result<
    String,
    LoginError,
>)
    ensures
        match first_account(users@, identifier@) {
            None => r == Err::<String, LoginError>(LoginError::InvalidCredentials),
            Some(k) => match credential_check(password@, users@[k].password_hash@) {
                None => r == Err::<String, LoginError>(LoginError::MalformedCredential),
                Some(false) => r == Err::<String, LoginError>(LoginError::InvalidCredentials),
                Some(true) => r matches Ok(t) && issued(t@, hyphenated(users@[k].id.bits), secret@, now),
            },
        },
{
    let k = match find_account(users, identifier) {
        Some(k) => k,
        None => return Err(LoginError::InvalidCredentials),
    };
    let user = &users[k];
    match PasswordService::verify_password(password, user.password_hash.as_str()) {
        Err(_) => Err(LoginError::MalformedCredential),
        Ok(false) => Err(LoginError::InvalidCredentials),
        Ok(true) => {
            let subject = user.id.to_text();
            match create_jwt(subject.as_str(), secret, now) {
                Ok(t) => Ok(t),
                Err(_) => unreached(),
            }
        },
    }
}

} // verus!

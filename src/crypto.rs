//! Password credentials: Argon2 hashing with a fresh random salt per call, and
//! verification of a password against a stored PHC string.
use argon2::password_hash::{PasswordHasher, PasswordVerifier};
use vstd::prelude::*;

verus! {

#[verifier::external_type_specification]
#[verifier::external_body]
pub struct ExPasswordHashError(argon2::password_hash::Error);

/// Whether `argon2::password_hash::PasswordHash::new` parses `phc` as a PHC string.
pub uninterp spec fn phc_parses(phc: Seq<char>) -> bool;

/// Whether `Argon2::default().verify_password` accepts `password` against the parsed `phc`.
pub uninterp spec fn argon2_accepts(password: Seq<char>, phc: Seq<char>) -> bool;

/// The PHC prefix of every hash made by `Argon2::default()`: algorithm argon2id,
/// version 19 and the default costs (19456 KiB of memory, 2 passes, 1 lane).
pub open spec fn default_phc_prefix() -> Seq<char> {
    "$argon2id$v=19$m=19456,t=2,p=1$"@
}

/// `phc` is a PHC string of `Argon2::default()`: it starts with the default prefix.
pub open spec fn is_default_argon2_phc(phc: Seq<char>) -> bool {
    default_phc_prefix().len() <= phc.len() && phc.subrange(0, default_phc_prefix().len() as int)
        == default_phc_prefix()
}

/// Relies on `SaltString::generate` fed by `rand::rngs::OsRng` (a fresh salt of 16
/// random bytes) and on `PasswordHasher::hash_password` of `Argon2::default()`, rendered
/// with the `Display` impl of `PasswordHash`. With such a salt, hashing fails only for a
/// password longer than `argon2::MAX_PWD_LEN` (`u32::MAX`) bytes. The PHC string starts
/// with the default algorithm, version and costs and, as the argon2 crate documents,
/// parses with `PasswordHash::new` and verifies against the same password.
#[verifier::external_body]
fn argon2_hash(password: &str) -> (r: Result<String, argon2::password_hash::Error>)
    ensures
        vstd::utf8::encode_utf8(password@).len() <= 0xFFFF_FFFF ==> r is Ok,
        r matches Ok(phc) ==> is_default_argon2_phc(phc@) && phc_parses(phc@) && argon2_accepts(
            password@,
            phc@,
        ),
{
    let salt = argon2::password_hash::SaltString::generate(&mut rand::rngs::OsRng);
    argon2::Argon2::default().hash_password(password.as_bytes(), &salt).map(|h| h.to_string())
}

/// Relies on `PasswordHash::new` to parse the stored PHC string (it fails only there)
/// and on `PasswordVerifier::verify_password` of `Argon2::default()` to check the password.
#[verifier::external_body]
fn argon2_verify(password: &str, phc: &str) -> (r: Result<bool, argon2::password_hash::Error>)
    ensures
        r is Err <==> !phc_parses(phc@),
        r matches Ok(b) ==> b == argon2_accepts(password@, phc@),
{
    let parsed = argon2::password_hash::PasswordHash::new(phc)?;
    Ok(argon2::Argon2::default().verify_password(password.as_bytes(), &parsed).is_ok())
}

/// Why a credential operation failed.
#[derive(Clone, Copy, Debug, PartialEq, Eq, Structural)]
pub enum CredentialError {
    /// The hashing primitive failed internally.
    Hashing,
    /// The stored credential is not a PHC string: corrupted data, not a wrong password.
    Malformed,
}

/// The outcome of checking `password` against the stored credential `phc`:
/// `None` where the credential cannot be parsed, else whether the password matches.
pub open spec fn credential_check(password: Seq<char>, phc: Seq<char>) -> Option<bool> {
    if phc_parses(phc) {
        Some(argon2_accepts(password, phc))
    } else {
        None
    }
}

/// Hashing and verification of passwords.
pub struct PasswordService;

impl PasswordService {
    /// Hashes `password` with a fresh random salt and the default Argon2id costs.
    /// Hashing succeeds for every password of at most `u32::MAX` bytes; whatever salt
    /// was drawn, the credential returned verifies against the same password.
    pub fn hash_password(password: &str) -> (r: Result<String, CredentialError>)
        ensures
            vstd::utf8::encode_utf8(password@).len() <= 0xFFFF_FFFF ==> r is Ok,
            r matches Ok(phc) ==> credential_check(password@, phc@) == Some(true)
                && is_default_argon2_phc(phc@),
            r matches Err(e) ==> e == CredentialError::Hashing,
    {
        match argon2_hash(password) {
            Ok(phc) => Ok(phc),
            Err(_) => Err(CredentialError::Hashing),
        }
    }

    /// Checks `password` against the stored credential `phc`: `Ok(false)` on a plain
    /// mismatch, `Err(Malformed)` when the credential cannot be parsed.
    pub fn verify_password(password: &str, phc: &str) -> (r: Result<bool, CredentialError>)
        ensures
            r == (match credential_check(password@, phc@) {
                Some(b) => Ok::<bool, CredentialError>(b),
                None => Err(CredentialError::Malformed),
            }),
    {
        match argon2_verify(password, phc) {
            Ok(b) => Ok(b),
            Err(_) => Err(CredentialError::Malformed),
        }
    }
}

} // verus!

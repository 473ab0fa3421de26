//! Session tokens: HS256-signed JWTs carrying a subject and an expiry, and the
//! guard that turns the `auth_token` cookie into an authenticated principal.
use crate::ids::{uuid_parse_result, Uuid};
use vstd::prelude::*;

verus! {

/// How long a session token stays valid after issuance, in seconds (24 hours).
pub const TOKEN_LIFETIME_SECS: u64 = 86400;

/// Name of the cookie that carries the session token.
pub const AUTH_COOKIE_NAME: &'static str = "auth_token";

#[verifier::external_type_specification]
#[verifier::external_body]
pub struct ExJwtError(jsonwebtoken::errors::Error);

/// The compact token that `jsonwebtoken::encode` yields for the claims
/// `{"exp": exp, "sub": sub}` under the default HS256 header and the HMAC key `secret`.
pub uninterp spec fn jwt_encoding(sub: Seq<char>, exp: u64, secret: Seq<u8>) -> Seq<char>;

/// The claims `(sub, exp)` that `jsonwebtoken::decode` reads from `token` with the HMAC
/// key `secret` (signature checked, expiry not checked), or `None` where it rejects the
/// token or the claims lack a string `sub` or an unsigned `exp`.
pub uninterp spec fn jwt_claims(token: Seq<char>, secret: Seq<u8>) -> Option<(Seq<char>, u64)>;

/// Relies on `jsonwebtoken::encode` with `Header::default()` (HS256) and
/// `EncodingKey::from_secret`. It fails only on a key of another algorithm family or on
/// claims that do not serialize, neither of which can happen here; decoding the token
/// with the same secret gives the claims back.
#[verifier::external_body]
fn sign_claims(sub: &str, exp: u64, secret: &[u8]) -> (r: Result<String, jsonwebtoken::errors::Error>)
    ensures
        r is Ok,
        r matches Ok(t) ==> t@ == jwt_encoding(sub@, exp, secret@) && jwt_claims(t@, secret@)
            == Some((sub@, exp)),
{
    let mut claims = serde_json::Map::new();
    claims.insert("sub".to_string(), serde_json::Value::from(sub));
    claims.insert("exp".to_string(), serde_json::Value::from(exp));
    let key = jsonwebtoken::EncodingKey::from_secret(secret);
    jsonwebtoken::encode(&jsonwebtoken::Header::default(), &claims, &key)
}

/// Relies on `jsonwebtoken::decode` with `DecodingKey::from_secret` and the default
/// HS256 validation with the expiry check switched off (the caller compares `exp` with
/// its own clock); the claims are read as a derived `Deserialize` of `{sub: String,
/// exp: u64}` would read them.
#[verifier::external_body]
fn read_claims(token: &str, secret: &[u8]) -> (r: Option<(String, u64)>)
    ensures
        r is None <==> jwt_claims(token@, secret@) is None,
        r matches Some((s, e)) ==> jwt_claims(token@, secret@) == Some((s@, e)),
{
    let mut validation = jsonwebtoken::Validation::default();
    validation.validate_exp = false;
    let key = jsonwebtoken::DecodingKey::from_secret(secret);
    let data = jsonwebtoken::decode::<serde_json::Map<String, serde_json::Value>>(token, &key, &validation).ok()?;
    let sub = data.claims.get("sub")?.as_str()?.to_string();
    let exp = data.claims.get("exp")?.as_u64()?;
    Some((sub, exp))
}

/// Why a token could not be issued. Signing HS256 claims with an HMAC key never
/// fails, so `create_jwt` never returns it.
#[derive(Clone, Copy, Debug, PartialEq, Eq, Structural)]
pub enum TokenError {
    /// The signing library refused the claims.
    Signing,
}

/// The expiry of a token issued at `issued_at`: `TOKEN_LIFETIME_SECS` later, held at
/// `u64::MAX` where the sum would not fit.
pub open spec fn expiry_of(issued_at: u64) -> u64 {
    if issued_at + TOKEN_LIFETIME_SECS <= u64::MAX {
        (issued_at + TOKEN_LIFETIME_SECS) as u64
    } else {
        u64::MAX
    }
}

/// `token` carries, under `secret`, the subject `subject` and the expiry of a token
/// issued at `issued_at`.
pub open spec fn issued(token: Seq<char>, subject: Seq<char>, secret: Seq<u8>, issued_at: u64) -> bool {
    jwt_claims(token, secret) == Some((subject, expiry_of(issued_at)))
}

/// The subject that claims grant at time `now`: none once `exp` has passed.
pub open spec fn subject_at(claims: Option<(Seq<char>, u64)>, now: u64) -> Option<Seq<char>> {
    match claims {
        Some((sub, exp)) => if now <= exp { Some(sub) } else { None },
        None => None,
    }
}

/// The view of an optional string.
pub open spec fn opt_view(o: Option<String>) -> Option<Seq<char>> {
    match o {
        Some(s) => Some(s@),
        None => None,
    }
}

/// Issues a token for `user_id` at time `now` (unix seconds), expiring
/// `TOKEN_LIFETIME_SECS` later, signed with `secret`. Issuance always succeeds.
pub fn create_jwt(user_id: &str, secret: &[u8], now: u64) -> (r: Result<String, TokenError>)
    ensures
        r matches Ok(t) && t@ == jwt_encoding(user_id@, expiry_of(now), secret@) && issued(
            t@,
            user_id@,
            secret@,
            now,
        ),
{
    let exp = now.saturating_add(TOKEN_LIFETIME_SECS);
    match sign_claims(user_id, exp, secret) {
        Ok(t) => Ok(t),
        Err(_) => Err(TokenError::Signing),
    }
}

/// The subject of decoded claims, provided they have not expired at `now`.
pub fn current_subject(claims: Option<(String, u64)>, now: u64) -> (r: Option<String>)
    ensures
        opt_view(r) == subject_at(
            match claims {
                Some((s, e)) => Some((s@, e)),
                None => None,
            },
            now,
        ),
{
    match claims {
        Some((sub, exp)) => if now <= exp { Some(sub) } else { None },
        None => None,
    }
}

/// Validates `token` against `secret` at time `now`: its subject when the signature
/// holds and the expiry has not passed, `None` on any failure, without saying which.
pub fn validate_jwt(token: &str, secret: &[u8], now: u64) -> (r: Option<String>)
    ensures
        opt_view(r) == subject_at(jwt_claims(token@, secret@), now),
{
    let claims = read_claims(token, secret);
    current_subject(claims, now)
}

/// A token validates to its subject from its issuance until its expiry.
pub proof fn lemma_issued_token_validates(
    token: Seq<char>,
    subject: Seq<char>,
    secret: Seq<u8>,
    issued_at: u64,
    now: u64,
)
    requires
        issued(token, subject, secret, issued_at),
        issued_at <= now <= expiry_of(issued_at),
    ensures
        subject_at(jwt_claims(token, secret), now) == Some(subject),
{
}

/// A token whose encoded expiry has passed validates to nothing.
pub proof fn lemma_expired_token_rejected(token: Seq<char>, secret: Seq<u8>, now: u64)
    requires
        jwt_claims(token, secret) matches Some((_, exp)) && exp < now,
    ensures
        subject_at(jwt_claims(token, secret), now) is None,
{
}

/// Why a request was refused by the guard; the cause is deliberately not told.
#[derive(Clone, Copy, Debug, PartialEq, Eq, Structural)]
pub enum AuthError {
    Unauthenticated,
}

/// Why a principal's subject is unusable as a user id.
#[derive(Clone, Copy, Debug, PartialEq, Eq, Structural)]
pub enum SubjectError {
    InvalidUserId,
}

/// The principal of an authenticated request: the subject of its session token.
pub struct AuthenticatedUser {
    pub user_id: String,
}

impl AuthenticatedUser {
    /// The guard: admits a request whose `auth_token` cookie holds a token valid under
    /// `secret` at `now`, and refuses it, uniformly, when the cookie is absent or invalid.
    pub fn from_cookie(cookie: Option<&str>, secret: &[u8], now: u64) -> (r: Result<
        AuthenticatedUser,
        AuthError,
    >)
        ensures
            match cookie {
                Some(token) => match subject_at(jwt_claims(token@, secret@), now) {
                    Some(sub) => r matches Ok(u) && u.user_id@ == sub,
                    None => r == Err::<AuthenticatedUser, AuthError>(AuthError::Unauthenticated),
                },
                None => r == Err::<AuthenticatedUser, AuthError>(AuthError::Unauthenticated),
            },
    {
        match cookie {
            Some(token) => match validate_jwt(token, secret, now) {
                Some(user_id) => Ok(AuthenticatedUser { user_id }),
                None => Err(AuthError::Unauthenticated),
            },
            None => Err(AuthError::Unauthenticated),
        }
    }

    /// The principal's subject read as a user id.
    pub fn user_uuid(&self) -> (r: Result<Uuid, SubjectError>)
        ensures
            r == (match uuid_parse_result(self.user_id@) {
                Some(bits) => Ok::<Uuid, SubjectError>(Uuid { bits }),
                None => Err(SubjectError::InvalidUserId),
            }),
    {
        match Uuid::parse(self.user_id.as_str()) {
            Some(id) => Ok(id),
            None => Err(SubjectError::InvalidUserId),
        }
    }
}

} // verus!

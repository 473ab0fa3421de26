//! Requests on users and sessions.
use vstd::prelude::*;

verus! {

/// Body of a login request.
pub struct LoginRequest {
    pub username_or_email: String,
    pub password: String,
}

/// Body of a registration request.
pub struct RegisterRequest {
    pub username: String,
    pub email: String,
    pub password: String,
    pub name: Option<String>,
    pub bio: Option<String>,
    pub avatar_url: Option<String>,
}

/// Query string of the user listing: page, page size and an optional search term.
pub struct UsersQuery {
    pub page: i64,
    pub per_page: i64,
    pub search: Option<String>,
}

/// The page shown when the query names none.
pub fn default_page() -> (r: i64)
    ensures
        r == 1,
{
    1
}

/// The page size used when the query names none.
pub fn default_per_page() -> (r: i64)
    ensures
        r == 20,
{
    20
}

} // verus!

//! User rows.
use crate::ids::{Timestamp, Uuid};
use vstd::prelude::*;

verus! {

/// A registered user. `username` and `email` are each unique among all users.
pub struct User {
    pub id: Uuid,
    pub username: String,
    pub email: String,
    pub password_hash: String,
    pub name: Option<String>,
    pub bio: Option<String>,
    pub avatar_url: Option<String>,
    pub created_at: Timestamp,
    pub updated_at: Timestamp,
}

/// A user about to be inserted; the store assigns the id and the timestamps.
pub struct NewUser {
    pub username: String,
    pub email: String,
    pub password_hash: String,
    pub name: Option<String>,
    pub bio: Option<String>,
    pub avatar_url: Option<String>,
}

/// What may be shown of a user to anyone: no email, no credential.
pub struct UserPublic {
    pub id: Uuid,
    pub username: String,
    pub name: Option<String>,
    pub bio: Option<String>,
    pub avatar_url: Option<String>,
    pub created_at: Timestamp,
}

/// A change of profile: each field given replaces the stored one.
pub struct UserUpdate {
    pub name: Option<String>,
    pub bio: Option<String>,
    pub avatar_url: Option<String>,
}

impl From<User> for UserPublic {
    fn from(user: User) -> (r: UserPublic) {
        UserPublic {
            id: user.id,
            username: user.username,
            name: user.name,
            bio: user.bio,
            avatar_url: user.avatar_url,
            created_at: user.created_at,
        }
    }
}

impl vstd::std_specs::convert::FromSpecImpl<User> for UserPublic {
    open spec fn obeys_from_spec() -> bool {
        true
    }

    open spec fn from_spec(user: User) -> UserPublic {
        UserPublic {
            id: user.id,
            username: user.username,
            name: user.name,
            bio: user.bio,
            avatar_url: user.avatar_url,
            created_at: user.created_at,
        }
    }
}

} // verus!

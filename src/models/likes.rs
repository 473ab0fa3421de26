//! Like rows.
use crate::ids::{Timestamp, Uuid};
use crate::models::users::User;
use vstd::prelude::*;

verus! {

/// `user_id` likes `tweet_id`.
#[derive(Clone, Copy, Debug, PartialEq, Eq, Structural)]
pub struct Like {
    pub id: Uuid,
    pub user_id: Uuid,
    pub tweet_id: Uuid,
    pub created_at: Timestamp,
}

/// A like about to be inserted.
#[derive(Clone, Copy, Debug, PartialEq, Eq, Structural)]
pub struct NewLike {
    pub id: Uuid,
    pub user_id: Uuid,
    pub tweet_id: Uuid,
}

/// A like with the user who gave it.
pub struct LikeWithUser {
    pub like: Like,
    pub user: User,
}

} // verus!

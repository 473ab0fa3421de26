//! Follow edges: at most one per ordered pair of users.
use crate::ids::{Timestamp, Uuid};
use crate::models::users::User;
use vstd::prelude::*;

verus! {

/// `follower_id` follows `followed_id`.
pub struct Follow {
    pub follower_id: Uuid,
    pub followed_id: Uuid,
    pub created_at: Timestamp,
}

/// A follow edge about to be inserted.
#[derive(Clone, Copy, Debug, PartialEq, Eq, Structural)]
pub struct NewFollow {
    pub follower_id: Uuid,
    pub followed_id: Uuid,
}

/// A follow edge with both of its users.
pub struct FollowWithUsers {
    pub follow: Follow,
    pub follower: User,
    pub followed: User,
}

/// A user with the counters of their profile.
pub struct UserStats {
    pub user: User,
    pub followers_count: i64,
    pub following_count: i64,
    pub tweets_count: i64,
    pub is_following: bool,
}

} // verus!

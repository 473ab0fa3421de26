//! Tweet rows: posts, first-level replies and retweets.
use crate::ids::{Timestamp, Uuid};
use crate::models::users::User;
use vstd::prelude::*;

verus! {

/// A tweet. A reply names its parent in `reply_to_id`; a retweet has `is_retweet`
/// set and names the tweet it wraps in `original_tweet_id`.
pub struct Tweet {
    pub id: Uuid,
    pub user_id: Uuid,
    pub content: String,
    pub media_urls: Option<Vec<Option<String>>>,
    pub reply_to_id: Option<Uuid>,
    pub is_retweet: bool,
    pub original_tweet_id: Option<Uuid>,
    pub created_at: Timestamp,
}

/// A tweet about to be inserted; the store assigns the id and the creation time.
pub struct NewTweet {
    pub user_id: Uuid,
    pub content: String,
    pub media_urls: Option<Vec<Option<String>>>,
    pub reply_to_id: Option<Uuid>,
    pub is_retweet: bool,
    pub original_tweet_id: Option<Uuid>,
}

/// A tweet with its author.
pub struct TweetWithUser {
    pub tweet: Tweet,
    pub user: User,
}

/// A tweet with its author, its counters and the viewer's relation to it.
pub struct TweetWithStats {
    pub tweet: Tweet,
    pub user: User,
    pub likes_count: i64,
    pub retweets_count: i64,
    pub replies_count: i64,
    pub is_liked_by_current_user: bool,
    pub is_retweeted_by_current_user: bool,
}

/// The shape every tweet row keeps: a retweet names its original and replies to
/// nothing; a reply is no retweet.
pub open spec fn well_shaped(reply_to_id: Option<Uuid>, is_retweet: bool, original_tweet_id: Option<Uuid>) -> bool {
    &&& is_retweet ==> original_tweet_id is Some && reply_to_id is None
    &&& reply_to_id is Some ==> !is_retweet
}

impl NewTweet {
    pub open spec fn well_shaped(&self) -> bool {
        well_shaped(self.reply_to_id, self.is_retweet, self.original_tweet_id)
    }
}

} // verus!

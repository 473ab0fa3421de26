//! Requests on tweets.
use vstd::prelude::*;

verus! {

/// Body of a request that posts a tweet or a reply.
pub struct CreateTweetRequest {
    pub content: String,
}

/// Body of a request that retweets, with optional commentary.
pub struct CreateRetweetRequest {
    pub content: Option<String>,
}

/// Query string of the feed: which page, and how many tweets per page.
pub struct TweetsQuery {
    pub page: i64,
    pub per_page: i64,
}

/// The page shown when the query names none.
pub fn default_page() -> (r: i64)
    ensures
        r == 1,
{
    1
}

/// The page size used when the query names none.
pub fn default_per_page() -> (r: i64)
    ensures
        r == 20,
{
    20
}

} // verus!

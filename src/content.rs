//! Rules of the content graph: the rows that posting, replying, retweeting,
//! following and liking insert, who may delete a tweet, how a profile update
//! applies, and how a search term becomes a pattern for the user listing.
use crate::ids::{Timestamp, Uuid};
use crate::models::follows::NewFollow;
use crate::models::likes::{Like, NewLike};
use crate::models::tweets::{well_shaped, NewTweet, Tweet};
use crate::models::users::{User, UserUpdate};
use vstd::prelude::*;

verus! {

/// Why a change of the content graph is refused.
#[derive(Clone, Copy, Debug, PartialEq, Eq, Structural)]
pub enum ContentError {
    /// Only tweets that are not replies can be replied to.
    ReplyToReply,
    /// Only its author may delete a tweet.
    NotOwner,
    /// A user cannot follow themself.
    SelfFollow,
    /// The user already likes the tweet, and likes are kept unique.
    DuplicateLike,
}

/// A tweet can be replied to when it is no reply itself.
pub open spec fn accepts_replies(parent: Tweet) -> bool {
    parent.reply_to_id is None
}

/// The row of a new top-level tweet.
pub fn new_tweet(user_id: Uuid, content: String, media_urls: Option<Vec<Option<String>>>) -> (r: NewTweet)
    ensures
        r.user_id == user_id,
        r.content == content,
        r.media_urls == media_urls,
        r.reply_to_id is None,
        !r.is_retweet,
        r.original_tweet_id is None,
        r.well_shaped(),
{
    NewTweet { user_id, content, media_urls, reply_to_id: None, is_retweet: false, original_tweet_id: None }
}

/// The row of a reply by `user_id` to `parent`, refused when `parent` is itself a
/// reply: threads are one level deep.
pub fn new_reply(parent: &Tweet, user_id: Uuid, content: String) -> (r: Result<NewTweet, ContentError>)
    ensures
        r is Ok <==> accepts_replies(*parent),
        r matches Err(e) ==> e == ContentError::ReplyToReply,
        r matches Ok(t) ==> {
            &&& t.user_id == user_id
            &&& t.content == content
            &&& t.media_urls is None
            &&& t.reply_to_id == Some(parent.id)
            &&& !t.is_retweet
            &&& t.original_tweet_id is None
            &&& t.well_shaped()
        },
{
    if parent.reply_to_id.is_some() {
        return Err(ContentError::ReplyToReply);
    }
    Ok(NewTweet {
        user_id,
        content,
        media_urls: None,
        reply_to_id: Some(parent.id),
        is_retweet: false,
        original_tweet_id: None,
    })
}

/// The row of a retweet of `original_id` by `user_id`, with optional commentary
/// (empty when absent).
pub fn new_retweet(original_id: Uuid, user_id: Uuid, content: Option<String>) -> (r: NewTweet)
    ensures
        r.user_id == user_id,
        r.content@ == (match content {
            Some(c) => c@,
            None => Seq::<char>::empty(),
        }),
        r.media_urls is None,
        r.reply_to_id is None,
        r.is_retweet,
        r.original_tweet_id == Some(original_id),
        r.well_shaped(),
{
    let text = match content {
        Some(c) => c,
        None => String::new(),
    };
    NewTweet {
        user_id,
        content: text,
        media_urls: None,
        reply_to_id: None,
        is_retweet: true,
        original_tweet_id: Some(original_id),
    }
}

/// Whether `principal` may delete `tweet`: only its author may.
pub fn authorize_tweet_deletion(tweet: &Tweet, principal: Uuid) -> (r: Result<(), ContentError>)
    ensures
        r is Ok <==> tweet.user_id == principal,
        r matches Err(e) ==> e == ContentError::NotOwner,
{
    if tweet.user_id == principal {
        Ok(())
    } else {
        Err(ContentError::NotOwner)
    }
}

/// The edge of `follower_id` following `followed_id`. Following oneself is refused.
pub fn new_follow(follower_id: Uuid, followed_id: Uuid) -> (r: Result<NewFollow, ContentError>)
    ensures
        r is Ok <==> follower_id != followed_id,
        r matches Ok(f) ==> f.follower_id == follower_id && f.followed_id == followed_id,
        r matches Err(e) ==> e == ContentError::SelfFollow,
{
    if follower_id == followed_id {
        Err(ContentError::SelfFollow)
    } else {
        Ok(NewFollow { follower_id, followed_id })
    }
}

/// Some like of `existing` is by `user_id` on `tweet_id`.
pub open spec fn already_likes(existing: Seq<Like>, user_id: Uuid, tweet_id: Uuid) -> bool {
    exists|k: int| 0 <= k < existing.len() && existing[k].user_id == user_id && existing[k].tweet_id == tweet_id
}

/// The like `id` of `user_id` on `tweet_id`, given the likes `existing` already
/// stored. With `unique` set, a second like of the same tweet by the same user is
/// refused; without it, likes may repeat.
pub fn new_like(existing: &Vec<Like>, id: Uuid, user_id: Uuid, tweet_id: Uuid, unique: bool) -> (r: Result<
    NewLike,
    ContentError,
>)
    ensures
        r is Err <==> unique && already_likes(existing@, user_id, tweet_id),
        r matches Ok(l) ==> l.id == id && l.user_id == user_id && l.tweet_id == tweet_id,
        r matches Err(e) ==> e == ContentError::DuplicateLike,
{
    if unique {
        let mut k: usize = 0;
        while k < existing.len()
            invariant
                unique,
                k <= existing.len(),
                forall|j: int|
                    0 <= j < k ==> !(existing@[j].user_id == user_id && existing@[j].tweet_id
                        == tweet_id),
            decreases existing.len() - k,
        {
            if existing[k].user_id == user_id && existing[k].tweet_id == tweet_id {
                assert(already_likes(existing@, user_id, tweet_id));
                return Err(ContentError::DuplicateLike);
            }
            k = k + 1;
        }
    }
    Ok(NewLike { id, user_id, tweet_id })
}

/// `field` replaced by `given` when one is given.
pub open spec fn updated_field(field: Option<String>, given: Option<String>) -> Option<String> {
    if given is Some { given } else { field }
}

/// The update changes something.
pub open spec fn changes_anything(update: UserUpdate) -> bool {
    update.name is Some || update.bio is Some || update.avatar_url is Some
}

/// `user` after `update` at time `now`: each field given replaces the stored one,
/// and `updated_at` becomes `now` exactly when some field was given.
pub fn apply_user_update(user: User, update: UserUpdate, now: Timestamp) -> (r: User)
    ensures
        r.id == user.id,
        r.username == user.username,
        r.email == user.email,
        r.password_hash == user.password_hash,
        r.name == updated_field(user.name, update.name),
        r.bio == updated_field(user.bio, update.bio),
        r.avatar_url == updated_field(user.avatar_url, update.avatar_url),
        r.created_at == user.created_at,
        r.updated_at == (if changes_anything(update) { now } else { user.updated_at }),
{
    let changed = update.name.is_some() || update.bio.is_some() || update.avatar_url.is_some();
    let name = match update.name {
        Some(n) => Some(n),
        None => user.name,
    };
    let bio = match update.bio {
        Some(b) => Some(b),
        None => user.bio,
    };
    let avatar_url = match update.avatar_url {
        Some(a) => Some(a),
        None => user.avatar_url,
    };
    User {
        id: user.id,
        username: user.username,
        email: user.email,
        password_hash: user.password_hash,
        name,
        bio,
        avatar_url,
        created_at: user.created_at,
        updated_at: if changed { now } else { user.updated_at },
    }
}

/// Characters that a `LIKE` pattern gives a meaning: wildcards and the escape.
pub open spec fn is_like_special(c: char) -> bool {
    c == '%' || c == '_' || c == '\\'
}

/// `s` with each special character preceded by a backslash, so that a `LIKE`
/// pattern built from it matches it literally.
pub open spec fn like_escaped(s: Seq<char>) -> Seq<char>
    decreases s.len(),
{
    if s.len() == 0 {
        Seq::empty()
    } else {
        let c = s.last();
        like_escaped(s.drop_last()) + if is_like_special(c) { seq!['\\', c] } else { seq![c] }
    }
}

/// The case-insensitive substring pattern (`ILIKE`) for a search term: the term,
/// escaped, between two `%` wildcards. A row matches when its username, name or
/// bio contains the term, ignoring case.
pub fn search_pattern(term: &str) -> (r: String)
    ensures
        r@ == seq!['%'] + like_escaped(term@) + seq!['%'],
{
    let percent = "%";
    let backslash = "\\";
    proof {
        reveal_strlit("%");
        reveal_strlit("\\");
    }
    let mut out = String::from_str(percent);
    let n = term.unicode_len();
    let mut i: usize = 0;
    while i < n
        invariant
            i <= n,
            n == term@.len(),
            out@ == seq!['%'] + like_escaped(term@.take(i as int)),
            percent@ == seq!['%'],
            backslash@ == seq!['\\'],
        decreases n - i,
    {
        let c = term.get_char(i);
        if c == '%' || c == '_' || c == '\\' {
            out.append(backslash);
        }
        out.append(term.substring_char(i, i + 1));
        proof {
            let t = term@.take(i + 1);
            assert(t.drop_last() =~= term@.take(i as int));
            assert(t.last() == c);
            assert(term@.subrange(i as int, i + 1) =~= seq![c]);
        }
        i = i + 1;
        assert(out@ =~= seq!['%'] + like_escaped(term@.take(i as int)));
    }
    out.append(percent);
    assert(term@.take(n as int) =~= term@);
    out
}

/// A tweet row as the store keeps it, from the row inserted under `id` at `created_at`.
pub open spec fn stored_tweet(row: NewTweet, id: Uuid, created_at: Timestamp) -> Tweet {
    Tweet {
        id,
        user_id: row.user_id,
        content: row.content,
        media_urls: row.media_urls,
        reply_to_id: row.reply_to_id,
        is_retweet: row.is_retweet,
        original_tweet_id: row.original_tweet_id,
        created_at,
    }
}

/// No stored tweet replies to a reply.
pub open spec fn threads_flat(tweets: Seq<Tweet>) -> bool {
    forall|i: int, j: int|
        0 <= i < tweets.len() && 0 <= j < tweets.len() && #[trigger] tweets[i].reply_to_id == Some(
            #[trigger] tweets[j].id,
        ) ==> tweets[j].reply_to_id is None
}

/// `id` names no stored tweet and no stored tweet replies to it.
pub open spec fn fresh_id(tweets: Seq<Tweet>, id: Uuid) -> bool {
    forall|i: int| 0 <= i < tweets.len() ==> (#[trigger] tweets[i]).id != id && tweets[i].reply_to_id != Some(id)
}

/// Stored tweets have distinct ids.
pub open spec fn ids_distinct(tweets: Seq<Tweet>) -> bool {
    forall|i: int, j: int|
        0 <= i < tweets.len() && 0 <= j < tweets.len() && i != j ==> #[trigger] tweets[i].id
            != #[trigger] tweets[j].id
}

/// Storing a reply that `new_reply` accepted, under a fresh id, keeps every thread
/// one level deep.
pub proof fn lemma_reply_keeps_threads_flat(
    tweets: Seq<Tweet>,
    p: int,
    row: NewTweet,
    id: Uuid,
    created_at: Timestamp,
)
    requires
        threads_flat(tweets),
        ids_distinct(tweets),
        0 <= p < tweets.len(),
        accepts_replies(tweets[p]),
        row.reply_to_id == Some(tweets[p].id),
        fresh_id(tweets, id),
    ensures
        threads_flat(tweets.push(stored_tweet(row, id, created_at))),
{
    let all = tweets.push(stored_tweet(row, id, created_at));
    let n = tweets.len() as int;
    assert forall|i: int, j: int|
        0 <= i < all.len() && 0 <= j < all.len() && #[trigger] all[i].reply_to_id == Some(
            #[trigger] all[j].id,
        ) implies all[j].reply_to_id is None by {
        if i < n && j < n {
            assert(tweets[i].reply_to_id == Some(tweets[j].id));
        } else if i < n {
            assert(tweets[i].reply_to_id != Some(id));
        } else if j < n {
            assert(tweets[j].id == tweets[p].id);
            if j != p {
                assert(tweets[j].id != tweets[p].id);
            }
        } else {
            assert(tweets[p].id != id);
        }
    }
}

} // verus!

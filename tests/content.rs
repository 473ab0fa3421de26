use socialnet::content::{
    apply_user_update, authorize_tweet_deletion, new_follow, new_like, new_reply, new_retweet,
    new_tweet, search_pattern, ContentError,
};
use socialnet::ids::{Timestamp, Uuid};
use socialnet::models::likes::Like;
use socialnet::models::tweets::{NewTweet, Tweet};
use socialnet::models::users::{User, UserPublic, UserUpdate};

fn id(n: u128) -> Uuid {
    Uuid { bits: n }
}

fn stored(row: NewTweet, tweet_id: u128) -> Tweet {
    Tweet {
        id: id(tweet_id),
        user_id: row.user_id,
        content: row.content,
        media_urls: row.media_urls,
        reply_to_id: row.reply_to_id,
        is_retweet: row.is_retweet,
        original_tweet_id: row.original_tweet_id,
        created_at: Timestamp { micros: 0 },
    }
}

fn user() -> User {
    User {
        id: id(7),
        username: "alice".to_string(),
        email: "alice@example.com".to_string(),
        password_hash: "$argon2id$stub".to_string(),
        name: Some("Alice".to_string()),
        bio: None,
        avatar_url: Some("a.png".to_string()),
        created_at: Timestamp { micros: 1 },
        updated_at: Timestamp { micros: 2 },
    }
}

#[test]
fn reply_to_tweet_then_reply_to_reply() {
    let a = stored(new_tweet(id(1), "hello".to_string(), None), 100);
    let reply = new_reply(&a, id(2), "hi back".to_string()).ok().unwrap();
    assert_eq!(reply.reply_to_id, Some(id(100)));
    assert_eq!(reply.content, "hi back");
    assert!(!reply.is_retweet);
    let stored_reply = stored(reply, 101);
    assert!(matches!(new_reply(&stored_reply, id(3), "nested".to_string()), Err(ContentError::ReplyToReply)));
}

#[test]
fn new_tweet_is_top_level() {
    let t = new_tweet(id(1), "x".to_string(), Some(vec![Some("u".to_string()), None]));
    assert_eq!(t.reply_to_id, None);
    assert!(!t.is_retweet);
    assert_eq!(t.original_tweet_id, None);
    assert_eq!(t.media_urls, Some(vec![Some("u".to_string()), None]));
}

#[test]
fn retweet_wraps_original() {
    let r = new_retweet(id(100), id(2), Some("so true".to_string()));
    assert!(r.is_retweet);
    assert_eq!(r.original_tweet_id, Some(id(100)));
    assert_eq!(r.reply_to_id, None);
    assert_eq!(r.content, "so true");
    let bare = new_retweet(id(100), id(2), None);
    assert_eq!(bare.content, "");
}

#[test]
fn reply_to_retweet_is_allowed() {
    let rt = stored(new_retweet(id(100), id(2), None), 200);
    assert!(new_reply(&rt, id(3), "re".to_string()).is_ok());
}

#[test]
fn only_author_deletes_tweet() {
    let t = stored(new_tweet(id(1), "x".to_string(), None), 100);
    assert_eq!(authorize_tweet_deletion(&t, id(1)), Ok(()));
    assert_eq!(authorize_tweet_deletion(&t, id(2)), Err(ContentError::NotOwner));
}

#[test]
fn self_follow_is_refused() {
    let f = new_follow(id(1), id(2)).unwrap();
    assert_eq!((f.follower_id, f.followed_id), (id(1), id(2)));
    assert_eq!(new_follow(id(3), id(3)), Err(ContentError::SelfFollow));
}

#[test]
fn duplicate_like_depends_on_policy() {
    let existing = vec![Like { id: id(9), user_id: id(1), tweet_id: id(100), created_at: Timestamp { micros: 0 } }];
    assert_eq!(new_like(&existing, id(10), id(1), id(100), true), Err(ContentError::DuplicateLike));
    let again = new_like(&existing, id(10), id(1), id(100), false).unwrap();
    assert_eq!((again.id, again.user_id, again.tweet_id), (id(10), id(1), id(100)));
    assert!(new_like(&existing, id(11), id(2), id(100), true).is_ok());
    assert!(new_like(&existing, id(12), id(1), id(101), true).is_ok());
    assert!(new_like(&vec![], id(13), id(1), id(100), true).is_ok());
}

#[test]
fn update_replaces_given_fields_only() {
    let now = Timestamp { micros: 50 };
    let u = apply_user_update(
        user(),
        UserUpdate { name: None, bio: Some("hello".to_string()), avatar_url: None },
        now,
    );
    assert_eq!(u.name, Some("Alice".to_string()));
    assert_eq!(u.bio, Some("hello".to_string()));
    assert_eq!(u.avatar_url, Some("a.png".to_string()));
    assert_eq!(u.updated_at, now);
    assert_eq!(u.username, "alice");

    let same = apply_user_update(user(), UserUpdate { name: None, bio: None, avatar_url: None }, now);
    assert_eq!(same.updated_at, Timestamp { micros: 2 });
}

#[test]
fn public_view_hides_email_and_credential() {
    let p: UserPublic = user().into();
    assert_eq!(p.id, id(7));
    assert_eq!(p.username, "alice");
    assert_eq!(p.name, Some("Alice".to_string()));
    assert_eq!(p.created_at, Timestamp { micros: 1 });
}

#[test]
fn search_pattern_escapes_wildcards() {
    assert_eq!(search_pattern("ali"), "%ali%");
    assert_eq!(search_pattern(""), "%%");
    assert_eq!(search_pattern("50%_off\\"), "%50\\%\\_off\\\\%");
    assert_eq!(search_pattern("Zoë"), "%Zoë%");
}

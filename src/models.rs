//! Rows of the content graph: users, tweets, follows, likes and media.
pub mod follows;
pub mod likes;
pub mod media;
pub mod tweets;
pub mod users;

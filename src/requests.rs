//! Bodies and query strings of requests, as plain values.
pub mod tweets;
pub mod users;

//! Identity and content-integrity core of a small social network: password
//! credentials, signed session tokens and the request guard built on them,
//! pagination of listings, the rules that keep the content graph consistent,
//! the naming of uploaded media, and the protocol that deletes media blobs
//! together with the rows that reference them.
pub mod ids;
pub mod models;
pub mod requests;

pub mod crypto;
pub mod jwt;
pub mod accounts;

pub mod pagination;
pub mod content;
pub mod media;
pub mod cascade;

//! Media rows: each owns one object of the blob store, named by `s3_key`.
use crate::ids::{Timestamp, Uuid};
use vstd::prelude::*;

verus! {

/// An uploaded file, owned by `user_id`, stored in the blob store under `s3_key`.
pub struct Media {
    pub id: Uuid,
    pub user_id: Uuid,
    pub s3_key: String,
    pub file_name: String,
    pub file_type: String,
    pub created_at: Timestamp,
}

/// A media row about to be inserted.
pub struct NewMedia {
    pub id: Uuid,
    pub user_id: Uuid,
    pub s3_key: String,
    pub file_name: String,
    pub file_type: String,
    pub created_at: Timestamp,
}

/// Where an uploaded file can be fetched.
pub struct UploadMediaForm {
    pub media_url: String,
}

} // verus!

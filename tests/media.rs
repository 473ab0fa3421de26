use socialnet::ids::Uuid;
use socialnet::media::{
    check_upload, declared_or_guessed_type, is_allowed_extension, is_image_or_video_type, key_for,
    media_url, recorded_type, starts_with, stored_file_name, upload_check, upload_key, MediaError,
};

#[test]
fn accepted_uploads() {
    assert_eq!(check_upload("cat.png"), Ok(()));
    assert_eq!(check_upload("CAT.PNG"), Ok(()));
    assert_eq!(check_upload("clip.webm"), Ok(()));
    assert_eq!(check_upload("dir/holiday.JPeG"), Ok(()));
}

#[test]
fn refused_uploads() {
    assert_eq!(check_upload("notes.txt"), Err(MediaError::DisallowedExtension));
    assert_eq!(check_upload("noext"), Err(MediaError::DisallowedExtension));
    assert_eq!(check_upload(".png"), Err(MediaError::DisallowedExtension));
    assert_eq!(upload_check(Some("png".to_string()), Some("text/plain".to_string())), Err(MediaError::NotImageOrVideo));
    assert_eq!(upload_check(Some("png".to_string()), None), Err(MediaError::NotImageOrVideo));
    assert_eq!(upload_check(Some("gif".to_string()), Some("image/gif".to_string())), Ok(()));
    assert_eq!(upload_check(None, Some("image/gif".to_string())), Err(MediaError::DisallowedExtension));
}

#[test]
fn extension_and_type_predicates() {
    for e in ["png", "jpg", "jpeg", "gif", "mp4", "mov", "webm"] {
        assert!(is_allowed_extension(e));
    }
    assert!(!is_allowed_extension("PNG"));
    assert!(!is_allowed_extension(""));
    assert!(is_image_or_video_type("image/png"));
    assert!(is_image_or_video_type("video/mp4"));
    assert!(!is_image_or_video_type("application/octet-stream"));
    assert!(!is_image_or_video_type("image"));
    assert!(starts_with("abc", ""));
    assert!(!starts_with("ab", "abc"));
}

#[test]
fn blob_keys() {
    let user = Uuid { bits: 1 };
    let file = Uuid { bits: 0xff };
    assert_eq!(
        upload_key(user, file, "photo.JPG"),
        "uploads/00000000-0000-0000-0000-000000000001/00000000-0000-0000-0000-0000000000ff.JPG"
    );
    assert_eq!(
        upload_key(user, file, "README"),
        "uploads/00000000-0000-0000-0000-000000000001/00000000-0000-0000-0000-0000000000ff"
    );
    assert_eq!(key_for(user, file, ""), upload_key(user, file, "file"));
}

#[test]
fn names_types_and_urls() {
    assert_eq!(stored_file_name(Some("a.png")), "a.png");
    assert_eq!(stored_file_name(None), "file");
    assert_eq!(declared_or_guessed_type(Some("image/webp"), "a.png"), Some("image/webp".to_string()));
    assert_eq!(declared_or_guessed_type(None, "a.png"), Some("image/png".to_string()));
    assert_eq!(declared_or_guessed_type(None, "a.unknownext"), None);
    assert_eq!(recorded_type(None), "application/octet-stream");
    assert_eq!(recorded_type(Some("video/mp4".to_string())), "video/mp4");
    assert_eq!(media_url("bucket", "uploads/k"), "https://bucket.s3.amazonaws.com/uploads/k");
}
